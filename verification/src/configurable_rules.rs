//! An earlier sketch of the configurable game rules, kept as data
//! declarations; the live configuration types are in [`crate::configs`].

use vstd::prelude::*;

verus! {

/// All configurable rules of how the game is played.
#[derive(Debug, Clone, Copy)]
pub struct ConfigurableRules {
    pub basic_rules: BasicRules,
    pub play_rules: PlayRules,
    pub time_rules: TimeRules,
    pub score_rules: ScoreRules,
}

#[derive(Debug, Clone, Copy)]
pub struct BasicRules {
    pub player_count: u8,
    pub deck_size: u8,
}

#[derive(Debug, Clone, Copy)]
pub struct PlayRules {}

#[derive(Debug, Clone, Copy)]
pub struct TimeRules {}

#[derive(Debug, Clone, Copy)]
pub struct ScoreRules {}

} // verus!
