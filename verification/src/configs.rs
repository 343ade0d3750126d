//! All configurable rules of how a game is played.

use vstd::prelude::*;

verus! {

/// All configurable rules of how the game is played. A room replaces its
/// configuration wholesale on every update.
#[derive(Clone, Copy, Debug, PartialEq, Eq, Structural)]
pub struct GameConfigurations {
    pub basic_configs: BasicConfigurations,
    pub play_configs: PlayConfigurations,
    pub time_configs: TimeConfigurations,
    pub score_configs: ScoreConfigurations,
}

#[derive(Clone, Copy, Debug, PartialEq, Eq, Structural)]
pub struct BasicConfigurations {
    /// Hard cap on a room's member count; joining a full room fails.
    pub max_player_count: u8,
    pub deck_size: u8,
}

#[derive(Clone, Copy, Debug, PartialEq, Eq, Structural)]
pub struct PlayConfigurations {}

#[derive(Clone, Copy, Debug, PartialEq, Eq, Structural)]
pub struct TimeConfigurations {}

#[derive(Clone, Copy, Debug, PartialEq, Eq, Structural)]
pub struct ScoreConfigurations {}

impl BasicConfigurations {
    pub open spec fn spec_default() -> Self {
        BasicConfigurations { max_player_count: 6, deck_size: 4 }
    }
}

impl Default for BasicConfigurations {
    fn default() -> (r: Self)
        ensures
            r == Self::spec_default(),
    {
        BasicConfigurations { max_player_count: 6, deck_size: 4 }
    }
}

impl GameConfigurations {
    pub open spec fn spec_default() -> Self {
        GameConfigurations {
            basic_configs: BasicConfigurations::spec_default(),
            play_configs: PlayConfigurations {},
            time_configs: TimeConfigurations {},
            score_configs: ScoreConfigurations {},
        }
    }
}

impl Default for GameConfigurations {
    fn default() -> (r: Self)
        ensures
            r == Self::spec_default(),
    {
        GameConfigurations {
            basic_configs: BasicConfigurations::default(),
            play_configs: PlayConfigurations {},
            time_configs: TimeConfigurations {},
            score_configs: ScoreConfigurations {},
        }
    }
}

impl Default for PlayConfigurations {
    fn default() -> (r: Self)
        ensures
            r == (PlayConfigurations {}),
    {
        PlayConfigurations {}
    }
}

impl Default for TimeConfigurations {
    fn default() -> (r: Self)
        ensures
            r == (TimeConfigurations {}),
    {
        TimeConfigurations {}
    }
}

impl Default for ScoreConfigurations {
    fn default() -> (r: Self)
        ensures
            r == (ScoreConfigurations {}),
    {
        ScoreConfigurations {}
    }
}

} // verus!
