//! Process-wide tunables for the room lifecycle tasks.

use vstd::prelude::*;

verus! {

/// Process-scope settings. Both intervals are read fresh on each wait, so a
/// change takes effect on the next cycle of the task that uses it.
#[derive(Clone, Copy, Debug, PartialEq, Eq, Structural)]
pub struct SystemSettings {
    /// If a room sees no detail-change activity for this many milliseconds,
    /// the idle reaper removes it.
    pub non_active_room_time: u64,
    /// Even when no room changed, the full room list is re-published to
    /// subscribers every this many milliseconds.
    pub passive_notify_all_rooms_info_interval: u64,
}

impl SystemSettings {
    pub open spec fn spec_default() -> Self {
        SystemSettings {
            non_active_room_time: 600000,
            passive_notify_all_rooms_info_interval: 10000,
        }
    }
}

impl Default for SystemSettings {
    fn default() -> (r: Self)
        ensures
            r == Self::spec_default(),
    {
        SystemSettings {
            non_active_room_time: 600000,
            passive_notify_all_rooms_info_interval: 10000,
        }
    }
}

/// The settings a fresh process starts from.
pub fn system_settings() -> (r: SystemSettings)
    ensures
        r == SystemSettings::spec_default(),
{
    SystemSettings::default()
}

} // verus!
