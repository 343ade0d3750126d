//! The room entity and its derived, on-demand views.

use vstd::prelude::*;
use crate::channel::{ChangeChannel, DebouncePolicy};
use crate::configs::GameConfigurations;
use crate::store::{StoreModel, WithId};
use crate::user::User;

verus! {

/// The lifecycle state of a room. Only `Waiting` carries behavior here; the
/// game engine that would drive `InGame` is outside this core.
#[derive(Clone, Copy, Debug, PartialEq, Eq, Structural)]
pub enum RoomStatus {
    Waiting,
    InGame,
}

impl Default for RoomStatus {
    fn default() -> (r: Self)
        ensures
            r == RoomStatus::Waiting,
    {
        RoomStatus::Waiting
    }
}

/// A room: an ordered, never-empty list of member user ids. The first
/// member is the owner; ownership is positional, not a separate field.
pub struct Room {
    /// Store-assigned identity.
    pub id: u32,
    /// Member user ids in insertion order.
    pub users: Vec<u32>,
    /// Replaced wholesale on every configuration update.
    pub game_configs: GameConfigurations,
    pub status: RoomStatus,
    /// Carries a fresh detailed-info snapshot to subscribers whenever the
    /// room mutates; also the activity signal the idle reaper watches.
    pub detailed_info_change_watch: ChangeChannel<RoomDetailedInfo>,
}

impl WithId for Room {
    open spec fn spec_id(&self) -> u32 {
        self.id
    }

    open spec fn spec_with_id(self, id: u32) -> Self {
        Room {
            id,
            users: self.users,
            game_configs: self.game_configs,
            status: self.status,
            detailed_info_change_watch: self.detailed_info_change_watch,
        }
    }

    proof fn lemma_with_id(self, id: u32) {
    }

    fn id(&self) -> u32 {
        self.id
    }

    fn set_id(&mut self, id: u32) {
        self.id = id;
    }
}

impl Default for Room {
    /// An empty, waiting room with a default configuration and an idle
    /// change feed; the store assigns the real id at insertion.
    fn default() -> (r: Self)
        ensures
            r.id == 0,
            r.users@ == Seq::<u32>::empty(),
            r.game_configs == GameConfigurations::spec_default(),
            r.status == RoomStatus::Waiting,
            r.detailed_info_change_watch.pending is None,
            r.detailed_info_change_watch.latest is None,
            r.detailed_info_change_watch.deliveries == 0,
            r.detailed_info_change_watch.window == DebouncePolicy::spec_default().spec_window(),
    {
        Room {
            id: 0,
            users: Vec::new(),
            game_configs: GameConfigurations::default(),
            status: RoomStatus::Waiting,
            detailed_info_change_watch: ChangeChannel::new(DebouncePolicy::default()),
        }
    }
}

impl Room {
    /// The owner: the first member. A room is never empty while it exists.
    pub fn owner(&self) -> (r: u32)
        requires
            self.users@.len() > 0,
        ensures
            r == self.users@[0],
    {
        self.users[0]
    }

    pub fn game_configs(&self) -> (r: &GameConfigurations)
        ensures
            *r == self.game_configs,
    {
        &self.game_configs
    }
}

/// What the lobby shows of a room: occupancy and state, no member data.
#[derive(Clone, Copy, Debug, PartialEq, Eq, Structural)]
pub struct RoomSimpleInfo {
    pub id: u32,
    pub status: RoomStatus,
    pub cur_user_count: usize,
    pub max_user_count: usize,
}

/// The simple projection of a room, recomputed whenever requested.
pub open spec fn spec_simple_info(room: Room) -> RoomSimpleInfo {
    RoomSimpleInfo {
        id: room.id,
        status: room.status,
        cur_user_count: room.users@.len() as usize,
        max_user_count: room.game_configs.basic_configs.max_player_count as usize,
    }
}

impl RoomSimpleInfo {
    pub fn of_room(room: &Room) -> (r: Self)
        ensures
            r == spec_simple_info(*room),
    {
        RoomSimpleInfo {
            id: room.id,
            status: room.status,
            cur_user_count: room.users.len(),
            max_user_count: room.game_configs.basic_configs.max_player_count as usize,
        }
    }
}

/// What the room page shows of one member.
#[derive(Debug)]
pub struct UserInRoomInfo {
    pub prepared: bool,
    pub nick_name: String,
}

/// Whether a member entry is the projection of a user.
pub open spec fn info_matches_user(info: UserInRoomInfo, u: User) -> bool {
    &&& info.prepared == u.prepared
    &&& info.nick_name@ == u.nick_name@
}

impl UserInRoomInfo {
    pub fn of_user(u: &User) -> (r: Self)
        ensures
            info_matches_user(r, *u),
    {
        UserInRoomInfo { prepared: u.prepared, nick_name: u.nick_name.clone() }
    }
}

/// What the room page shows: per-member data and the full configuration.
#[derive(Debug)]
pub struct RoomDetailedInfo {
    pub id: u32,
    pub status: RoomStatus,
    pub user_in_room_infos: Vec<UserInRoomInfo>,
    pub config: GameConfigurations,
}

/// Whether a detailed snapshot is the projection of a room, member by
/// member, against the given user population.
pub open spec fn detail_matches(d: RoomDetailedInfo, room: Room, users: StoreModel<User>) -> bool {
    &&& d.id == room.id
    &&& d.status == room.status
    &&& d.config == room.game_configs
    &&& d.user_in_room_infos@.len() == room.users@.len()
    &&& forall|p: int|
        0 <= p < room.users@.len() ==> info_matches_user(
            #[trigger] d.user_in_room_infos@[p],
            users.value_of(room.users@[p]),
        )
}

} // verus!
