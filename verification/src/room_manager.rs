//! The room lifecycle service: create/join/leave, configuration updates,
//! removal, and the projections and notification feeds built on them.
//!
//! Invariants held across every operation: a room's member list is never
//! empty while the room exists (the last leaver removes the room); a user
//! belongs to at most one room, tracked in a user-to-room index kept
//! consistent with the rooms' own member lists; and members of a room are
//! pairwise distinct.

use vstd::prelude::*;
use crate::channel::{spec_deadline, ChangeChannel, Cursor, DebouncePolicy};
use crate::configs::GameConfigurations;
use crate::errors::AppError;
use crate::room::{
    detail_matches, spec_simple_info, Room, RoomDetailedInfo, RoomSimpleInfo, RoomStatus,
    UserInRoomInfo,
};
use crate::store::{EntityStore, StoreModel, WithId};
use crate::user::User;
use crate::user_manager::UserManager;

verus! {

/// Whether the user-to-room index holds an entry for the user.
pub open spec fn idx_contains(index: Seq<(u32, u32)>, u: u32) -> bool {
    exists|i: int| 0 <= i < index.len() && (#[trigger] index[i].0) == u
}

pub open spec fn idx_pos(index: Seq<(u32, u32)>, u: u32) -> int {
    choose|i: int| 0 <= i < index.len() && (#[trigger] index[i].0) == u
}

/// The room id the index assigns to the user.
pub open spec fn idx_room(index: Seq<(u32, u32)>, u: u32) -> u32 {
    index[idx_pos(index, u)].1
}

/// No user appears twice in the index.
pub open spec fn idx_keys_unique(index: Seq<(u32, u32)>) -> bool {
    forall|i: int, j: int|
        #![trigger index[i].0, index[j].0]
        0 <= i < j < index.len() ==> index[i].0 != index[j].0
}

/// With unique keys, any position holding the user is the position the
/// index resolves the user to.
pub proof fn lemma_idx_found(index: Seq<(u32, u32)>, i: int)
    requires
        idx_keys_unique(index),
        0 <= i < index.len(),
    ensures
        idx_contains(index, index[i].0),
        idx_pos(index, index[i].0) == i,
        idx_room(index, index[i].0) == index[i].1,
{
    let u = index[i].0;
    assert(idx_contains(index, u));
    let j = idx_pos(index, u);
    if i != j {
        if i < j {
            assert(index[i].0 != index[j].0);
        } else {
            assert(index[j].0 != index[i].0);
        }
    }
}

/// What appending an entry for a user not yet indexed does to resolution.
pub proof fn lemma_idx_push(index: Seq<(u32, u32)>, u: u32, rid: u32)
    requires
        idx_keys_unique(index),
        !idx_contains(index, u),
    ensures
        ({
            let index1 = index.push((u, rid));
            &&& idx_keys_unique(index1)
            &&& idx_contains(index1, u)
            &&& idx_room(index1, u) == rid
            &&& forall|v: u32|
                v != u ==> (#[trigger] idx_contains(index1, v)) == idx_contains(index, v)
            &&& forall|v: u32|
                v != u && idx_contains(index, v) ==> (#[trigger] idx_room(index1, v)) == idx_room(
                    index,
                    v,
                )
        }),
{
    let index1 = index.push((u, rid));
    let n = index.len() as int;
    assert(index1[n] == (u, rid));
    assert(forall|i: int| 0 <= i < n ==> index1[i] == index[i]);
    assert forall|i: int, j: int|
        #![trigger index1[i].0, index1[j].0]
        0 <= i < j < index1.len() implies index1[i].0 != index1[j].0 by {
        if j == n {
            assert(index1[i].0 == index[i].0);
        }
    }
    lemma_idx_found(index1, n);
    assert forall|v: u32| v != u implies (#[trigger] idx_contains(index1, v)) == idx_contains(
        index,
        v,
    ) by {
        if idx_contains(index, v) {
            let i = idx_pos(index, v);
            assert(index1[i].0 == v);
        }
        if idx_contains(index1, v) {
            let i = idx_pos(index1, v);
            assert(i != n);
            assert(index[i].0 == v);
        }
    }
    assert forall|v: u32| v != u && idx_contains(index, v) implies (#[trigger] idx_room(index1, v))
        == idx_room(index, v) by {
        let i = idx_pos(index, v);
        lemma_idx_found(index, i);
        assert(index1[i].0 == v);
        lemma_idx_found(index1, i);
    }
}

/// What removing one entry does to resolution.
pub proof fn lemma_idx_remove(index: Seq<(u32, u32)>, k: int)
    requires
        idx_keys_unique(index),
        0 <= k < index.len(),
    ensures
        ({
            let index1 = index.remove(k);
            &&& idx_keys_unique(index1)
            &&& !idx_contains(index1, index[k].0)
            &&& forall|v: u32|
                v != index[k].0 ==> (#[trigger] idx_contains(index1, v)) == idx_contains(index, v)
            &&& forall|v: u32|
                v != index[k].0 && idx_contains(index, v) ==> (#[trigger] idx_room(index1, v))
                    == idx_room(index, v)
        }),
{
    let u = index[k].0;
    let index1 = index.remove(k);
    assert forall|i: int| 0 <= i < index1.len() implies (#[trigger] index1[i]) == index[if i < k {
        i
    } else {
        i + 1
    }] by {}
    assert(idx_keys_unique(index1));
    if idx_contains(index1, u) {
        let i = idx_pos(index1, u);
        let oi = if i < k {
            i
        } else {
            i + 1
        };
        assert(index[oi].0 == u);
        lemma_idx_found(index, oi);
        lemma_idx_found(index, k);
    }
    assert forall|v: u32| v != u implies (#[trigger] idx_contains(index1, v)) == idx_contains(
        index,
        v,
    ) by {
        if idx_contains(index, v) {
            let i = idx_pos(index, v);
            lemma_idx_found(index, i);
            let ni = if i < k {
                i
            } else {
                i - 1
            };
            assert(index1[ni].0 == v);
        }
        if idx_contains(index1, v) {
            let i = idx_pos(index1, v);
            let oi = if i < k {
                i
            } else {
                i + 1
            };
            assert(index[oi].0 == v);
        }
    }
    assert forall|v: u32| v != u && idx_contains(index, v) implies (#[trigger] idx_room(index1, v))
        == idx_room(index, v) by {
        let i = idx_pos(index, v);
        lemma_idx_found(index, i);
        let ni = if i < k {
            i
        } else {
            i - 1
        };
        assert(index1[ni] == index[i]);
        lemma_idx_found(index1, ni);
    }
}

/// The mathematical model of the room service: the room store, the
/// user-to-room index as a sequence of (user id, room id) pairs, and the
/// manager-scope lobby-list feed.
pub struct RoomsModel {
    pub rooms: StoreModel<Room>,
    pub index: Seq<(u32, u32)>,
    pub watch: ChangeChannel<Vec<RoomSimpleInfo>>,
}

impl RoomsModel {
    /// Whether the index knows the user as a member of some room.
    pub open spec fn in_room(self, u: u32) -> bool {
        idx_contains(self.index, u)
    }

    /// The room the index assigns to the user.
    pub open spec fn room_of(self, u: u32) -> u32 {
        idx_room(self.index, u)
    }

    /// Every index entry points at a live room that lists the user.
    pub open spec fn index_points_to_member(self) -> bool {
        forall|i: int|
            0 <= i < self.index.len() ==> {
                let e = #[trigger] self.index[i];
                &&& self.rooms.contains_id(e.1)
                &&& self.rooms.value_of(e.1).users@.contains(e.0)
            }
    }

    /// Every room is non-empty, lists no member twice, and every member is
    /// indexed as belonging to exactly that room.
    pub open spec fn rooms_wf(self) -> bool {
        &&& forall|k: int|
            0 <= k < self.rooms.entries.len() ==> (#[trigger] self.rooms.entries[k]).users@.len()
                > 0
        &&& forall|k: int, p: int, q: int|
            #![trigger self.rooms.entries[k].users@[p], self.rooms.entries[k].users@[q]]
            0 <= k < self.rooms.entries.len() && 0 <= p < q < self.rooms.entries[k].users@.len()
                ==> self.rooms.entries[k].users@[p] != self.rooms.entries[k].users@[q]
        &&& forall|k: int, p: int|
            0 <= k < self.rooms.entries.len() && 0 <= p < self.rooms.entries[k].users@.len() ==> {
                let u = #[trigger] self.rooms.entries[k].users@[p];
                &&& idx_contains(self.index, u)
                &&& idx_room(self.index, u) == self.rooms.entries[k].spec_id()
            }
    }

    pub open spec fn wf(self) -> bool {
        &&& self.rooms.wf()
        &&& idx_keys_unique(self.index)
        &&& self.index_points_to_member()
        &&& self.rooms_wf()
    }

    /// The lobby list: the simple projection of every live room, in store
    /// order.
    pub open spec fn spec_simple_infos(self) -> Seq<RoomSimpleInfo> {
        Seq::new(self.rooms.entries.len(), |k: int| spec_simple_info(self.rooms.entries[k]))
    }
}

/// Whether every member id of every room is a user the user store holds.
/// The application keeps this across the two services: users are never
/// removed, and a member is only added after an existence check.
pub open spec fn members_known(m: RoomsModel, users: StoreModel<User>) -> bool {
    forall|k: int, p: int|
        0 <= k < m.rooms.entries.len() && 0 <= p < m.rooms.entries[k].users@.len()
            ==> users.contains_id(#[trigger] m.rooms.entries[k].users@[p])
}

/// Membership knowledge only reads which user ids the store holds, so any
/// user mutation that keeps the held ids keeps it.
pub proof fn lemma_members_known_contains_stable(
    m: RoomsModel,
    us0: StoreModel<User>,
    us1: StoreModel<User>,
)
    requires
        members_known(m, us0),
        forall|j: u32| (#[trigger] us1.contains_id(j)) == us0.contains_id(j),
    ensures
        members_known(m, us1),
{
    assert forall|k: int, p: int|
        0 <= k < m.rooms.entries.len() && 0 <= p
            < m.rooms.entries[k].users@.len() implies us1.contains_id(
        #[trigger] m.rooms.entries[k].users@[p],
    ) by {
        assert(us0.contains_id(m.rooms.entries[k].users@[p]));
    }
}

/// What one debounced publish of the lobby list looks like: the channel
/// fields move as the debounce model says, and the pending value is the
/// given list.
pub open spec fn watch_published(
    w0: ChangeChannel<Vec<RoomSimpleInfo>>,
    w1: ChangeChannel<Vec<RoomSimpleInfo>>,
    infos: Seq<RoomSimpleInfo>,
    now: u64,
) -> bool {
    &&& w1.window == w0.window
    &&& w1.latest == w0.latest
    &&& w1.deliveries == w0.deliveries
    &&& w1.pending matches Some(v) && v@ == infos
    &&& w1.deadline == if w0.pending is None {
        spec_deadline(now, w0.window)
    } else {
        w0.deadline
    }
}

/// What one debounced publish of a room's detailed snapshot looks like.
pub open spec fn detail_published(
    w0: ChangeChannel<RoomDetailedInfo>,
    w1: ChangeChannel<RoomDetailedInfo>,
    room: Room,
    users: StoreModel<User>,
    now: u64,
) -> bool {
    &&& w1.window == w0.window
    &&& w1.latest == w0.latest
    &&& w1.deliveries == w0.deliveries
    &&& w1.pending matches Some(d) && detail_matches(d, room, users)
    &&& w1.deadline == if w0.pending is None {
        spec_deadline(now, w0.window)
    } else {
        w0.deadline
    }
}

/// The position of a member in a room's list.
pub open spec fn member_pos(room: Room, u: u32) -> int {
    choose|p: int| 0 <= p < room.users@.len() && room.users@[p] == u
}

/// Builds the detailed snapshot of a room: per-member display data and the
/// full configuration, resolved against the user store.
fn build_detailed_info(room: &Room, users: &UserManager) -> (r: RoomDetailedInfo)
    requires
        users@.wf(),
        forall|p: int| 0 <= p < room.users@.len() ==> users@.contains_id(#[trigger] room.users@[p]),
    ensures
        detail_matches(r, *room, users@),
{
    let n = room.users.len();
    let mut infos: Vec<UserInRoomInfo> = Vec::new();
    let mut i: usize = 0;
    while i < n
        invariant
            users@.wf(),
            forall|p: int|
                0 <= p < room.users@.len() ==> users@.contains_id(#[trigger] room.users@[p]),
            n == room.users@.len(),
            0 <= i <= n,
            infos@.len() == i,
            forall|p: int|
                0 <= p < i ==> crate::room::info_matches_user(
                    #[trigger] infos@[p],
                    users@.value_of(room.users@[p]),
                ),
        decreases n - i,
    {
        let uid = room.users[i];
        let u = match users.get(uid) {
            Some(u) => u,
            None => unreached(),
        };
        infos.push(UserInRoomInfo::of_user(u));
        i = i + 1;
    }
    RoomDetailedInfo {
        id: room.id,
        status: room.status,
        user_in_room_infos: infos,
        config: room.game_configs,
    }
}

/// Re-establishes the service invariant after a room's removal and the
/// pruning of every index entry that pointed at it.
#[verifier::rlimit(50)]
proof fn lemma_remove_room_shape(m0: RoomsModel, m1: RoomsModel, room_id: u32)
    requires
        m0.wf(),
        m1.rooms == m0.rooms.remove_id(room_id),
        idx_keys_unique(m1.index),
        forall|p: int| 0 <= p < m1.index.len() ==> (#[trigger] m1.index[p]).1 != room_id,
        forall|p: int|
            0 <= p < m1.index.len() ==> idx_contains(m0.index, (#[trigger] m1.index[p]).0)
                && idx_room(m0.index, m1.index[p].0) == m1.index[p].1,
        forall|u: u32|
            (#[trigger] idx_contains(m1.index, u)) == (idx_contains(m0.index, u) && idx_room(
                m0.index,
                u,
            ) != room_id),
        forall|u: u32|
            idx_contains(m0.index, u) && idx_room(m0.index, u) != room_id ==> (
            #[trigger] idx_room(m1.index, u)) == idx_room(m0.index, u),
    ensures
        m1.wf(),
        forall|us: StoreModel<User>|
            members_known(m0, us) ==> #[trigger] members_known(m1, us),
        forall|kk: int|
            0 <= kk < m1.spec_simple_infos().len() ==> (#[trigger] m1.spec_simple_infos()[kk]).id
                != room_id,
{
    m0.rooms.lemma_remove_properties(room_id);
    if m0.rooms.contains_id(room_id) {
        let kr = m0.rooms.index_of(room_id);
        m0.rooms.lemma_found_is_value(room_id, kr);
        assert(m1.rooms.entries == m0.rooms.entries.remove(kr));
        assert forall|kk: int| 0 <= kk < m1.rooms.entries.len() implies (
        #[trigger] m1.rooms.entries[kk]) == m0.rooms.entries[if kk < kr {
            kk
        } else {
            kk + 1
        }] by {}
        assert forall|i2: int| 0 <= i2 < m1.index.len() implies {
            let e = #[trigger] m1.index[i2];
            &&& m1.rooms.contains_id(e.1)
            &&& m1.rooms.value_of(e.1).users@.contains(e.0)
        } by {
            let e = m1.index[i2];
            let q = idx_pos(m0.index, e.0);
            assert(m0.index[q].0 == e.0);
            assert(m0.index[q].1 == e.1);
            assert(m0.rooms.contains_id(e.1));
            assert(m0.rooms.value_of(e.1).users@.contains(e.0));
            assert(e.1 != room_id);
        }
        assert forall|kk: int, p: int|
            0 <= kk < m1.rooms.entries.len() && 0 <= p
                < m1.rooms.entries[kk].users@.len() implies {
            let u = #[trigger] m1.rooms.entries[kk].users@[p];
            &&& idx_contains(m1.index, u)
            &&& idx_room(m1.index, u) == m1.rooms.entries[kk].spec_id()
        } by {
            let ok = if kk < kr {
                kk
            } else {
                kk + 1
            };
            assert(m1.rooms.entries[kk] == m0.rooms.entries[ok]);
            let u = m1.rooms.entries[kk].users@[p];
            assert(idx_contains(m0.index, u));
            assert(idx_room(m0.index, u) == m0.rooms.entries[ok].spec_id());
            assert(m0.rooms.entries[ok].spec_id() != room_id);
        }
        assert forall|kk: int, p: int, q: int|
            #![trigger m1.rooms.entries[kk].users@[p], m1.rooms.entries[kk].users@[q]]
            0 <= kk < m1.rooms.entries.len() && 0 <= p < q
                < m1.rooms.entries[kk].users@.len() implies m1.rooms.entries[kk].users@[p]
            != m1.rooms.entries[kk].users@[q] by {
            let ok = if kk < kr {
                kk
            } else {
                kk + 1
            };
            assert(m1.rooms.entries[kk] == m0.rooms.entries[ok]);
        }
        assert(m1.wf());
        assert forall|us: StoreModel<User>|
            members_known(m0, us) implies #[trigger] members_known(m1, us) by {
            assert forall|kk: int, p: int|
                0 <= kk < m1.rooms.entries.len() && 0 <= p
                    < m1.rooms.entries[kk].users@.len() implies us.contains_id(
                #[trigger] m1.rooms.entries[kk].users@[p],
            ) by {
                let ok = if kk < kr {
                    kk
                } else {
                    kk + 1
                };
                assert(m1.rooms.entries[kk] == m0.rooms.entries[ok]);
            }
        }
    } else {
        assert(m1.rooms == m0.rooms);
        assert forall|i2: int| 0 <= i2 < m1.index.len() implies {
            let e = #[trigger] m1.index[i2];
            &&& m1.rooms.contains_id(e.1)
            &&& m1.rooms.value_of(e.1).users@.contains(e.0)
        } by {
            let e = m1.index[i2];
            let q = idx_pos(m0.index, e.0);
            assert(m0.index[q].0 == e.0);
            assert(m0.index[q].1 == e.1);
        }
        assert forall|kk: int, p: int|
            0 <= kk < m1.rooms.entries.len() && 0 <= p
                < m1.rooms.entries[kk].users@.len() implies {
            let u = #[trigger] m1.rooms.entries[kk].users@[p];
            &&& idx_contains(m1.index, u)
            &&& idx_room(m1.index, u) == m1.rooms.entries[kk].spec_id()
        } by {
            let u = m1.rooms.entries[kk].users@[p];
            assert(idx_contains(m0.index, u));
            assert(idx_room(m0.index, u) == m1.rooms.entries[kk].spec_id());
            if idx_room(m0.index, u) == room_id {
                assert(m1.rooms.entries[kk].spec_id() == room_id);
                m1.rooms.lemma_found_is_value(room_id, kk);
                assert(false);
            }
        }
        assert(m1.wf());
    }
    assert forall|kk: int|
        0 <= kk < m1.spec_simple_infos().len() implies (
    #[trigger] m1.spec_simple_infos()[kk]).id != room_id by {
        if m1.rooms.entries[kk].id == room_id {
            m1.rooms.lemma_found_is_value(room_id, kk);
        }
    }
}

/// One process-wide room service. The surrounding application constructs it
/// once and serializes access to it.
pub struct RoomManager {
    rooms: EntityStore<Room>,
    user_room: Vec<(u32, u32)>,
    /// The manager-scope feed of lobby lists: every mutation publishes the
    /// fresh list here, debounced; a timer-driven passive notify in the
    /// application layer re-publishes it to idle subscribers.
    all_rooms_simple_info_change_watch: ChangeChannel<Vec<RoomSimpleInfo>>,
}

impl View for RoomManager {
    type V = RoomsModel;

    closed spec fn view(&self) -> RoomsModel {
        RoomsModel {
            rooms: self.rooms@,
            index: self.user_room@,
            watch: self.all_rooms_simple_info_change_watch,
        }
    }
}

impl RoomManager {
    pub fn new() -> (r: Self)
        ensures
            r@.wf(),
            r@.rooms.next_id == 0,
            r@.rooms.entries.len() == 0,
            r@.index.len() == 0,
            r@.watch.pending is None,
            r@.watch.latest is None,
            r@.watch.deliveries == 0,
    {
        RoomManager {
            rooms: EntityStore::new(),
            user_room: Vec::new(),
            all_rooms_simple_info_change_watch: ChangeChannel::new(DebouncePolicy::default()),
        }
    }

    /// Whether another room id can still be allocated (counter wraparound
    /// is a stated design limit, not handled).
    pub fn can_allocate(&self) -> (r: bool)
        ensures
            r == (self@.rooms.next_id < u32::MAX),
    {
        self.rooms.next_id() < u32::MAX
    }

    /// A snapshot of every live room, in store order.
    pub fn all(&self) -> (r: &Vec<Room>)
        ensures
            r@ == self@.rooms.entries,
    {
        self.rooms.all()
    }

    /// The room the index assigns to the user, if any.
    pub fn find_room_by_user_id(&self, user_id: u32) -> (r: Option<u32>)
        requires
            idx_keys_unique(self@.index),
        ensures
            match r {
                Some(rid) => self@.in_room(user_id) && rid == self@.room_of(user_id),
                None => !self@.in_room(user_id),
            },
    {
        let n = self.user_room.len();
        let mut i: usize = 0;
        while i < n
            invariant
                idx_keys_unique(self@.index),
                n == self.user_room@.len(),
                0 <= i <= n,
                forall|p: int| 0 <= p < i ==> (#[trigger] self@.index[p].0) != user_id,
            decreases n - i,
        {
            let e = self.user_room[i];
            if e.0 == user_id {
                proof {
                    lemma_idx_found(self@.index, i as int);
                }
                return Some(e.1);
            }
            i = i + 1;
        }
        None
    }

    /// The lobby list, computed fresh.
    pub fn all_rooms_simple_info(&self) -> (r: Vec<RoomSimpleInfo>)
        ensures
            r@ == self@.spec_simple_infos(),
    {
        let all = self.rooms.all();
        let n = all.len();
        let mut r: Vec<RoomSimpleInfo> = Vec::new();
        let mut i: usize = 0;
        while i < n
            invariant
                all@ == self@.rooms.entries,
                n == all@.len(),
                0 <= i <= n,
                r@.len() == i,
                forall|p: int| 0 <= p < i ==> (#[trigger] r@[p]) == spec_simple_info(all@[p]),
            decreases n - i,
        {
            r.push(RoomSimpleInfo::of_room(&all[i]));
            i = i + 1;
        }
        proof {
            assert(r@ =~= self@.spec_simple_infos());
        }
        r
    }

    /// Publishes the fresh lobby list to the manager-scope feed.
    fn publish_all_rooms(&mut self, now: u64)
        ensures
            final(self)@.rooms == old(self)@.rooms,
            final(self)@.index == old(self)@.index,
            watch_published(
                old(self)@.watch,
                final(self)@.watch,
                old(self)@.spec_simple_infos(),
                now,
            ),
    {
        let infos = self.all_rooms_simple_info();
        self.all_rooms_simple_info_change_watch.publish(infos, now);
    }

    /// Opens a room for the user: the user becomes its sole member and
    /// owner, and the fresh lobby list is published. Fails with
    /// `AlreadyInRoom` if the user belongs to a room, with `NotFound` if no
    /// such user exists.
    pub fn create_room_by_user_id(&mut self, users: &UserManager, user_id: u32, now: u64) -> (r:
        Result<u32, AppError>)
        requires
            old(self)@.wf(),
            users@.wf(),
            old(self)@.rooms.next_id < u32::MAX,
        ensures
            final(self)@.wf(),
            members_known(old(self)@, users@) ==> members_known(final(self)@, users@),
            r is Err ==> final(self)@ == old(self)@,
            (r == Err::<u32, AppError>(AppError::AlreadyInRoom)) <==> old(self)@.in_room(user_id),
            (r == Err::<u32, AppError>(AppError::NotFound)) <==> (!old(self)@.in_room(user_id)
                && !users@.contains_id(user_id)),
            (r is Ok) <==> (!old(self)@.in_room(user_id) && users@.contains_id(user_id)),
            r matches Ok(rid) ==> ({
                &&& rid == old(self)@.rooms.next_id
                &&& final(self)@.rooms.next_id == old(self)@.rooms.next_id + 1
                &&& final(self)@.rooms.contains_id(rid)
                &&& ({
                    let room = final(self)@.rooms.value_of(rid);
                    &&& room.id == rid
                    &&& room.users@ == seq![user_id]
                    &&& room.game_configs == GameConfigurations::spec_default()
                    &&& room.status == RoomStatus::Waiting
                    &&& room.detailed_info_change_watch.pending is None
                    &&& room.detailed_info_change_watch.latest is None
                    &&& room.detailed_info_change_watch.deliveries == 0
                })
                &&& final(self)@.in_room(user_id)
                &&& final(self)@.room_of(user_id) == rid
                &&& forall|j: u32|
                    j != rid ==> (#[trigger] final(self)@.rooms.contains_id(j)) == old(
                        self,
                    )@.rooms.contains_id(j)
                &&& forall|j: u32|
                    j != rid && old(self)@.rooms.contains_id(j) ==> (
                    #[trigger] final(self)@.rooms.value_of(j)) == old(self)@.rooms.value_of(j)
                &&& forall|v: u32|
                    v != user_id ==> (#[trigger] final(self)@.in_room(v)) == old(self)@.in_room(v)
                &&& forall|v: u32|
                    v != user_id && old(self)@.in_room(v) ==> (#[trigger] final(self)@.room_of(v))
                        == old(self)@.room_of(v)
                &&& watch_published(
                    old(self)@.watch,
                    final(self)@.watch,
                    final(self)@.spec_simple_infos(),
                    now,
                )
            }),
    {
        if self.find_room_by_user_id(user_id).is_some() {
            return Err(AppError::AlreadyInRoom);
        }
        if !users.contains_id(user_id) {
            return Err(AppError::NotFound);
        }
        let ghost m0 = self@;
        let mut room = Room::default();
        room.users.push(user_id);
        let ghost room0 = room;
        let rid = self.rooms.insert(room);
        self.user_room.push((user_id, rid));
        proof {
            let m1 = self@;
            m0.rooms.lemma_insert_properties(room0);
            lemma_idx_push(m0.index, user_id, rid);
            assert(room0.spec_with_id(rid).users@ =~= seq![user_id]);
            assert(m1.index == m0.index.push((user_id, rid)));
            assert forall|i: int| 0 <= i < m1.index.len() implies {
                let e = #[trigger] m1.index[i];
                &&& m1.rooms.contains_id(e.1)
                &&& m1.rooms.value_of(e.1).users@.contains(e.0)
            } by {
                let e = m1.index[i];
                if i < m0.index.len() {
                    assert(e == m0.index[i]);
                    assert(m0.rooms.contains_id(e.1));
                    assert(m0.rooms.value_of(e.1).users@.contains(e.0));
                    assert(e.1 != rid);
                } else {
                    assert(e == (user_id, rid));
                    assert(m1.rooms.value_of(rid).users@[0] == user_id);
                }
            }
            assert forall|k: int, p: int|
                0 <= k < m1.rooms.entries.len() && 0 <= p
                    < m1.rooms.entries[k].users@.len() implies {
                let u = #[trigger] m1.rooms.entries[k].users@[p];
                &&& idx_contains(m1.index, u)
                &&& idx_room(m1.index, u) == m1.rooms.entries[k].spec_id()
            } by {
                if k < m0.rooms.entries.len() {
                    let u = m1.rooms.entries[k].users@[p];
                    assert(m1.rooms.entries[k] == m0.rooms.entries[k]);
                    assert(idx_contains(m0.index, u));
                    assert(u != user_id);
                } else {
                    assert(m1.rooms.entries[k] == room0.spec_with_id(rid));
                    assert(m1.rooms.entries[k].users@[p] == user_id);
                }
            }
            assert(m1.wf());
        }
        self.publish_all_rooms(now);
        Ok(rid)
    }

    /// Appends the user to a room's member list, indexes the membership,
    /// and publishes both the room's fresh detailed snapshot and the fresh
    /// lobby list. The checks run in order: membership first
    /// (`AlreadyInRoom`), existence second (`NotFound`), capacity third
    /// (`RoomFull`, when the member count equals the configured maximum),
    /// then the joining user's own existence (`NotFound`).
    pub fn add_user_to_room(
        &mut self,
        users: &UserManager,
        user_id: u32,
        room_id: u32,
        now: u64,
    ) -> (r: Result<(), AppError>)
        requires
            old(self)@.wf(),
            users@.wf(),
            members_known(old(self)@, users@),
        ensures
            final(self)@.wf(),
            members_known(final(self)@, users@),
            r is Err ==> final(self)@ == old(self)@,
            ({
                let m0 = old(self)@;
                let room_exists = m0.rooms.contains_id(room_id);
                let full = room_exists && m0.rooms.value_of(room_id).users@.len()
                    == m0.rooms.value_of(room_id).game_configs.basic_configs.max_player_count as int;
                &&& ((r == Err::<(), AppError>(AppError::AlreadyInRoom)) <==> m0.in_room(user_id))
                &&& ((r == Err::<(), AppError>(AppError::RoomFull)) <==> (!m0.in_room(user_id)
                    && room_exists && full))
                &&& ((r == Err::<(), AppError>(AppError::NotFound)) <==> (!m0.in_room(user_id) && (
                !room_exists || (!full && !users@.contains_id(user_id)))))
                &&& ((r is Ok) <==> (!m0.in_room(user_id) && room_exists && !full
                    && users@.contains_id(user_id)))
            }),
            r is Ok ==> ({
                let m0 = old(self)@;
                let m1 = final(self)@;
                let room0 = m0.rooms.value_of(room_id);
                let room1 = m1.rooms.value_of(room_id);
                &&& m1.rooms.contains_id(room_id)
                &&& room1.users@ == room0.users@.push(user_id)
                &&& room1.id == room0.id
                &&& room1.game_configs == room0.game_configs
                &&& room1.status == room0.status
                &&& detail_published(
                    room0.detailed_info_change_watch,
                    room1.detailed_info_change_watch,
                    room1,
                    users@,
                    now,
                )
                &&& m1.in_room(user_id)
                &&& m1.room_of(user_id) == room_id
                &&& m1.rooms.next_id == m0.rooms.next_id
                &&& forall|j: u32|
                    j != room_id ==> (#[trigger] m1.rooms.contains_id(j)) == m0.rooms.contains_id(
                        j,
                    )
                &&& forall|j: u32|
                    j != room_id && m0.rooms.contains_id(j) ==> (#[trigger] m1.rooms.value_of(j))
                        == m0.rooms.value_of(j)
                &&& forall|v: u32| v != user_id ==> (#[trigger] m1.in_room(v)) == m0.in_room(v)
                &&& forall|v: u32|
                    v != user_id && m0.in_room(v) ==> (#[trigger] m1.room_of(v)) == m0.room_of(v)
                &&& watch_published(m0.watch, m1.watch, m1.spec_simple_infos(), now)
            }),
    {
        if self.find_room_by_user_id(user_id).is_some() {
            return Err(AppError::AlreadyInRoom);
        }
        if !self.rooms.contains(room_id) {
            return Err(AppError::NotFound);
        }
        let full = {
            let room = match self.rooms.get(room_id) {
                Some(r) => r,
                None => unreached(),
            };
            room.users.len() == room.game_configs.basic_configs.max_player_count as usize
        };
        if full {
            return Err(AppError::RoomFull);
        }
        if !users.contains_id(user_id) {
            return Err(AppError::NotFound);
        }
        let ghost m0 = self@;
        let ghost k = m0.rooms.index_of(room_id);
        let room = self.rooms.borrow_mut(room_id);
        proof {
            m0.rooms.lemma_found_is_value(room_id, k);
            assert forall|p: int| 0 <= p < room.users@.len() implies users@.contains_id(
                #[trigger] room.users@[p],
            ) by {
                assert(m0.rooms.entries[k] == *room);
            }
        }
        room.users.push(user_id);
        let detail = build_detailed_info(room, users);
        room.detailed_info_change_watch.publish(detail, now);
        let ghost room1 = *room;
        proof {
            m0.rooms.lemma_update_properties(k, room1);
        }
        self.user_room.push((user_id, room_id));
        proof {
            let m1 = self@;
            lemma_idx_push(m0.index, user_id, room_id);
            let room0 = m0.rooms.value_of(room_id);
            assert(m1.rooms.entries == m0.rooms.entries.update(k, room1));
            assert(m1.index == m0.index.push((user_id, room_id)));
            assert(m1.rooms.value_of(room_id) == room1);
            assert forall|i: int| 0 <= i < m1.index.len() implies {
                let e = #[trigger] m1.index[i];
                &&& m1.rooms.contains_id(e.1)
                &&& m1.rooms.value_of(e.1).users@.contains(e.0)
            } by {
                let e = m1.index[i];
                if i < m0.index.len() {
                    assert(e == m0.index[i]);
                    assert(m0.rooms.contains_id(e.1));
                    assert(m0.rooms.value_of(e.1).users@.contains(e.0));
                    if e.1 == room_id {
                        let q = choose|q: int|
                            0 <= q < room0.users@.len() && room0.users@[q] == e.0;
                        assert(room1.users@[q] == e.0);
                    }
                } else {
                    assert(e == (user_id, room_id));
                    assert(room1.users@[room0.users@.len() as int] == user_id);
                }
            }
            assert forall|kk: int, p: int|
                0 <= kk < m1.rooms.entries.len() && 0 <= p
                    < m1.rooms.entries[kk].users@.len() implies {
                let u = #[trigger] m1.rooms.entries[kk].users@[p];
                &&& idx_contains(m1.index, u)
                &&& idx_room(m1.index, u) == m1.rooms.entries[kk].spec_id()
            } by {
                if kk == k {
                    if p < room0.users@.len() {
                        assert(m1.rooms.entries[kk].users@[p] == m0.rooms.entries[kk].users@[p]);
                        let u = m0.rooms.entries[kk].users@[p];
                        assert(idx_contains(m0.index, u));
                        assert(u != user_id);
                    } else {
                        assert(m1.rooms.entries[kk].users@[p] == user_id);
                    }
                } else {
                    assert(m1.rooms.entries[kk] == m0.rooms.entries[kk]);
                    let u = m1.rooms.entries[kk].users@[p];
                    assert(idx_contains(m0.index, u));
                    assert(u != user_id);
                }
            }
            assert forall|kk: int, p: int, q: int|
                #![trigger m1.rooms.entries[kk].users@[p], m1.rooms.entries[kk].users@[q]]
                0 <= kk < m1.rooms.entries.len() && 0 <= p < q
                    < m1.rooms.entries[kk].users@.len() implies m1.rooms.entries[kk].users@[p]
                != m1.rooms.entries[kk].users@[q] by {
                if kk == k {
                    if q == room0.users@.len() {
                        let u = m0.rooms.entries[kk].users@[p];
                        assert(m1.rooms.entries[kk].users@[p] == u);
                        assert(idx_contains(m0.index, u));
                        assert(u != user_id);
                    } else {
                        assert(m1.rooms.entries[kk].users@[p] == m0.rooms.entries[kk].users@[p]);
                        assert(m1.rooms.entries[kk].users@[q] == m0.rooms.entries[kk].users@[q]);
                    }
                } else {
                    assert(m1.rooms.entries[kk] == m0.rooms.entries[kk]);
                }
            }
            assert(m1.wf());
            assert(members_known(m1, users@)) by {
                assert forall|kk: int, p: int|
                    0 <= kk < m1.rooms.entries.len() && 0 <= p
                        < m1.rooms.entries[kk].users@.len() implies users@.contains_id(
                    #[trigger] m1.rooms.entries[kk].users@[p],
                ) by {
                    if kk == k {
                        if p < room0.users@.len() {
                            assert(m1.rooms.entries[kk].users@[p]
                                == m0.rooms.entries[kk].users@[p]);
                        } else {
                            assert(m1.rooms.entries[kk].users@[p] == user_id);
                        }
                    } else {
                        assert(m1.rooms.entries[kk] == m0.rooms.entries[kk]);
                    }
                }
            }
        }
        self.publish_all_rooms(now);
        Ok(())
    }

    /// Removes the index entry of a user known to be indexed.
    fn remove_index_entry(&mut self, user_id: u32)
        requires
            idx_keys_unique(old(self)@.index),
            idx_contains(old(self)@.index, user_id),
        ensures
            final(self)@.index == old(self)@.index.remove(idx_pos(old(self)@.index, user_id)),
            final(self)@.rooms == old(self)@.rooms,
            final(self)@.watch == old(self)@.watch,
    {
        let n = self.user_room.len();
        let mut i: usize = 0;
        loop
            invariant
                self == old(self),
                n == self.user_room@.len(),
                0 <= i <= n,
                idx_keys_unique(self@.index),
                idx_contains(self@.index, user_id),
                forall|p: int| 0 <= p < i ==> (#[trigger] self@.index[p].0) != user_id,
            decreases n - i,
        {
            if i >= n {
                proof {
                    let w = idx_pos(self@.index, user_id);
                    assert(self@.index[w].0 == user_id);
                    assert(false);
                }
                unreached()
            } else {
                if self.user_room[i].0 == user_id {
                    proof {
                        lemma_idx_found(self@.index, i as int);
                    }
                    self.user_room.remove(i);
                    return ;
                }
                i = i + 1;
            }
        }
    }

    /// Removes the user from the room and drops the membership index entry.
    /// If the member list becomes empty, the room itself is removed: the
    /// last leaver takes the room with them, unconditionally. Fails with
    /// `UserNotInRoom` if the user is not indexed, with `NotFound` if the
    /// index places the user in a different room than the one named.
    pub fn remove_user_from_room(&mut self, user_id: u32, room_id: u32, now: u64) -> (r: Result<
        (),
        AppError,
    >)
        requires
            old(self)@.wf(),
        ensures
            final(self)@.wf(),
            forall|us: StoreModel<User>|
                members_known(old(self)@, us) ==> #[trigger] members_known(final(self)@, us),
            r is Err ==> final(self)@ == old(self)@,
            (r == Err::<(), AppError>(AppError::UserNotInRoom)) <==> !old(self)@.in_room(user_id),
            (r == Err::<(), AppError>(AppError::NotFound)) <==> (old(self)@.in_room(user_id)
                && old(self)@.room_of(user_id) != room_id),
            (r is Ok) <==> (old(self)@.in_room(user_id) && old(self)@.room_of(user_id) == room_id),
            r is Ok ==> ({
                let m0 = old(self)@;
                let m1 = final(self)@;
                let room0 = m0.rooms.value_of(room_id);
                &&& !m1.in_room(user_id)
                &&& forall|v: u32| v != user_id ==> (#[trigger] m1.in_room(v)) == m0.in_room(v)
                &&& forall|v: u32|
                    v != user_id && m0.in_room(v) ==> (#[trigger] m1.room_of(v)) == m0.room_of(v)
                &&& m1.rooms.next_id == m0.rooms.next_id
                &&& forall|j: u32|
                    j != room_id ==> (#[trigger] m1.rooms.contains_id(j)) == m0.rooms.contains_id(
                        j,
                    )
                &&& forall|j: u32|
                    j != room_id && m0.rooms.contains_id(j) ==> (#[trigger] m1.rooms.value_of(j))
                        == m0.rooms.value_of(j)
                &&& (room0.users@.len() == 1 ==> {
                    &&& !m1.rooms.contains_id(room_id)
                    &&& forall|kk: int|
                        0 <= kk < m1.spec_simple_infos().len() ==> (
                        #[trigger] m1.spec_simple_infos()[kk]).id != room_id
                })
                &&& (room0.users@.len() > 1 ==> {
                    let room1 = m1.rooms.value_of(room_id);
                    &&& m1.rooms.contains_id(room_id)
                    &&& room1.users@ == room0.users@.remove(member_pos(room0, user_id))
                    &&& room1.id == room0.id
                    &&& room1.game_configs == room0.game_configs
                    &&& room1.status == room0.status
                    &&& room1.detailed_info_change_watch == room0.detailed_info_change_watch
                })
                &&& watch_published(m0.watch, m1.watch, m1.spec_simple_infos(), now)
            }),
    {
        let rid = match self.find_room_by_user_id(user_id) {
            None => {
                return Err(AppError::UserNotInRoom);
            },
            Some(rid) => rid,
        };
        if rid != room_id {
            return Err(AppError::NotFound);
        }
        let ghost m0 = self@;
        proof {
            let ip = idx_pos(m0.index, user_id);
            assert(m0.index[ip].0 == user_id && m0.index[ip].1 == room_id);
            assert(m0.rooms.contains_id(room_id));
            assert(m0.rooms.value_of(room_id).users@.contains(user_id));
        }
        let singleton = {
            let room = match self.rooms.get(room_id) {
                Some(r) => r,
                None => unreached(),
            };
            room.users.len() == 1
        };
        let ghost room0 = m0.rooms.value_of(room_id);
        let ghost kr = m0.rooms.index_of(room_id);
        if singleton {
            let _ = self.rooms.take(room_id);
            self.remove_index_entry(user_id);
            proof {
                let m1 = self@;
                let ip = idx_pos(m0.index, user_id);
                lemma_idx_found(m0.index, ip);
                lemma_idx_remove(m0.index, ip);
                m0.rooms.lemma_found_is_value(room_id, kr);
                assert(room0.users@[0] == user_id) by {
                    let w = choose|w: int| 0 <= w < room0.users@.len() && room0.users@[w] == user_id;
                    assert(room0.users@[w] == user_id);
                }
                assert(m1.rooms.entries == m0.rooms.entries.remove(kr));
                assert(m1.index == m0.index.remove(ip));
                assert forall|i: int| 0 <= i < m1.rooms.entries.len() implies (
                #[trigger] m1.rooms.entries[i]) == m0.rooms.entries[if i < kr {
                    i
                } else {
                    i + 1
                }] by {}
                // no other index entry can point at a singleton room
                assert forall|i: int| 0 <= i < m1.index.len() implies {
                    let e = #[trigger] m1.index[i];
                    &&& m1.rooms.contains_id(e.1)
                    &&& m1.rooms.value_of(e.1).users@.contains(e.0)
                } by {
                    let e = m1.index[i];
                    let oi = if i < ip {
                        i
                    } else {
                        i + 1
                    };
                    assert(e == m0.index[oi]);
                    lemma_idx_found(m0.index, oi);
                    assert(e.0 != user_id);
                    assert(m0.rooms.value_of(e.1).users@.contains(e.0));
                    if e.1 == room_id {
                        let w = choose|w: int|
                            0 <= w < room0.users@.len() && room0.users@[w] == e.0;
                        assert(room0.users@[w] == e.0);
                        assert(false);
                    }
                }
                assert forall|kk: int, p: int|
                    0 <= kk < m1.rooms.entries.len() && 0 <= p
                        < m1.rooms.entries[kk].users@.len() implies {
                    let u = #[trigger] m1.rooms.entries[kk].users@[p];
                    &&& idx_contains(m1.index, u)
                    &&& idx_room(m1.index, u) == m1.rooms.entries[kk].spec_id()
                } by {
                    let ok = if kk < kr {
                        kk
                    } else {
                        kk + 1
                    };
                    assert(m1.rooms.entries[kk] == m0.rooms.entries[ok]);
                    let u = m1.rooms.entries[kk].users@[p];
                    assert(idx_contains(m0.index, u));
                    assert(idx_room(m0.index, u) == m0.rooms.entries[ok].spec_id());
                    assert(m0.rooms.entries[ok].spec_id() != room_id);
                    assert(u != user_id);
                }
                assert forall|kk: int, p: int, q: int|
                    #![trigger m1.rooms.entries[kk].users@[p], m1.rooms.entries[kk].users@[q]]
                    0 <= kk < m1.rooms.entries.len() && 0 <= p < q
                        < m1.rooms.entries[kk].users@.len() implies m1.rooms.entries[kk].users@[p]
                    != m1.rooms.entries[kk].users@[q] by {
                    let ok = if kk < kr {
                        kk
                    } else {
                        kk + 1
                    };
                    assert(m1.rooms.entries[kk] == m0.rooms.entries[ok]);
                }
                assert(m1.wf());
                assert forall|kk: int|
                    0 <= kk < m1.spec_simple_infos().len() implies (
                #[trigger] m1.spec_simple_infos()[kk]).id != room_id by {
                    if m1.rooms.entries[kk].id == room_id {
                        m1.rooms.lemma_found_is_value(room_id, kk);
                    }
                }
                assert forall|us: StoreModel<User>|
                    members_known(m0, us) implies #[trigger] members_known(m1, us) by {
                    assert forall|kk: int, p: int|
                        0 <= kk < m1.rooms.entries.len() && 0 <= p
                            < m1.rooms.entries[kk].users@.len() implies us.contains_id(
                        #[trigger] m1.rooms.entries[kk].users@[p],
                    ) by {
                        let ok = if kk < kr {
                            kk
                        } else {
                            kk + 1
                        };
                        assert(m1.rooms.entries[kk] == m0.rooms.entries[ok]);
                    }
                }
            }
        } else {
            let room = self.rooms.borrow_mut(room_id);
            let n = room.users.len();
            let mut i: usize = 0;
            loop
                invariant
                    *room == m0.rooms.value_of(room_id),
                    room0 == m0.rooms.value_of(room_id),
                    room0.users@.contains(user_id),
                    n == room.users@.len(),
                    0 <= i <= n,
                    forall|p: int| 0 <= p < i ==> (#[trigger] room.users@[p]) != user_id,
                ensures
                    *room == m0.rooms.value_of(room_id),
                    0 <= i < n,
                    room.users@[i as int] == user_id,
                decreases n - i,
            {
                if i >= n {
                    proof {
                        let w = choose|w: int|
                            0 <= w < room0.users@.len() && room0.users@[w] == user_id;
                        assert(room0.users@[w] == user_id);
                        assert(false);
                    }
                    unreached()
                } else {
                    if room.users[i] == user_id {
                        break ;
                    }
                    i = i + 1;
                }
            }
            room.users.remove(i);
            let ghost pm = i as int;
            let ghost room1 = *room;
            proof {
                m0.rooms.lemma_found_is_value(room_id, kr);
                m0.rooms.lemma_update_properties(kr, room1);
            }
            self.remove_index_entry(user_id);
            proof {
                let m1 = self@;
                let ip = idx_pos(m0.index, user_id);
                lemma_idx_found(m0.index, ip);
                lemma_idx_remove(m0.index, ip);
                assert(m1.rooms.entries == m0.rooms.entries.update(kr, room1));
                assert(m1.index == m0.index.remove(ip));
                assert(m1.rooms.value_of(room_id) == room1);
                assert(room1.users@ == room0.users@.remove(pm));
                // the removed position is the member's unique position
                assert(member_pos(room0, user_id) == pm) by {
                    assert(room0.users@[pm] == user_id);
                    let w = member_pos(room0, user_id);
                    assert(0 <= w < room0.users@.len() && room0.users@[w] == user_id);
                    if w != pm {
                        assert(room0 == m0.rooms.entries[kr]);
                        if w < pm {
                            assert(room0.users@[w] != room0.users@[pm]);
                        } else {
                            assert(room0.users@[pm] != room0.users@[w]);
                        }
                    }
                }
                assert forall|p: int| 0 <= p < room1.users@.len() implies (
                #[trigger] room1.users@[p]) == room0.users@[if p < pm {
                    p
                } else {
                    p + 1
                }] && room1.users@[p] != user_id by {
                    let op = if p < pm {
                        p
                    } else {
                        p + 1
                    };
                    assert(room0 == m0.rooms.entries[kr]);
                    if op < pm {
                        assert(room0.users@[op] != room0.users@[pm]);
                    } else if op > pm {
                        assert(room0.users@[pm] != room0.users@[op]);
                    }
                }
                assert forall|i2: int| 0 <= i2 < m1.index.len() implies {
                    let e = #[trigger] m1.index[i2];
                    &&& m1.rooms.contains_id(e.1)
                    &&& m1.rooms.value_of(e.1).users@.contains(e.0)
                } by {
                    let e = m1.index[i2];
                    let oi = if i2 < ip {
                        i2
                    } else {
                        i2 + 1
                    };
                    assert(e == m0.index[oi]);
                    lemma_idx_found(m0.index, oi);
                    assert(e.0 != user_id);
                    assert(m0.rooms.contains_id(e.1));
                    assert(m0.rooms.value_of(e.1).users@.contains(e.0));
                    if e.1 == room_id {
                        let w = choose|w: int|
                            0 <= w < room0.users@.len() && room0.users@[w] == e.0;
                        assert(room0.users@[w] == e.0);
                        assert(w != pm);
                        let nw = if w < pm {
                            w
                        } else {
                            w - 1
                        };
                        assert(room1.users@[nw] == e.0);
                    }
                }
                assert forall|kk: int, p: int|
                    0 <= kk < m1.rooms.entries.len() && 0 <= p
                        < m1.rooms.entries[kk].users@.len() implies {
                    let u = #[trigger] m1.rooms.entries[kk].users@[p];
                    &&& idx_contains(m1.index, u)
                    &&& idx_room(m1.index, u) == m1.rooms.entries[kk].spec_id()
                } by {
                    if kk == kr {
                        let u = room1.users@[p];
                        let op = if p < pm {
                            p
                        } else {
                            p + 1
                        };
                        assert(u == m0.rooms.entries[kr].users@[op]);
                        assert(idx_contains(m0.index, u));
                        assert(u != user_id);
                    } else {
                        assert(m1.rooms.entries[kk] == m0.rooms.entries[kk]);
                        let u = m1.rooms.entries[kk].users@[p];
                        assert(idx_contains(m0.index, u));
                        assert(idx_room(m0.index, u) == m0.rooms.entries[kk].spec_id());
                        assert(m0.rooms.entries[kk].spec_id() != room_id);
                        assert(u != user_id);
                    }
                }
                assert forall|kk: int, p: int, q: int|
                    #![trigger m1.rooms.entries[kk].users@[p], m1.rooms.entries[kk].users@[q]]
                    0 <= kk < m1.rooms.entries.len() && 0 <= p < q
                        < m1.rooms.entries[kk].users@.len() implies m1.rooms.entries[kk].users@[p]
                    != m1.rooms.entries[kk].users@[q] by {
                    if kk == kr {
                        let op = if p < pm {
                            p
                        } else {
                            p + 1
                        };
                        let oq = if q < pm {
                            q
                        } else {
                            q + 1
                        };
                        assert(room1.users@[p] == m0.rooms.entries[kr].users@[op]);
                        assert(room1.users@[q] == m0.rooms.entries[kr].users@[oq]);
                        assert(m0.rooms.entries[kr].users@[op]
                            != m0.rooms.entries[kr].users@[oq]);
                    } else {
                        assert(m1.rooms.entries[kk] == m0.rooms.entries[kk]);
                    }
                }
                assert(m1.rooms.entries[kr].users@.len() > 0);
                assert(m1.wf());
                assert forall|us: StoreModel<User>|
                    members_known(m0, us) implies #[trigger] members_known(m1, us) by {
                    assert forall|kk: int, p: int|
                        0 <= kk < m1.rooms.entries.len() && 0 <= p
                            < m1.rooms.entries[kk].users@.len() implies us.contains_id(
                        #[trigger] m1.rooms.entries[kk].users@[p],
                    ) by {
                        if kk == kr {
                            let op = if p < pm {
                                p
                            } else {
                                p + 1
                            };
                            assert(m1.rooms.entries[kk].users@[p]
                                == m0.rooms.entries[kr].users@[op]);
                        } else {
                            assert(m1.rooms.entries[kk] == m0.rooms.entries[kk]);
                        }
                    }
                }
            }
        }
        self.publish_all_rooms(now);
        Ok(())
    }

    /// Drops every index entry that points at the given room, keeping the
    /// others in order.
    #[verifier::rlimit(100)]
    fn prune_index(&mut self, room_id: u32)
        requires
            idx_keys_unique(old(self)@.index),
        ensures
            final(self)@.rooms == old(self)@.rooms,
            final(self)@.watch == old(self)@.watch,
            idx_keys_unique(final(self)@.index),
            forall|p: int|
                0 <= p < final(self)@.index.len() ==> (#[trigger] final(self)@.index[p]).1
                    != room_id,
            forall|p: int|
                0 <= p < final(self)@.index.len() ==> idx_contains(
                    old(self)@.index,
                    (#[trigger] final(self)@.index[p]).0,
                ) && idx_room(old(self)@.index, final(self)@.index[p].0)
                    == final(self)@.index[p].1,
            forall|u: u32|
                (#[trigger] idx_contains(final(self)@.index, u)) == (idx_contains(
                    old(self)@.index,
                    u,
                ) && idx_room(old(self)@.index, u) != room_id),
            forall|u: u32|
                idx_contains(old(self)@.index, u) && idx_room(old(self)@.index, u) != room_id
                    ==> (#[trigger] idx_room(final(self)@.index, u)) == idx_room(
                    old(self)@.index,
                    u,
                ),
    {
        let ghost index0 = self@.index;
        let n = self.user_room.len();
        let mut kept: Vec<(u32, u32)> = Vec::new();
        let ghost mut srcs: Seq<int> = Seq::empty();
        let mut i: usize = 0;
        while i < n
            invariant
                idx_keys_unique(index0),
                self@.index == index0,
                n == index0.len(),
                0 <= i <= n,
                srcs.len() == kept@.len(),
                forall|p: int|
                    0 <= p < srcs.len() ==> 0 <= (#[trigger] srcs[p]) < i && index0[srcs[p]]
                        == kept@[p] && index0[srcs[p]].1 != room_id,
                forall|p1: int, p2: int|
                    0 <= p1 < p2 < srcs.len() ==> (#[trigger] srcs[p1]) < (#[trigger] srcs[p2]),
                forall|q: int|
                    0 <= q < i && (#[trigger] index0[q]).1 != room_id ==> exists|p: int|
                        0 <= p < srcs.len() && (#[trigger] srcs[p]) == q,
            decreases n - i,
        {
            let e = self.user_room[i];
            let ghost srcs0 = srcs;
            if e.1 != room_id {
                kept.push(e);
                proof {
                    srcs = srcs.push(i as int);
                }
            }
            i = i + 1;
            proof {
                assert forall|q: int|
                    0 <= q < i && (#[trigger] index0[q]).1 != room_id implies exists|p: int|
                        0 <= p < srcs.len() && (#[trigger] srcs[p]) == q by {
                    if q < i - 1 {
                        let p = choose|p: int| 0 <= p < srcs0.len() && (#[trigger] srcs0[p]) == q;
                        assert(srcs[p] == q);
                    } else {
                        assert(srcs[srcs.len() - 1] == q);
                    }
                }
            }
        }
        let ghost keptv = kept@;
        self.user_room = kept;
        proof {
            assert forall|p1: int, p2: int|
                #![trigger self@.index[p1].0, self@.index[p2].0]
                0 <= p1 < p2 < self@.index.len() implies self@.index[p1].0
                != self@.index[p2].0 by {
                let q1 = srcs[p1];
                let q2 = srcs[p2];
                assert(index0[q1] == self@.index[p1]);
                assert(index0[q2] == self@.index[p2]);
                assert(q1 < q2);
            }
            assert forall|p: int| 0 <= p < self@.index.len() implies (
            #[trigger] self@.index[p]).1 != room_id by {
                let q = srcs[p];
                assert(index0[q] == self@.index[p]);
            }
            assert forall|p: int| 0 <= p < self@.index.len() implies idx_contains(
                index0,
                (#[trigger] self@.index[p]).0,
            ) && idx_room(index0, self@.index[p].0) == self@.index[p].1 by {
                let q = srcs[p];
                assert(index0[q] == self@.index[p]);
                lemma_idx_found(index0, q);
            }
            assert forall|u: u32| (#[trigger] idx_contains(self@.index, u)) == (idx_contains(
                index0,
                u,
            ) && idx_room(index0, u) != room_id) by {
                if idx_contains(self@.index, u) {
                    let p = idx_pos(self@.index, u);
                    let q = srcs[p];
                    assert(index0[q] == self@.index[p]);
                    lemma_idx_found(index0, q);
                    assert(self@.index[p].1 != room_id);
                }
                if idx_contains(index0, u) && idx_room(index0, u) != room_id {
                    let q = idx_pos(index0, u);
                    assert(index0[q].0 == u && index0[q].1 != room_id);
                    let p = choose|p: int| 0 <= p < srcs.len() && (#[trigger] srcs[p]) == q;
                    assert(self@.index[p] == index0[q]);
                    assert(self@.index[p].0 == u);
                }
            }
            assert forall|u: u32|
                idx_contains(index0, u) && idx_room(index0, u) != room_id implies (
            #[trigger] idx_room(self@.index, u)) == idx_room(index0, u) by {
                let q = idx_pos(index0, u);
                assert(index0[q].0 == u);
                let p = choose|p: int| 0 <= p < srcs.len() && (#[trigger] srcs[p]) == q;
                assert(self@.index[p] == index0[q]);
                lemma_idx_found(self@.index, p);
            }
        }
    }

    /// Removes the room outright, whatever its membership, pruning every
    /// index entry that points at it, and publishes the fresh lobby list.
    /// The idle reaper uses this when a room shows no activity for the
    /// configured time. A missing room id changes no state but the feed.
    #[verifier::rlimit(100)]
    pub fn remove_room(&mut self, room_id: u32, now: u64)
        requires
            old(self)@.wf(),
        ensures
            final(self)@.wf(),
            forall|us: StoreModel<User>|
                members_known(old(self)@, us) ==> #[trigger] members_known(final(self)@, us),
            !final(self)@.rooms.contains_id(room_id),
            final(self)@.rooms.next_id == old(self)@.rooms.next_id,
            forall|j: u32|
                j != room_id ==> (#[trigger] final(self)@.rooms.contains_id(j)) == old(
                    self,
                )@.rooms.contains_id(j),
            forall|j: u32|
                j != room_id && old(self)@.rooms.contains_id(j) ==> (
                #[trigger] final(self)@.rooms.value_of(j)) == old(self)@.rooms.value_of(j),
            forall|u: u32|
                (#[trigger] final(self)@.in_room(u)) == (old(self)@.in_room(u) && old(
                    self,
                )@.room_of(u) != room_id),
            forall|u: u32|
                old(self)@.in_room(u) && old(self)@.room_of(u) != room_id ==> (
                #[trigger] final(self)@.room_of(u)) == old(self)@.room_of(u),
            forall|kk: int|
                0 <= kk < final(self)@.spec_simple_infos().len() ==> (
                #[trigger] final(self)@.spec_simple_infos()[kk]).id != room_id,
            watch_published(
                old(self)@.watch,
                final(self)@.watch,
                final(self)@.spec_simple_infos(),
                now,
            ),
    {
        let ghost m0 = self@;
        self.rooms.remove(room_id);
        self.prune_index(room_id);
        proof {
            lemma_remove_room_shape(m0, self@, room_id);
        }
        self.publish_all_rooms(now);
    }

    /// Replaces the room's configuration wholesale and publishes both the
    /// room's fresh detailed snapshot and the fresh lobby list. The caller
    /// layer enforces that only the owner asks for this; the manager
    /// trusts its caller.
    pub fn update_game_configs_of_room(
        &mut self,
        users: &UserManager,
        room_id: u32,
        configs: GameConfigurations,
        now: u64,
    ) -> (r: Result<(), AppError>)
        requires
            old(self)@.wf(),
            users@.wf(),
            members_known(old(self)@, users@),
        ensures
            final(self)@.wf(),
            members_known(final(self)@, users@),
            r is Err ==> final(self)@ == old(self)@,
            (r == Err::<(), AppError>(AppError::NotFound)) <==> !old(self)@.rooms.contains_id(
                room_id,
            ),
            (r is Ok) <==> old(self)@.rooms.contains_id(room_id),
            r is Ok ==> ({
                let m0 = old(self)@;
                let m1 = final(self)@;
                let room0 = m0.rooms.value_of(room_id);
                let room1 = m1.rooms.value_of(room_id);
                &&& m1.rooms.contains_id(room_id)
                &&& m1.rooms.next_id == m0.rooms.next_id
                &&& room1.game_configs == configs
                &&& room1.users@ == room0.users@
                &&& room1.id == room0.id
                &&& room1.status == room0.status
                &&& detail_published(
                    room0.detailed_info_change_watch,
                    room1.detailed_info_change_watch,
                    room1,
                    users@,
                    now,
                )
                &&& m1.index == m0.index
                &&& m1.rooms.next_id == m0.rooms.next_id
                &&& forall|j: u32|
                    j != room_id ==> (#[trigger] m1.rooms.contains_id(j)) == m0.rooms.contains_id(
                        j,
                    )
                &&& forall|j: u32|
                    j != room_id && m0.rooms.contains_id(j) ==> (#[trigger] m1.rooms.value_of(j))
                        == m0.rooms.value_of(j)
                &&& watch_published(m0.watch, m1.watch, m1.spec_simple_infos(), now)
            }),
    {
        if !self.rooms.contains(room_id) {
            return Err(AppError::NotFound);
        }
        let ghost m0 = self@;
        let ghost kr = m0.rooms.index_of(room_id);
        let room = self.rooms.borrow_mut(room_id);
        proof {
            m0.rooms.lemma_found_is_value(room_id, kr);
            assert forall|p: int| 0 <= p < room.users@.len() implies users@.contains_id(
                #[trigger] room.users@[p],
            ) by {
                assert(m0.rooms.entries[kr] == *room);
            }
        }
        room.game_configs = configs;
        let detail = build_detailed_info(room, users);
        room.detailed_info_change_watch.publish(detail, now);
        let ghost room1 = *room;
        proof {
            m0.rooms.lemma_update_properties(kr, room1);
            let m1 = self@;
            assert(m1.rooms.entries == m0.rooms.entries.update(kr, room1));
            assert(m1.index == m0.index);
            assert forall|kk: int, p: int|
                0 <= kk < m1.rooms.entries.len() && 0 <= p
                    < m1.rooms.entries[kk].users@.len() implies {
                let u = #[trigger] m1.rooms.entries[kk].users@[p];
                &&& idx_contains(m1.index, u)
                &&& idx_room(m1.index, u) == m1.rooms.entries[kk].spec_id()
                &&& users@.contains_id(u)
            } by {
                if kk == kr {
                    assert(m1.rooms.entries[kk].users@[p] == m0.rooms.entries[kr].users@[p]);
                } else {
                    assert(m1.rooms.entries[kk] == m0.rooms.entries[kk]);
                }
            }
            assert forall|i2: int| 0 <= i2 < m1.index.len() implies {
                let e = #[trigger] m1.index[i2];
                &&& m1.rooms.contains_id(e.1)
                &&& m1.rooms.value_of(e.1).users@.contains(e.0)
            } by {
                let e = m1.index[i2];
                assert(m0.rooms.contains_id(e.1));
                assert(m0.rooms.value_of(e.1).users@.contains(e.0));
                if e.1 == room_id {
                    let w = choose|w: int|
                        0 <= w < m0.rooms.value_of(room_id).users@.len()
                            && m0.rooms.value_of(room_id).users@[w] == e.0;
                    assert(room1.users@[w] == e.0);
                }
            }
            assert forall|kk: int, p: int, q: int|
                #![trigger m1.rooms.entries[kk].users@[p], m1.rooms.entries[kk].users@[q]]
                0 <= kk < m1.rooms.entries.len() && 0 <= p < q
                    < m1.rooms.entries[kk].users@.len() implies m1.rooms.entries[kk].users@[p]
                != m1.rooms.entries[kk].users@[q] by {
                if kk == kr {
                    assert(m1.rooms.entries[kk].users@[p] == m0.rooms.entries[kr].users@[p]);
                    assert(m1.rooms.entries[kk].users@[q] == m0.rooms.entries[kr].users@[q]);
                } else {
                    assert(m1.rooms.entries[kk] == m0.rooms.entries[kk]);
                }
            }
            assert(m1.wf());
        }
        self.publish_all_rooms(now);
        Ok(())
    }

    /// The owner of a room: its first member. Ownership is positional; a
    /// live room is never empty.
    pub fn room_owner(&self, room_id: u32) -> (r: Option<u32>)
        requires
            self@.wf(),
        ensures
            match r {
                Some(u) => self@.rooms.contains_id(room_id) && u == self@.rooms.value_of(
                    room_id,
                ).users@[0],
                None => !self@.rooms.contains_id(room_id),
            },
    {
        match self.rooms.get(room_id) {
            Some(room) => {
                proof {
                    let kk = self@.rooms.index_of(room_id);
                    self@.rooms.lemma_found_is_value(room_id, kk);
                    assert(self@.rooms.entries[kk].users@.len() > 0);
                }
                Some(room.owner())
            },
            None => None,
        }
    }

    /// A new observer of the lobby-list feed.
    pub fn all_rooms_subscribe(&self) -> (r: Cursor)
        ensures
            r.seen == self@.watch.deliveries,
    {
        self.all_rooms_simple_info_change_watch.subscribe()
    }

    /// Whether the lobby-list feed delivered something the cursor has not
    /// seen. The application suspends a subscriber task until this holds.
    pub fn all_rooms_has_new(&self, cursor: &Cursor) -> (r: bool)
        ensures
            r == (self@.watch.deliveries != cursor.seen),
    {
        self.all_rooms_simple_info_change_watch.has_new(cursor)
    }

    /// Catches the cursor up on the lobby-list feed and returns the latest
    /// delivered list.
    pub fn all_rooms_read(&self, cursor: &mut Cursor) -> (r: Option<&Vec<RoomSimpleInfo>>)
        ensures
            final(cursor).seen == self@.watch.deliveries,
            match r {
                Some(v) => self@.watch.latest == Some(*v),
                None => self@.watch.latest is None,
            },
    {
        self.all_rooms_simple_info_change_watch.read(cursor)
    }

    /// Runs the lobby-list feed's debounce timer check at `now`.
    pub fn all_rooms_deliver_due(&mut self, now: u64)
        ensures
            final(self)@.rooms == old(self)@.rooms,
            final(self)@.index == old(self)@.index,
            final(self)@.watch == old(self)@.watch.spec_deliver_due(now),
            old(self)@.wf() ==> final(self)@.wf(),
    {
        self.all_rooms_simple_info_change_watch.deliver_due(now);
    }

    /// A new observer of one room's detail feed, if the room lives.
    pub fn room_detail_subscribe(&self, room_id: u32) -> (r: Option<Cursor>)
        requires
            self@.wf(),
        ensures
            match r {
                Some(c) => self@.rooms.contains_id(room_id) && c.seen == self@.rooms.value_of(
                    room_id,
                ).detailed_info_change_watch.deliveries,
                None => !self@.rooms.contains_id(room_id),
            },
    {
        match self.rooms.get(room_id) {
            Some(room) => Some(room.detailed_info_change_watch.subscribe()),
            None => None,
        }
    }

    /// Whether the room's detail feed delivered something the cursor has
    /// not seen; false once the room is gone, so a watcher of a removed
    /// room observes no further activity.
    pub fn room_detail_has_new(&self, room_id: u32, cursor: &Cursor) -> (r: bool)
        requires
            self@.wf(),
        ensures
            r == (self@.rooms.contains_id(room_id) && self@.rooms.value_of(
                room_id,
            ).detailed_info_change_watch.deliveries != cursor.seen),
    {
        match self.rooms.get(room_id) {
            Some(room) => room.detailed_info_change_watch.has_new(cursor),
            None => false,
        }
    }

    /// Catches the cursor up on one room's detail feed and returns the
    /// latest delivered snapshot.
    pub fn room_detail_read(&self, room_id: u32, cursor: &mut Cursor) -> (r: Option<
        &RoomDetailedInfo,
    >)
        requires
            self@.wf(),
        ensures
            self@.rooms.contains_id(room_id) ==> ({
                let w = self@.rooms.value_of(room_id).detailed_info_change_watch;
                &&& final(cursor).seen == w.deliveries
                &&& match r {
                    Some(d) => w.latest == Some(*d),
                    None => w.latest is None,
                }
            }),
            !self@.rooms.contains_id(room_id) ==> r is None && *final(cursor) == *old(cursor),
    {
        match self.rooms.get(room_id) {
            Some(room) => room.detailed_info_change_watch.read(cursor),
            None => None,
        }
    }

    /// Runs one room's detail-feed debounce timer check at `now`; reports
    /// whether the room lives.
    pub fn room_detail_deliver_due(&mut self, room_id: u32, now: u64) -> (r: bool)
        requires
            old(self)@.wf(),
        ensures
            final(self)@.wf(),
            r == old(self)@.rooms.contains_id(room_id),
            final(self)@.index == old(self)@.index,
            final(self)@.watch == old(self)@.watch,
            final(self)@.rooms.next_id == old(self)@.rooms.next_id,
            forall|us: StoreModel<User>|
                members_known(old(self)@, us) ==> #[trigger] members_known(final(self)@, us),
            forall|j: u32|
                (#[trigger] final(self)@.rooms.contains_id(j)) == old(self)@.rooms.contains_id(j),
            forall|j: u32|
                j != room_id && old(self)@.rooms.contains_id(j) ==> (
                #[trigger] final(self)@.rooms.value_of(j)) == old(self)@.rooms.value_of(j),
            r ==> ({
                let room0 = old(self)@.rooms.value_of(room_id);
                let room1 = final(self)@.rooms.value_of(room_id);
                &&& room1.id == room0.id
                &&& room1.users@ == room0.users@
                &&& room1.game_configs == room0.game_configs
                &&& room1.status == room0.status
                &&& room1.detailed_info_change_watch
                    == room0.detailed_info_change_watch.spec_deliver_due(now)
            }),
            !r ==> final(self)@ == old(self)@,
    {
        if !self.rooms.contains(room_id) {
            return false;
        }
        let ghost m0 = self@;
        let ghost kr = m0.rooms.index_of(room_id);
        let room = self.rooms.borrow_mut(room_id);
        room.detailed_info_change_watch.deliver_due(now);
        let ghost room1 = *room;
        proof {
            m0.rooms.lemma_found_is_value(room_id, kr);
            m0.rooms.lemma_update_properties(kr, room1);
            let m1 = self@;
            assert(m1.rooms.entries == m0.rooms.entries.update(kr, room1));
            assert(m1.index == m0.index);
            assert forall|kk: int, p: int|
                0 <= kk < m1.rooms.entries.len() && 0 <= p
                    < m1.rooms.entries[kk].users@.len() implies {
                let u = #[trigger] m1.rooms.entries[kk].users@[p];
                &&& idx_contains(m1.index, u)
                &&& idx_room(m1.index, u) == m1.rooms.entries[kk].spec_id()
            } by {
                if kk == kr {
                    assert(m1.rooms.entries[kk].users@[p] == m0.rooms.entries[kr].users@[p]);
                } else {
                    assert(m1.rooms.entries[kk] == m0.rooms.entries[kk]);
                }
            }
            assert forall|i2: int| 0 <= i2 < m1.index.len() implies {
                let e = #[trigger] m1.index[i2];
                &&& m1.rooms.contains_id(e.1)
                &&& m1.rooms.value_of(e.1).users@.contains(e.0)
            } by {
                let e = m1.index[i2];
                assert(m0.rooms.contains_id(e.1));
                assert(m0.rooms.value_of(e.1).users@.contains(e.0));
                if e.1 == room_id {
                    let w = choose|w: int|
                        0 <= w < m0.rooms.value_of(room_id).users@.len()
                            && m0.rooms.value_of(room_id).users@[w] == e.0;
                    assert(room1.users@[w] == e.0);
                }
            }
            assert forall|kk: int, p: int, q: int|
                #![trigger m1.rooms.entries[kk].users@[p], m1.rooms.entries[kk].users@[q]]
                0 <= kk < m1.rooms.entries.len() && 0 <= p < q
                    < m1.rooms.entries[kk].users@.len() implies m1.rooms.entries[kk].users@[p]
                != m1.rooms.entries[kk].users@[q] by {
                if kk == kr {
                    assert(m1.rooms.entries[kk].users@[p] == m0.rooms.entries[kr].users@[p]);
                    assert(m1.rooms.entries[kk].users@[q] == m0.rooms.entries[kr].users@[q]);
                } else {
                    assert(m1.rooms.entries[kk] == m0.rooms.entries[kk]);
                }
            }
            assert(m1.wf());
            assert forall|us: StoreModel<User>|
                members_known(m0, us) implies #[trigger] members_known(m1, us) by {
                assert forall|kk: int, p: int|
                    0 <= kk < m1.rooms.entries.len() && 0 <= p
                        < m1.rooms.entries[kk].users@.len() implies us.contains_id(
                    #[trigger] m1.rooms.entries[kk].users@[p],
                ) by {
                    if kk == kr {
                        assert(m1.rooms.entries[kk].users@[p] == m0.rooms.entries[kr].users@[p]);
                    } else {
                        assert(m1.rooms.entries[kk] == m0.rooms.entries[kk]);
                    }
                }
            }
        }
        true
    }
}

/// What the per-room idle watcher observed in one bounded wait on the
/// room's detail feed.
#[derive(Clone, Copy, Debug, PartialEq, Eq, Structural)]
pub enum ReaperEvent {
    /// The feed delivered a fresh detail snapshot: the room is alive.
    DetailChanged,
    /// The room (and with it the feed) is gone.
    ChannelClosed,
    /// The bounded wait ran out with no delivery.
    TimedOut,
}

/// What the idle watcher does next.
#[derive(Clone, Copy, Debug, PartialEq, Eq, Structural)]
pub enum ReaperAction {
    /// Start the next bounded wait.
    ContinueWaiting,
    /// Remove the room unconditionally, then stop.
    RemoveRoomAndStop,
    /// Stop without touching anything.
    Stop,
}

/// The idle reaper's decision rule: a room that shows no detail-change
/// activity for the configured time is removed, regardless of membership;
/// any activity resets the wait. The application runs one watcher task per
/// room, performing the waits and handing each outcome here.
pub fn reaper_transition(event: ReaperEvent) -> (r: ReaperAction)
    ensures
        r == match event {
            ReaperEvent::DetailChanged => ReaperAction::ContinueWaiting,
            ReaperEvent::ChannelClosed => ReaperAction::Stop,
            ReaperEvent::TimedOut => ReaperAction::RemoveRoomAndStop,
        },
{
    match event {
        ReaperEvent::DetailChanged => ReaperAction::ContinueWaiting,
        ReaperEvent::ChannelClosed => ReaperAction::Stop,
        ReaperEvent::TimedOut => ReaperAction::RemoveRoomAndStop,
    }
}

} // verus!
