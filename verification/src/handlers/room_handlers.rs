//! Handlers for the room commands and the two live subscriptions.

use vstd::prelude::*;
use crate::channel::Cursor;
use crate::configs::GameConfigurations;
use crate::errors::AppError;
use crate::room::{RoomSimpleInfo, RoomStatus};
use crate::room_manager::{detail_published, members_known, watch_published, RoomManager};
use crate::user_manager::UserManager;

verus! {

/// Serves `ListRoomSimpleInfo`: the lobby list, computed fresh.
pub struct ListRoomSimpleInfoHandler;

impl ListRoomSimpleInfoHandler {
    pub fn handle(&self, rooms: &RoomManager, _uid: u32) -> (r: Result<
        Vec<RoomSimpleInfo>,
        AppError,
    >)
        ensures
            r matches Ok(v) && v@ == rooms@.spec_simple_infos(),
    {
        Ok(rooms.all_rooms_simple_info())
    }
}

/// Serves `CreateRoom`: opens a room owned by the caller.
pub struct CreateRoomHandler;

impl CreateRoomHandler {
    pub fn handle(&self, users: &UserManager, rooms: &mut RoomManager, uid: u32, now: u64) -> (r:
        Result<(), AppError>)
        requires
            old(rooms)@.wf(),
            users@.wf(),
            members_known(old(rooms)@, users@),
            old(rooms)@.rooms.next_id < u32::MAX,
        ensures
            final(rooms)@.wf(),
            members_known(final(rooms)@, users@),
            old(rooms)@.rooms.next_id <= final(rooms)@.rooms.next_id <= old(
                rooms,
            )@.rooms.next_id + 1,
            r is Err ==> final(rooms)@ == old(rooms)@,
            (r == Err::<(), AppError>(AppError::AlreadyInRoom)) <==> old(rooms)@.in_room(uid),
            (r == Err::<(), AppError>(AppError::NotFound)) <==> (!old(rooms)@.in_room(uid)
                && !users@.contains_id(uid)),
            (r is Ok) <==> (!old(rooms)@.in_room(uid) && users@.contains_id(uid)),
            r is Ok ==> ({
                let rid = old(rooms)@.rooms.next_id;
                &&& final(rooms)@.rooms.contains_id(rid)
                &&& final(rooms)@.rooms.value_of(rid).users@ == seq![uid]
                &&& final(rooms)@.rooms.value_of(rid).status == RoomStatus::Waiting
                &&& final(rooms)@.rooms.value_of(rid).game_configs
                    == GameConfigurations::spec_default()
                &&& final(rooms)@.in_room(uid)
                &&& final(rooms)@.room_of(uid) == rid
                &&& watch_published(
                    old(rooms)@.watch,
                    final(rooms)@.watch,
                    final(rooms)@.spec_simple_infos(),
                    now,
                )
            }),
    {
        match rooms.create_room_by_user_id(users, uid, now) {
            Ok(_) => Ok(()),
            Err(e) => Err(e),
        }
    }
}

/// Serves `LeaveRoom`: removes the caller from their room; the last
/// leaver removes the room itself.
pub struct LeaveRoomHandler;

impl LeaveRoomHandler {
    pub fn handle(&self, rooms: &mut RoomManager, uid: u32, now: u64) -> (r: Result<(), AppError>)
        requires
            old(rooms)@.wf(),
        ensures
            final(rooms)@.wf(),
            forall|us: crate::store::StoreModel<crate::user::User>|
                members_known(old(rooms)@, us) ==> #[trigger] members_known(final(rooms)@, us),
            final(rooms)@.rooms.next_id == old(rooms)@.rooms.next_id,
            r is Err ==> final(rooms)@ == old(rooms)@,
            (r == Err::<(), AppError>(AppError::UserNotInRoom)) <==> !old(rooms)@.in_room(uid),
            (r is Ok) <==> old(rooms)@.in_room(uid),
            r is Ok ==> ({
                let rid = old(rooms)@.room_of(uid);
                let room0 = old(rooms)@.rooms.value_of(rid);
                &&& !final(rooms)@.in_room(uid)
                &&& (room0.users@.len() == 1 ==> !final(rooms)@.rooms.contains_id(rid)
                    && forall|kk: int|
                    0 <= kk < final(rooms)@.spec_simple_infos().len() ==> (
                    #[trigger] final(rooms)@.spec_simple_infos()[kk]).id != rid)
                &&& (room0.users@.len() > 1 ==> final(rooms)@.rooms.contains_id(rid)
                    && final(rooms)@.rooms.value_of(rid).users@ == room0.users@.remove(
                    crate::room_manager::member_pos(room0, uid),
                ))
                &&& watch_published(
                    old(rooms)@.watch,
                    final(rooms)@.watch,
                    final(rooms)@.spec_simple_infos(),
                    now,
                )
            }),
    {
        let room_id = match rooms.find_room_by_user_id(uid) {
            None => {
                return Err(AppError::UserNotInRoom);
            },
            Some(rid) => rid,
        };
        rooms.remove_user_from_room(uid, room_id, now)
    }
}

/// Serves `EnterRoom`: joins the caller to the room named in the request.
pub struct EnterRoomHandler;

impl EnterRoomHandler {
    pub fn handle(
        &self,
        users: &UserManager,
        rooms: &mut RoomManager,
        uid: u32,
        req: u32,
        now: u64,
    ) -> (r: Result<(), AppError>)
        requires
            old(rooms)@.wf(),
            users@.wf(),
            members_known(old(rooms)@, users@),
        ensures
            final(rooms)@.wf(),
            members_known(final(rooms)@, users@),
            final(rooms)@.rooms.next_id == old(rooms)@.rooms.next_id,
            r is Err ==> final(rooms)@ == old(rooms)@,
            ({
                let m0 = old(rooms)@;
                let room_exists = m0.rooms.contains_id(req);
                let full = room_exists && m0.rooms.value_of(req).users@.len()
                    == m0.rooms.value_of(req).game_configs.basic_configs.max_player_count as int;
                &&& ((r == Err::<(), AppError>(AppError::AlreadyInRoom)) <==> m0.in_room(uid))
                &&& ((r == Err::<(), AppError>(AppError::RoomFull)) <==> (!m0.in_room(uid)
                    && room_exists && full))
                &&& ((r == Err::<(), AppError>(AppError::NotFound)) <==> (!m0.in_room(uid) && (
                !room_exists || (!full && !users@.contains_id(uid)))))
                &&& ((r is Ok) <==> (!m0.in_room(uid) && room_exists && !full
                    && users@.contains_id(uid)))
            }),
            r is Ok ==> ({
                let m0 = old(rooms)@;
                let m1 = final(rooms)@;
                &&& m1.rooms.value_of(req).users@ == m0.rooms.value_of(req).users@.push(uid)
                &&& m1.in_room(uid)
                &&& m1.room_of(uid) == req
                &&& detail_published(
                    m0.rooms.value_of(req).detailed_info_change_watch,
                    m1.rooms.value_of(req).detailed_info_change_watch,
                    m1.rooms.value_of(req),
                    users@,
                    now,
                )
                &&& watch_published(m0.watch, m1.watch, m1.spec_simple_infos(), now)
            }),
    {
        rooms.add_user_to_room(users, uid, req, now)
    }
}

/// Serves `ChangeGameConfig`: replaces the configuration of the caller's
/// room. Only the owner — the first member — may do this; any other
/// member is refused.
pub struct ChangeGameConfigHandler;

impl ChangeGameConfigHandler {
    pub fn handle(
        &self,
        users: &UserManager,
        rooms: &mut RoomManager,
        uid: u32,
        req: GameConfigurations,
        now: u64,
    ) -> (r: Result<(), AppError>)
        requires
            old(rooms)@.wf(),
            users@.wf(),
            members_known(old(rooms)@, users@),
        ensures
            final(rooms)@.wf(),
            members_known(final(rooms)@, users@),
            final(rooms)@.rooms.next_id == old(rooms)@.rooms.next_id,
            r is Err ==> final(rooms)@ == old(rooms)@,
            (r == Err::<(), AppError>(AppError::UserNotInRoom)) <==> !old(rooms)@.in_room(uid),
            (r == Err::<(), AppError>(AppError::Unauthorized)) <==> (old(rooms)@.in_room(uid)
                && old(rooms)@.rooms.value_of(old(rooms)@.room_of(uid)).users@[0] != uid),
            (r is Ok) <==> (old(rooms)@.in_room(uid) && old(rooms)@.rooms.value_of(
                old(rooms)@.room_of(uid),
            ).users@[0] == uid),
            r is Ok ==> ({
                let rid = old(rooms)@.room_of(uid);
                let m1 = final(rooms)@;
                &&& m1.rooms.contains_id(rid)
                &&& m1.rooms.value_of(rid).game_configs == req
                &&& m1.rooms.value_of(rid).users@ == old(rooms)@.rooms.value_of(rid).users@
                &&& detail_published(
                    old(rooms)@.rooms.value_of(rid).detailed_info_change_watch,
                    m1.rooms.value_of(rid).detailed_info_change_watch,
                    m1.rooms.value_of(rid),
                    users@,
                    now,
                )
                &&& watch_published(
                    old(rooms)@.watch,
                    final(rooms)@.watch,
                    final(rooms)@.spec_simple_infos(),
                    now,
                )
            }),
    {
        let room_id = match rooms.find_room_by_user_id(uid) {
            None => {
                return Err(AppError::UserNotInRoom);
            },
            Some(rid) => rid,
        };
        let owner = match rooms.room_owner(room_id) {
            Some(owner) => owner,
            None => unreached(),
        };
        if owner != uid {
            return Err(AppError::Unauthorized);
        }
        match rooms.update_game_configs_of_room(users, room_id, req, now) {
            Ok(_) => Ok(()),
            Err(_) => unreached(),
        }
    }
}

/// Serves `RoomDetailedInfoStream`: opens a live subscription to the
/// caller's room's detail feed. The returned cursor is positioned at
/// everything delivered so far; the application pumps deliveries from it.
pub struct RoomDetailedInfoStreamHandler;

impl RoomDetailedInfoStreamHandler {
    pub fn handle(&self, rooms: &RoomManager, uid: u32) -> (r: Result<(u32, Cursor), AppError>)
        requires
            rooms@.wf(),
        ensures
            (r is Ok) <==> rooms@.in_room(uid),
            (r == Err::<(u32, Cursor), AppError>(AppError::UserNotInRoom)) <==> !rooms@.in_room(
                uid,
            ),
            r matches Ok((rid, c)) ==> ({
                &&& rid == rooms@.room_of(uid)
                &&& rooms@.rooms.contains_id(rid)
                &&& c.seen == rooms@.rooms.value_of(rid).detailed_info_change_watch.deliveries
            }),
    {
        let room_id = match rooms.find_room_by_user_id(uid) {
            None => {
                return Err(AppError::UserNotInRoom);
            },
            Some(rid) => rid,
        };
        proof {
            let ip = crate::room_manager::idx_pos(rooms@.index, uid);
            assert(rooms@.index[ip].0 == uid && rooms@.index[ip].1 == room_id);
        }
        let cursor = match rooms.room_detail_subscribe(room_id) {
            Some(c) => c,
            None => unreached(),
        };
        Ok((room_id, cursor))
    }
}

/// Serves `AllRoomSimpleInfoStream`: opens a live subscription to the
/// lobby-list feed. Always succeeds; the application pumps deliveries
/// from the returned cursor and races them against the passive notify
/// timer.
pub struct AllRoomSimpleInfoStreamHandler;

impl AllRoomSimpleInfoStreamHandler {
    pub fn handle(&self, rooms: &RoomManager, _uid: u32) -> (r: Result<Cursor, AppError>)
        ensures
            r matches Ok(c) && c.seen == rooms@.watch.deliveries,
    {
        Ok(rooms.all_rooms_subscribe())
    }
}

} // verus!
