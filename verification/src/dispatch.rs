//! The per-connection dispatch surface: resolves an opaque command name
//! through the registry, checks the request body's shape, and runs the
//! typed handler against the application's services. Type erasure ends
//! here; everything below is fully typed.

use vstd::prelude::*;
use crate::channel::Cursor;
use crate::configs::GameConfigurations;
use crate::errors::AppError;
use crate::handlers::room_handlers::{
    AllRoomSimpleInfoStreamHandler, ChangeGameConfigHandler, CreateRoomHandler, EnterRoomHandler,
    LeaveRoomHandler, ListRoomSimpleInfoHandler, RoomDetailedInfoStreamHandler,
};
use crate::handlers::user_handlers::{ChangeCurUserNameHandler, GetCurUserHandler};
use crate::registry::{
    default_tables_loaded, init_global_handlers, table_lookup, CommandRegistry, RequestCommand,
    StreamCommand,
};
use crate::room::{RoomSimpleInfo, RoomStatus};
use crate::room_manager::{
    detail_published, lemma_members_known_contains_stable, members_known, watch_published,
    RoomManager,
};
use crate::settings::{system_settings, SystemSettings};
use crate::user::User;
use crate::user_manager::UserManager;

verus! {

/// A request body after wire decoding: typed values, stripped of their
/// encoding but not yet matched against the command's expected shape.
#[derive(Debug)]
pub enum RequestBody {
    Empty,
    Text(String),
    RoomId(u32),
    Config(GameConfigurations),
}

/// A response body handed back for wire encoding.
#[derive(Debug, PartialEq)]
pub enum ResponseBody {
    Empty,
    User(User),
    RoomList(Vec<RoomSimpleInfo>),
}

/// What a successfully opened subscription is: which feed, and a cursor
/// caught up with everything delivered so far.
#[derive(Clone, Copy, Debug, PartialEq, Eq, Structural)]
pub enum StreamOpen {
    AllRooms(Cursor),
    RoomDetail(u32, Cursor),
}

/// The application context: every service, explicitly constructed once at
/// startup and passed by reference to connection handlers — no hidden
/// global state. The surrounding application serializes access.
pub struct AppState {
    pub users: UserManager,
    pub rooms: RoomManager,
    pub registry: CommandRegistry,
    pub settings: SystemSettings,
}

impl AppState {
    /// The cross-service invariant: both stores are well-formed, and every
    /// room member is a user the user store holds.
    pub open spec fn wf(self) -> bool {
        &&& self.users@.wf()
        &&& self.rooms@.wf()
        &&& members_known(self.rooms@, self.users@)
    }

    pub fn new() -> (r: Self)
        ensures
            r.wf(),
            r.users@.entries.len() == 0,
            r.users@.next_id == 0,
            r.rooms@.rooms.entries.len() == 0,
            r.rooms@.rooms.next_id == 0,
            r.rooms@.index.len() == 0,
            default_tables_loaded(r.registry@),
            r.settings == SystemSettings::spec_default(),
    {
        AppState {
            users: UserManager::new(),
            rooms: RoomManager::new(),
            registry: init_global_handlers(),
            settings: system_settings(),
        }
    }

    /// Resolves and runs one request/response command for the caller:
    /// an unregistered name is `UnknownCommand`; a body whose shape does
    /// not fit the command is `DecodeError`; otherwise the typed handler
    /// runs and its result or error comes back.
    pub fn dispatch_request(
        &mut self,
        command: &String,
        uid: u32,
        body: RequestBody,
        now: u64,
    ) -> (r: Result<ResponseBody, AppError>)
        requires
            old(self).wf(),
            old(self).rooms@.rooms.next_id < u32::MAX,
        ensures
            final(self).wf(),
            final(self).registry == old(self).registry,
            final(self).settings == old(self).settings,
            old(self).rooms@.rooms.next_id <= final(self).rooms@.rooms.next_id <= old(
                self,
            ).rooms@.rooms.next_id + 1,
            final(self).users@.next_id == old(self).users@.next_id,
            ({
                let k = table_lookup(old(self).registry@.requests, command@);
                let m0 = old(self).rooms@;
                let us0 = old(self).users@;
                &&& ((r == Err::<ResponseBody, AppError>(AppError::UnknownCommand)) <==> k
                    is None)
                &&& (k is None ==> final(self).users@ == us0 && final(self).rooms@ == m0)
                &&& (k == Some(RequestCommand::GetCurUser) ==> {
                    &&& final(self).users@ == us0
                    &&& final(self).rooms@ == m0
                    &&& (!(body is Empty) ==> r == Err::<ResponseBody, AppError>(
                        AppError::DecodeError,
                    ))
                    &&& (body is Empty ==> {
                        &&& ((r is Ok) <==> us0.contains_id(uid))
                        &&& (!us0.contains_id(uid) ==> r == Err::<ResponseBody, AppError>(
                            AppError::NotFound,
                        ))
                        &&& (r matches Ok(res) ==> res matches ResponseBody::User(u) && u
                            == us0.value_of(uid))
                    })
                })
                &&& (k == Some(RequestCommand::ChangeCurUserName) ==> {
                    &&& final(self).rooms@ == m0
                    &&& (!(body is Text) ==> r == Err::<ResponseBody, AppError>(
                        AppError::DecodeError,
                    ) && final(self).users@ == us0)
                    &&& (body matches RequestBody::Text(name) ==> {
                        &&& ((r == Err::<ResponseBody, AppError>(AppError::ValidationError))
                            <==> (name@.len() == 0 || name@.len() > 10))
                        &&& ((r == Err::<ResponseBody, AppError>(AppError::NotFound)) <==> (1
                            <= name@.len() <= 10 && !us0.contains_id(uid)))
                        &&& ((r is Ok) <==> (1 <= name@.len() <= 10 && us0.contains_id(uid)))
                        &&& (r is Err ==> final(self).users@ == us0)
                        &&& (r matches Ok(res) ==> res is Empty && final(self).users@.value_of(
                            uid,
                        ) == (User { nick_name: name, ..us0.value_of(uid) }))
                    })
                })
                &&& (k == Some(RequestCommand::CreateRoom) ==> {
                    &&& final(self).users@ == us0
                    &&& (!(body is Empty) ==> r == Err::<ResponseBody, AppError>(
                        AppError::DecodeError,
                    ) && final(self).rooms@ == m0)
                    &&& (body is Empty ==> {
                        &&& ((r == Err::<ResponseBody, AppError>(AppError::AlreadyInRoom)) <==>
                            m0.in_room(uid))
                        &&& ((r == Err::<ResponseBody, AppError>(AppError::NotFound)) <==> (
                        !m0.in_room(uid) && !us0.contains_id(uid)))
                        &&& ((r is Ok) <==> (!m0.in_room(uid) && us0.contains_id(uid)))
                        &&& (r is Err ==> final(self).rooms@ == m0)
                        &&& (r matches Ok(res) ==> res is Empty && ({
                            let rid = m0.rooms.next_id;
                            let m1 = final(self).rooms@;
                            &&& m1.rooms.contains_id(rid)
                            &&& m1.rooms.value_of(rid).users@ == seq![uid]
                            &&& m1.rooms.value_of(rid).status == RoomStatus::Waiting
                            &&& m1.rooms.value_of(rid).game_configs
                                == GameConfigurations::spec_default()
                            &&& m1.in_room(uid)
                            &&& m1.room_of(uid) == rid
                            &&& watch_published(
                                m0.watch,
                                m1.watch,
                                m1.spec_simple_infos(),
                                now,
                            )
                        }))
                    })
                })
                &&& (k == Some(RequestCommand::ListRoomSimpleInfo) ==> {
                    &&& final(self).users@ == us0
                    &&& final(self).rooms@ == m0
                    &&& (!(body is Empty) ==> r == Err::<ResponseBody, AppError>(
                        AppError::DecodeError,
                    ))
                    &&& (body is Empty ==> (r matches Ok(res) && res matches
                        ResponseBody::RoomList(v) && v@ == m0.spec_simple_infos()))
                })
                &&& (k == Some(RequestCommand::LeaveRoom) ==> {
                    &&& final(self).users@ == us0
                    &&& (!(body is Empty) ==> r == Err::<ResponseBody, AppError>(
                        AppError::DecodeError,
                    ) && final(self).rooms@ == m0)
                    &&& (body is Empty ==> {
                        &&& ((r == Err::<ResponseBody, AppError>(AppError::UserNotInRoom)) <==>
                            !m0.in_room(uid))
                        &&& ((r is Ok) <==> m0.in_room(uid))
                        &&& (r is Err ==> final(self).rooms@ == m0)
                        &&& (r matches Ok(res) ==> res is Empty && ({
                            let rid = m0.room_of(uid);
                            let room0 = m0.rooms.value_of(rid);
                            let m1 = final(self).rooms@;
                            &&& !m1.in_room(uid)
                            &&& (room0.users@.len() == 1 ==> !m1.rooms.contains_id(rid)
                                && forall|kk: int|
                                0 <= kk < m1.spec_simple_infos().len() ==> (
                                #[trigger] m1.spec_simple_infos()[kk]).id != rid)
                            &&& watch_published(
                                m0.watch,
                                m1.watch,
                                m1.spec_simple_infos(),
                                now,
                            )
                        }))
                    })
                })
                &&& (k == Some(RequestCommand::EnterRoom) ==> {
                    &&& final(self).users@ == us0
                    &&& (!(body is RoomId) ==> r == Err::<ResponseBody, AppError>(
                        AppError::DecodeError,
                    ) && final(self).rooms@ == m0)
                    &&& (body matches RequestBody::RoomId(rid) ==> {
                        let room_exists = m0.rooms.contains_id(rid);
                        let full = room_exists && m0.rooms.value_of(rid).users@.len()
                            == m0.rooms.value_of(
                            rid,
                        ).game_configs.basic_configs.max_player_count as int;
                        &&& ((r == Err::<ResponseBody, AppError>(AppError::AlreadyInRoom)) <==>
                            m0.in_room(uid))
                        &&& ((r == Err::<ResponseBody, AppError>(AppError::RoomFull)) <==> (
                        !m0.in_room(uid) && room_exists && full))
                        &&& ((r == Err::<ResponseBody, AppError>(AppError::NotFound)) <==> (
                        !m0.in_room(uid) && (!room_exists || (!full && !us0.contains_id(uid)))))
                        &&& ((r is Ok) <==> (!m0.in_room(uid) && room_exists && !full
                            && us0.contains_id(uid)))
                        &&& (r is Err ==> final(self).rooms@ == m0)
                        &&& (r matches Ok(res) ==> res is Empty && ({
                            let m1 = final(self).rooms@;
                            &&& m1.rooms.value_of(rid).users@ == m0.rooms.value_of(
                                rid,
                            ).users@.push(uid)
                            &&& m1.in_room(uid)
                            &&& m1.room_of(uid) == rid
                            &&& detail_published(
                                m0.rooms.value_of(rid).detailed_info_change_watch,
                                m1.rooms.value_of(rid).detailed_info_change_watch,
                                m1.rooms.value_of(rid),
                                us0,
                                now,
                            )
                            &&& watch_published(
                                m0.watch,
                                m1.watch,
                                m1.spec_simple_infos(),
                                now,
                            )
                        }))
                    })
                })
                &&& (k == Some(RequestCommand::ChangeGameConfig) ==> {
                    &&& final(self).users@ == us0
                    &&& (!(body is Config) ==> r == Err::<ResponseBody, AppError>(
                        AppError::DecodeError,
                    ) && final(self).rooms@ == m0)
                    &&& (body matches RequestBody::Config(cfg) ==> {
                        &&& ((r == Err::<ResponseBody, AppError>(AppError::UserNotInRoom)) <==>
                            !m0.in_room(uid))
                        &&& ((r == Err::<ResponseBody, AppError>(AppError::Unauthorized)) <==> (
                        m0.in_room(uid) && m0.rooms.value_of(m0.room_of(uid)).users@[0] != uid))
                        &&& ((r is Ok) <==> (m0.in_room(uid) && m0.rooms.value_of(
                            m0.room_of(uid),
                        ).users@[0] == uid))
                        &&& (r is Err ==> final(self).rooms@ == m0)
                        &&& (r matches Ok(res) ==> res is Empty && ({
                            let rid = m0.room_of(uid);
                            let m1 = final(self).rooms@;
                            &&& m1.rooms.contains_id(rid)
                            &&& m1.rooms.value_of(rid).game_configs == cfg
                            &&& detail_published(
                                m0.rooms.value_of(rid).detailed_info_change_watch,
                                m1.rooms.value_of(rid).detailed_info_change_watch,
                                m1.rooms.value_of(rid),
                                us0,
                                now,
                            )
                            &&& watch_published(
                                m0.watch,
                                m1.watch,
                                m1.spec_simple_infos(),
                                now,
                            )
                        }))
                    })
                })
            }),
    {
        let k = match self.registry.lookup_request(command) {
            None => {
                return Err(AppError::UnknownCommand);
            },
            Some(k) => k,
        };
        match k {
            RequestCommand::GetCurUser => {
                match body {
                    RequestBody::Empty => {
                        match (GetCurUserHandler).handle(&self.users, uid) {
                            Ok(u) => Ok(ResponseBody::User(u)),
                            Err(e) => Err(e),
                        }
                    },
                    _ => Err(AppError::DecodeError),
                }
            },
            RequestCommand::ChangeCurUserName => {
                match body {
                    RequestBody::Text(name) => {
                        let ghost us0 = self.users@;
                        let ghost m0 = self.rooms@;
                        let res = (ChangeCurUserNameHandler).handle(&mut self.users, uid, name);
                        proof {
                            lemma_members_known_contains_stable(m0, us0, self.users@);
                        }
                        match res {
                            Ok(_) => Ok(ResponseBody::Empty),
                            Err(e) => Err(e),
                        }
                    },
                    _ => Err(AppError::DecodeError),
                }
            },
            RequestCommand::CreateRoom => {
                match body {
                    RequestBody::Empty => {
                        match (CreateRoomHandler).handle(&self.users, &mut self.rooms, uid, now) {
                            Ok(_) => Ok(ResponseBody::Empty),
                            Err(e) => Err(e),
                        }
                    },
                    _ => Err(AppError::DecodeError),
                }
            },
            RequestCommand::ListRoomSimpleInfo => {
                match body {
                    RequestBody::Empty => {
                        match (ListRoomSimpleInfoHandler).handle(&self.rooms, uid) {
                            Ok(v) => Ok(ResponseBody::RoomList(v)),
                            Err(e) => Err(e),
                        }
                    },
                    _ => Err(AppError::DecodeError),
                }
            },
            RequestCommand::LeaveRoom => {
                match body {
                    RequestBody::Empty => {
                        match (LeaveRoomHandler).handle(&mut self.rooms, uid, now) {
                            Ok(_) => Ok(ResponseBody::Empty),
                            Err(e) => Err(e),
                        }
                    },
                    _ => Err(AppError::DecodeError),
                }
            },
            RequestCommand::EnterRoom => {
                match body {
                    RequestBody::RoomId(rid) => {
                        match (EnterRoomHandler).handle(
                            &self.users,
                            &mut self.rooms,
                            uid,
                            rid,
                            now,
                        ) {
                            Ok(_) => Ok(ResponseBody::Empty),
                            Err(e) => Err(e),
                        }
                    },
                    _ => Err(AppError::DecodeError),
                }
            },
            RequestCommand::ChangeGameConfig => {
                match body {
                    RequestBody::Config(cfg) => {
                        match (ChangeGameConfigHandler).handle(
                            &self.users,
                            &mut self.rooms,
                            uid,
                            cfg,
                            now,
                        ) {
                            Ok(_) => Ok(ResponseBody::Empty),
                            Err(e) => Err(e),
                        }
                    },
                    _ => Err(AppError::DecodeError),
                }
            },
        }
    }

    /// Resolves one request/stream command for the caller and opens the
    /// subscription: which feed to pump, and a cursor caught up with
    /// everything already delivered. The application spawns the pump task.
    pub fn open_stream(&self, command: &String, uid: u32) -> (r: Result<StreamOpen, AppError>)
        requires
            self.wf(),
        ensures
            ({
                let k = table_lookup(self.registry@.streams, command@);
                &&& ((r == Err::<StreamOpen, AppError>(AppError::UnknownCommand)) <==> k
                    is None)
                &&& (k == Some(StreamCommand::AllRoomSimpleInfo) ==> (r matches Ok(res) && res
                    matches StreamOpen::AllRooms(c) && c.seen == self.rooms@.watch.deliveries))
                &&& (k == Some(StreamCommand::RoomDetailedInfo) ==> {
                    &&& ((r is Ok) <==> self.rooms@.in_room(uid))
                    &&& ((r == Err::<StreamOpen, AppError>(AppError::UserNotInRoom)) <==>
                        !self.rooms@.in_room(uid))
                    &&& (r matches Ok(res) ==> res matches StreamOpen::RoomDetail(rid, c) && rid
                        == self.rooms@.room_of(uid) && self.rooms@.rooms.contains_id(rid)
                        && c.seen == self.rooms@.rooms.value_of(
                        rid,
                    ).detailed_info_change_watch.deliveries)
                })
            }),
    {
        let k = match self.registry.lookup_stream(command) {
            None => {
                return Err(AppError::UnknownCommand);
            },
            Some(k) => k,
        };
        match k {
            StreamCommand::AllRoomSimpleInfo => {
                match (AllRoomSimpleInfoStreamHandler).handle(&self.rooms, uid) {
                    Ok(c) => Ok(StreamOpen::AllRooms(c)),
                    Err(e) => Err(e),
                }
            },
            StreamCommand::RoomDetailedInfo => {
                match (RoomDetailedInfoStreamHandler).handle(&self.rooms, uid) {
                    Ok((rid, c)) => Ok(StreamOpen::RoomDetail(rid, c)),
                    Err(e) => Err(e),
                }
            },
        }
    }
}

} // verus!
