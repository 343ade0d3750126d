//! The command registry: maps stable command-name strings to typed
//! handlers. Registration is one-time per name — registering a name twice
//! is a configuration defect, excluded by precondition, not a runtime
//! error. Lookup resolves a wire-level command name to the typed call the
//! dispatcher runs.

use vstd::prelude::*;
use vstd::string::StringExecFns;

verus! {

/// The request/response commands the server serves.
#[derive(Clone, Copy, Debug, PartialEq, Eq, Structural)]
pub enum RequestCommand {
    GetCurUser,
    ChangeCurUserName,
    CreateRoom,
    ListRoomSimpleInfo,
    LeaveRoom,
    EnterRoom,
    ChangeGameConfig,
}

/// The request/stream subscriptions the server serves.
#[derive(Clone, Copy, Debug, PartialEq, Eq, Structural)]
pub enum StreamCommand {
    AllRoomSimpleInfo,
    RoomDetailedInfo,
}

/// First-match lookup in a name table.
pub open spec fn table_lookup<T>(entries: Seq<(Seq<char>, T)>, name: Seq<char>) -> Option<T>
    decreases entries.len(),
{
    if entries.len() == 0 {
        None
    } else if entries[0].0 == name {
        Some(entries[0].1)
    } else {
        table_lookup(entries.drop_first(), name)
    }
}

/// A name found at a position before which it does not occur is what the
/// table resolves the name to.
pub proof fn lemma_table_lookup_at<T>(entries: Seq<(Seq<char>, T)>, name: Seq<char>, i: int)
    requires
        0 <= i < entries.len(),
        entries[i].0 == name,
        forall|p: int| 0 <= p < i ==> (#[trigger] entries[p].0) != name,
    ensures
        table_lookup(entries, name) == Some(entries[i].1),
    decreases i,
{
    if i > 0 {
        let rest = entries.drop_first();
        assert(forall|p: int| 0 <= p < i - 1 ==> (#[trigger] rest[p].0) == entries[p + 1].0);
        lemma_table_lookup_at(rest, name, i - 1);
    }
}

/// A name that occurs nowhere resolves to nothing.
pub proof fn lemma_table_lookup_none<T>(entries: Seq<(Seq<char>, T)>, name: Seq<char>)
    requires
        forall|p: int| 0 <= p < entries.len() ==> (#[trigger] entries[p].0) != name,
    ensures
        table_lookup(entries, name) is None,
    decreases entries.len(),
{
    if entries.len() > 0 {
        let rest = entries.drop_first();
        assert(forall|p: int|
            0 <= p < rest.len() ==> (#[trigger] rest[p].0) == entries[p + 1].0);
        lemma_table_lookup_none(rest, name);
    }
}

/// The mathematical model of a registry: its two name tables.
pub struct RegistryModel {
    pub requests: Seq<(Seq<char>, RequestCommand)>,
    pub streams: Seq<(Seq<char>, StreamCommand)>,
}

/// Maps command names to request/response or request/stream handlers; the
/// single place where untyped wire names meet typed calls.
pub struct CommandRegistry {
    request_entries: Vec<(String, RequestCommand)>,
    stream_entries: Vec<(String, StreamCommand)>,
}

impl View for CommandRegistry {
    type V = RegistryModel;

    closed spec fn view(&self) -> RegistryModel {
        RegistryModel {
            requests: self.request_entries@.map_values(
                |e: (String, RequestCommand)| (e.0@, e.1),
            ),
            streams: self.stream_entries@.map_values(|e: (String, StreamCommand)| (e.0@, e.1)),
        }
    }
}

impl CommandRegistry {
    pub fn new() -> (r: Self)
        ensures
            r@.requests.len() == 0,
            r@.streams.len() == 0,
    {
        CommandRegistry { request_entries: Vec::new(), stream_entries: Vec::new() }
    }

    /// Registers a request/response handler under a name not yet taken:
    /// registering a name twice is a startup-time defect, not a runtime
    /// condition, so it is excluded by precondition.
    pub fn add_request_handler(&mut self, name: String, command: RequestCommand)
        requires
            table_lookup(old(self)@.requests, name@) is None,
        ensures
            final(self)@.requests == old(self)@.requests.push((name@, command)),
            final(self)@.streams == old(self)@.streams,
    {
        let ghost nv = name@;
        self.request_entries.push((name, command));
        proof {
            assert(self@.requests =~= old(self)@.requests.push((nv, command)));
            assert(self@.streams =~= old(self)@.streams);
        }
    }

    /// Registers a request/stream handler under a name not yet taken.
    pub fn add_stream_handler(&mut self, name: String, command: StreamCommand)
        requires
            table_lookup(old(self)@.streams, name@) is None,
        ensures
            final(self)@.streams == old(self)@.streams.push((name@, command)),
            final(self)@.requests == old(self)@.requests,
    {
        let ghost nv = name@;
        self.stream_entries.push((name, command));
        proof {
            assert(self@.streams =~= old(self)@.streams.push((nv, command)));
            assert(self@.requests =~= old(self)@.requests);
        }
    }

    /// Resolves a command name to its request/response handler.
    pub fn lookup_request(&self, name: &String) -> (r: Option<RequestCommand>)
        ensures
            r == table_lookup(self@.requests, name@),
    {
        let n = self.request_entries.len();
        let mut i: usize = 0;
        while i < n
            invariant
                n == self.request_entries@.len(),
                0 <= i <= n,
                forall|p: int| 0 <= p < i ==> (#[trigger] self@.requests[p].0) != name@,
            decreases n - i,
        {
            if self.request_entries[i].0 == *name {
                proof {
                    lemma_table_lookup_at(self@.requests, name@, i as int);
                }
                return Some(self.request_entries[i].1);
            }
            i = i + 1;
        }
        proof {
            lemma_table_lookup_none(self@.requests, name@);
        }
        None
    }

    /// Resolves a command name to its request/stream handler.
    pub fn lookup_stream(&self, name: &String) -> (r: Option<StreamCommand>)
        ensures
            r == table_lookup(self@.streams, name@),
    {
        let n = self.stream_entries.len();
        let mut i: usize = 0;
        while i < n
            invariant
                n == self.stream_entries@.len(),
                0 <= i <= n,
                forall|p: int| 0 <= p < i ==> (#[trigger] self@.streams[p].0) != name@,
            decreases n - i,
        {
            if self.stream_entries[i].0 == *name {
                proof {
                    lemma_table_lookup_at(self@.streams, name@, i as int);
                }
                return Some(self.stream_entries[i].1);
            }
            i = i + 1;
        }
        proof {
            lemma_table_lookup_none(self@.streams, name@);
        }
        None
    }
}

/// Whether a registry holds exactly the command surface this server
/// speaks, each stable name bound to its handler.
pub open spec fn default_tables_loaded(reg: RegistryModel) -> bool {
    &&& table_lookup(reg.requests, "GetCurUser"@) == Some(RequestCommand::GetCurUser)
    &&& table_lookup(reg.requests, "ChangeCurUserName"@) == Some(RequestCommand::ChangeCurUserName)
    &&& table_lookup(reg.requests, "CreateRoom"@) == Some(RequestCommand::CreateRoom)
    &&& table_lookup(reg.requests, "ListRoomSimpleInfo"@) == Some(
        RequestCommand::ListRoomSimpleInfo,
    )
    &&& table_lookup(reg.requests, "LeaveRoom"@) == Some(RequestCommand::LeaveRoom)
    &&& table_lookup(reg.requests, "EnterRoom"@) == Some(RequestCommand::EnterRoom)
    &&& table_lookup(reg.requests, "ChangeGameConfig"@) == Some(RequestCommand::ChangeGameConfig)
    &&& table_lookup(reg.streams, "AllRoomSimpleInfoStream"@) == Some(
        StreamCommand::AllRoomSimpleInfo,
    )
    &&& table_lookup(reg.streams, "RoomDetailedInfoStream"@) == Some(
        StreamCommand::RoomDetailedInfo,
    )
}

/// Builds the registry of every command the server serves, as the process
/// does once at startup.
pub fn init_global_handlers() -> (r: CommandRegistry)
    ensures
        default_tables_loaded(r@),
{
    let mut r = CommandRegistry::new();
    proof {
        reveal_strlit("GetCurUser");
        reveal_strlit("ChangeCurUserName");
        reveal_strlit("CreateRoom");
        reveal_strlit("ListRoomSimpleInfo");
        reveal_strlit("LeaveRoom");
        reveal_strlit("EnterRoom");
        reveal_strlit("ChangeGameConfig");
        reveal_strlit("AllRoomSimpleInfoStream");
        reveal_strlit("RoomDetailedInfoStream");
        assert("GetCurUser"@ != "CreateRoom"@) by {
            assert("GetCurUser"@[0] == 'G');
            assert("CreateRoom"@[0] == 'C');
        }
        assert("LeaveRoom"@ != "EnterRoom"@) by {
            assert("LeaveRoom"@[0] == 'L');
            assert("EnterRoom"@[0] == 'E');
        }
    }
    r.add_request_handler(String::from_str("GetCurUser"), RequestCommand::GetCurUser);
    proof {
        let rq = r@.requests;
        assert forall|p: int| 0 <= p < rq.len() implies (#[trigger] rq[p].0) != "ChangeCurUserName"@ by {
            if p == 0 {
                assert(rq[0].0 == "GetCurUser"@);
            }
        }
        lemma_table_lookup_none(rq, "ChangeCurUserName"@);
    }
    r.add_request_handler(String::from_str("ChangeCurUserName"), RequestCommand::ChangeCurUserName);
    proof {
        let rq = r@.requests;
        assert forall|p: int| 0 <= p < rq.len() implies (#[trigger] rq[p].0) != "CreateRoom"@ by {
            if p == 0 {
                assert(rq[0].0 == "GetCurUser"@);
            }
            else if p == 1 {
                assert(rq[1].0 == "ChangeCurUserName"@);
            }
        }
        lemma_table_lookup_none(rq, "CreateRoom"@);
    }
    r.add_request_handler(String::from_str("CreateRoom"), RequestCommand::CreateRoom);
    proof {
        let rq = r@.requests;
        assert forall|p: int| 0 <= p < rq.len() implies (#[trigger] rq[p].0) != "ListRoomSimpleInfo"@ by {
            if p == 0 {
                assert(rq[0].0 == "GetCurUser"@);
            }
            else if p == 1 {
                assert(rq[1].0 == "ChangeCurUserName"@);
            }
            else if p == 2 {
                assert(rq[2].0 == "CreateRoom"@);
            }
        }
        lemma_table_lookup_none(rq, "ListRoomSimpleInfo"@);
    }
    r.add_request_handler(String::from_str("ListRoomSimpleInfo"), RequestCommand::ListRoomSimpleInfo);
    proof {
        let rq = r@.requests;
        assert forall|p: int| 0 <= p < rq.len() implies (#[trigger] rq[p].0) != "LeaveRoom"@ by {
            if p == 0 {
                assert(rq[0].0 == "GetCurUser"@);
            }
            else if p == 1 {
                assert(rq[1].0 == "ChangeCurUserName"@);
            }
            else if p == 2 {
                assert(rq[2].0 == "CreateRoom"@);
            }
            else if p == 3 {
                assert(rq[3].0 == "ListRoomSimpleInfo"@);
            }
        }
        lemma_table_lookup_none(rq, "LeaveRoom"@);
    }
    r.add_request_handler(String::from_str("LeaveRoom"), RequestCommand::LeaveRoom);
    proof {
        let rq = r@.requests;
        assert forall|p: int| 0 <= p < rq.len() implies (#[trigger] rq[p].0) != "EnterRoom"@ by {
            if p == 0 {
                assert(rq[0].0 == "GetCurUser"@);
            }
            else if p == 1 {
                assert(rq[1].0 == "ChangeCurUserName"@);
            }
            else if p == 2 {
                assert(rq[2].0 == "CreateRoom"@);
            }
            else if p == 3 {
                assert(rq[3].0 == "ListRoomSimpleInfo"@);
            }
            else if p == 4 {
                assert(rq[4].0 == "LeaveRoom"@);
            }
        }
        lemma_table_lookup_none(rq, "EnterRoom"@);
    }
    r.add_request_handler(String::from_str("EnterRoom"), RequestCommand::EnterRoom);
    proof {
        let rq = r@.requests;
        assert forall|p: int| 0 <= p < rq.len() implies (#[trigger] rq[p].0) != "ChangeGameConfig"@ by {
            if p == 0 {
                assert(rq[0].0 == "GetCurUser"@);
            }
            else if p == 1 {
                assert(rq[1].0 == "ChangeCurUserName"@);
            }
            else if p == 2 {
                assert(rq[2].0 == "CreateRoom"@);
            }
            else if p == 3 {
                assert(rq[3].0 == "ListRoomSimpleInfo"@);
            }
            else if p == 4 {
                assert(rq[4].0 == "LeaveRoom"@);
            }
            else if p == 5 {
                assert(rq[5].0 == "EnterRoom"@);
            }
        }
        lemma_table_lookup_none(rq, "ChangeGameConfig"@);
    }
    r.add_request_handler(String::from_str("ChangeGameConfig"), RequestCommand::ChangeGameConfig);
    r.add_stream_handler(String::from_str("AllRoomSimpleInfoStream"), StreamCommand::AllRoomSimpleInfo);
    proof {
        let st = r@.streams;
        assert forall|p: int| 0 <= p < st.len() implies (#[trigger] st[p].0) != "RoomDetailedInfoStream"@ by {
            assert("AllRoomSimpleInfoStream"@.len() == 23);
            assert("RoomDetailedInfoStream"@.len() == 22);
            if p == 0 {
                assert(st[0].0 == "AllRoomSimpleInfoStream"@);
            }
        }
        lemma_table_lookup_none(st, "RoomDetailedInfoStream"@);
    }
    r.add_stream_handler(String::from_str("RoomDetailedInfoStream"), StreamCommand::RoomDetailedInfo);
    proof {
        let rq = r@.requests;
        lemma_table_lookup_at(rq, "GetCurUser"@, 0);
        lemma_table_lookup_at(rq, "ChangeCurUserName"@, 1);
        lemma_table_lookup_at(rq, "CreateRoom"@, 2);
        lemma_table_lookup_at(rq, "ListRoomSimpleInfo"@, 3);
        lemma_table_lookup_at(rq, "LeaveRoom"@, 4);
        lemma_table_lookup_at(rq, "EnterRoom"@, 5);
        lemma_table_lookup_at(rq, "ChangeGameConfig"@, 6);
        let st = r@.streams;
        lemma_table_lookup_at(st, "AllRoomSimpleInfoStream"@, 0);
        lemma_table_lookup_at(st, "RoomDetailedInfoStream"@, 1);
    }
    r
}

} // verus!
