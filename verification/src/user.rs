//! The user entity: identity, reconnect token, display data.

use vstd::prelude::*;
use crate::configs::GameConfigurations;
use crate::store::WithId;

verus! {

/// A connected (or once-connected) player. Created on first connection,
/// looked up by reconnect token afterwards, and never destroyed while the
/// process lives.
#[derive(Debug, PartialEq)]
pub struct User {
    /// Store-assigned identity; stable for the user's lifetime.
    pub id: u32,
    /// Display name; mutable through the name-change command.
    pub nick_name: String,
    /// Opaque reconnect token, immutable after creation. The only
    /// authentication primitive: a reconnecting client presents it to be
    /// recognised as the same user.
    pub uuid: String,
    /// Set on each successful creation or reconnect.
    pub login_timestamp: u64,
    /// Whether the user declared themselves ready in a room.
    pub prepared: bool,
    /// The configuration the user prefers when opening a room.
    pub preferred_game_config: Option<GameConfigurations>,
}

impl WithId for User {
    open spec fn spec_id(&self) -> u32 {
        self.id
    }

    open spec fn spec_with_id(self, id: u32) -> Self {
        User {
            id,
            nick_name: self.nick_name,
            uuid: self.uuid,
            login_timestamp: self.login_timestamp,
            prepared: self.prepared,
            preferred_game_config: self.preferred_game_config,
        }
    }

    proof fn lemma_with_id(self, id: u32) {
    }

    fn id(&self) -> u32 {
        self.id
    }

    fn set_id(&mut self, id: u32) {
        self.id = id;
    }
}

impl Clone for User {
    fn clone(&self) -> (r: Self)
        ensures
            r == *self,
    {
        User {
            id: self.id,
            nick_name: self.nick_name.clone(),
            uuid: self.uuid.clone(),
            login_timestamp: self.login_timestamp,
            prepared: self.prepared,
            preferred_game_config: self.preferred_game_config,
        }
    }
}

impl Default for User {
    /// A blank user. The application layer fills in a generated nickname and
    /// a fresh reconnect token when it creates a real one (see
    /// [`crate::user_manager::UserManager::create_user`]).
    fn default() -> (r: Self)
        ensures
            r.id == 0,
            r.nick_name@ == Seq::<char>::empty(),
            r.uuid@ == Seq::<char>::empty(),
            r.login_timestamp == 0,
            !r.prepared,
            r.preferred_game_config is None,
    {
        User {
            id: 0,
            nick_name: String::new(),
            uuid: String::new(),
            login_timestamp: 0,
            prepared: false,
            preferred_game_config: None,
        }
    }
}

} // verus!
