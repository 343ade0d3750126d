//! The user service: creation, token lookup, display-name updates.

use vstd::prelude::*;
use crate::store::{EntityStore, StoreModel, WithId};
use crate::user::User;

verus! {

/// Relies on `uuid::Uuid::new_v4` and its `Display` form: a fresh random
/// version-4 UUID, rendered hyphenated as exactly 36 characters. The value
/// is random; nothing more can be promised of it.
#[verifier::external_body]
fn fresh_token() -> (r: String)
    ensures
        r@.len() == 36,
{
    uuid::Uuid::new_v4().to_string()
}

/// One process-wide store of users. The surrounding application constructs
/// it once and serializes access to it.
pub struct UserManager {
    store: EntityStore<User>,
}

impl View for UserManager {
    type V = StoreModel<User>;

    closed spec fn view(&self) -> StoreModel<User> {
        self.store@
    }
}

impl UserManager {
    pub fn new() -> (r: Self)
        ensures
            r@.wf(),
            r@.next_id == 0,
            r@.entries.len() == 0,
    {
        UserManager { store: EntityStore::new() }
    }

    pub fn next_id(&self) -> (r: u32)
        ensures
            r == self@.next_id,
    {
        self.store.next_id()
    }

    pub fn len(&self) -> (r: usize)
        ensures
            r == self@.entries.len(),
    {
        self.store.len()
    }

    pub fn all(&self) -> (r: &Vec<User>)
        ensures
            r@ == self@.entries,
    {
        self.store.all()
    }

    pub fn contains_id(&self, id: u32) -> (r: bool)
        requires
            self@.wf(),
        ensures
            r == self@.contains_id(id),
    {
        self.store.contains(id)
    }

    pub fn get(&self, id: u32) -> (r: Option<&User>)
        requires
            self@.wf(),
        ensures
            match r {
                Some(u) => self@.contains_id(id) && *u == self@.value_of(id),
                None => !self@.contains_id(id),
            },
    {
        self.store.get(id)
    }

    /// Stores a user as given, assigning it the next id.
    pub fn add(&mut self, t: User) -> (r: u32)
        requires
            old(self)@.wf(),
            old(self)@.next_id < u32::MAX,
        ensures
            (final(self)@, r) == old(self)@.insert(t),
            final(self)@.wf(),
            r == old(self)@.next_id,
            final(self)@.contains_id(r),
            final(self)@.value_of(r) == t.spec_with_id(r),
            forall|j: u32|
                j != r ==> (#[trigger] final(self)@.contains_id(j)) == old(self)@.contains_id(j),
            forall|j: u32|
                j != r && old(self)@.contains_id(j) ==> (#[trigger] final(self)@.value_of(j))
                    == old(self)@.value_of(j),
    {
        self.store.insert(t)
    }

    /// Creates a user with the given display data and a known reconnect
    /// token, and returns the assigned id.
    pub fn create_user_with_token(
        &mut self,
        nick_name: String,
        token: String,
        login_timestamp: u64,
    ) -> (r: u32)
        requires
            old(self)@.wf(),
            old(self)@.next_id < u32::MAX,
        ensures
            (final(self)@, r) == old(self)@.insert(
                User {
                    id: 0,
                    nick_name,
                    uuid: token,
                    login_timestamp,
                    prepared: false,
                    preferred_game_config: None,
                },
            ),
            final(self)@.wf(),
            r == old(self)@.next_id,
            final(self)@.contains_id(r),
            final(self)@.value_of(r) == (User {
                id: r,
                nick_name,
                uuid: token,
                login_timestamp,
                prepared: false,
                preferred_game_config: None,
            }),
            forall|j: u32|
                j != r ==> (#[trigger] final(self)@.contains_id(j)) == old(self)@.contains_id(j),
            forall|j: u32|
                j != r && old(self)@.contains_id(j) ==> (#[trigger] final(self)@.value_of(j))
                    == old(self)@.value_of(j),
    {
        let u = User {
            id: 0,
            nick_name,
            uuid: token,
            login_timestamp,
            prepared: false,
            preferred_game_config: None,
        };
        self.store.insert(u)
    }

    /// Creates a user with a freshly generated random reconnect token, and
    /// returns the assigned id. Only the token is left open by the
    /// contract: it is random.
    pub fn create_user(&mut self, nick_name: String, login_timestamp: u64) -> (r: u32)
        requires
            old(self)@.wf(),
            old(self)@.next_id < u32::MAX,
        ensures
            final(self)@.wf(),
            r == old(self)@.next_id,
            final(self)@.next_id == old(self)@.next_id + 1,
            final(self)@.contains_id(r),
            ({
                let u = final(self)@.value_of(r);
                &&& u.id == r
                &&& u.nick_name == nick_name
                &&& u.login_timestamp == login_timestamp
                &&& !u.prepared
                &&& u.preferred_game_config is None
                &&& u.uuid@.len() == 36
            }),
            final(self)@.entries == old(self)@.entries.push(final(self)@.value_of(r)),
            forall|j: u32|
                j != r ==> (#[trigger] final(self)@.contains_id(j)) == old(self)@.contains_id(j),
            forall|j: u32|
                j != r && old(self)@.contains_id(j) ==> (#[trigger] final(self)@.value_of(j))
                    == old(self)@.value_of(j),
    {
        let token = fresh_token();
        self.create_user_with_token(nick_name, token, login_timestamp)
    }

    /// Looks a user up by reconnect token.
    pub fn find_user_by_uuid(&self, token: &String) -> (r: Option<&User>)
        requires
            self@.wf(),
        ensures
            match r {
                Some(u) => self@.contains_id(u.id) && *u == self@.value_of(u.id) && u.uuid@
                    == token@,
                None => forall|i: int|
                    0 <= i < self@.entries.len() ==> (#[trigger] self@.entries[i].uuid@) != token@,
            },
    {
        let all = self.store.all();
        let n = all.len();
        let mut i: usize = 0;
        while i < n
            invariant
                self@.wf(),
                all@ == self@.entries,
                n == all@.len(),
                0 <= i <= n,
                forall|p: int| 0 <= p < i ==> (#[trigger] self@.entries[p].uuid@) != token@,
            decreases n - i,
        {
            if all[i].uuid == *token {
                proof {
                    self@.lemma_found_is_value(self@.entries[i as int].id, i as int);
                }
                return Some(&all[i]);
            }
            i = i + 1;
        }
        None
    }

    /// The first user the predicate accepts, in an iteration order the
    /// store does not promise.
    pub fn find_first<F: Fn(&User) -> bool>(&self, f: F) -> (r: Option<&User>)
        requires
            forall|t: &User| #[trigger] f.requires((t,)),
        ensures
            match r {
                Some(v) => exists|i: int|
                    0 <= i < self@.entries.len() && (#[trigger] self@.entries[i]) == *v
                        && f.ensures((&self@.entries[i],), true),
                None => forall|i: int|
                    0 <= i < self@.entries.len() ==> f.ensures(
                        (&(#[trigger] self@.entries[i]),),
                        false,
                    ),
            },
    {
        let r = self.store.find(f);
        proof {
            assert(self@.entries == self.store@.entries);
        }
        r
    }

    /// Replaces a user's display name; reports whether the user exists.
    pub fn set_nick_name(&mut self, id: u32, name: String) -> (r: bool)
        requires
            old(self)@.wf(),
        ensures
            final(self)@.wf(),
            r == old(self)@.contains_id(id),
            final(self)@.next_id == old(self)@.next_id,
            forall|j: u32| (#[trigger] final(self)@.contains_id(j)) == old(self)@.contains_id(j),
            r ==> final(self)@.value_of(id) == (User {
                nick_name: name,
                ..old(self)@.value_of(id)
            }),
            forall|j: u32|
                j != id && old(self)@.contains_id(j) ==> (#[trigger] final(self)@.value_of(j))
                    == old(self)@.value_of(j),
            !r ==> final(self)@ == old(self)@,
    {
        if !self.store.contains(id) {
            return false;
        }
        let ghost m0 = self.store@;
        let u = self.store.borrow_mut(id);
        u.nick_name = name;
        proof {
            m0.lemma_update_properties(
                m0.index_of(id),
                User { nick_name: name, ..m0.value_of(id) },
            );
        }
        true
    }

    /// Sets a user's login timestamp (on creation or reconnect); reports
    /// whether the user exists.
    pub fn set_login_timestamp(&mut self, id: u32, login_timestamp: u64) -> (r: bool)
        requires
            old(self)@.wf(),
        ensures
            final(self)@.wf(),
            r == old(self)@.contains_id(id),
            final(self)@.next_id == old(self)@.next_id,
            forall|j: u32| (#[trigger] final(self)@.contains_id(j)) == old(self)@.contains_id(j),
            r ==> final(self)@.value_of(id) == (User {
                login_timestamp,
                ..old(self)@.value_of(id)
            }),
            forall|j: u32|
                j != id && old(self)@.contains_id(j) ==> (#[trigger] final(self)@.value_of(j))
                    == old(self)@.value_of(j),
            !r ==> final(self)@ == old(self)@,
    {
        if !self.store.contains(id) {
            return false;
        }
        let ghost m0 = self.store@;
        let u = self.store.borrow_mut(id);
        u.login_timestamp = login_timestamp;
        proof {
            m0.lemma_update_properties(
                m0.index_of(id),
                User { login_timestamp, ..m0.value_of(id) },
            );
        }
        true
    }

    /// Removes the user with the id, if any. The room core never calls
    /// this: a user lives as long as the process.
    pub fn remove_id(&mut self, id: u32)
        requires
            old(self)@.wf(),
        ensures
            final(self)@ == old(self)@.remove_id(id),
            final(self)@.wf(),
            !final(self)@.contains_id(id),
            forall|j: u32|
                j != id ==> (#[trigger] final(self)@.contains_id(j)) == old(self)@.contains_id(j),
            forall|j: u32|
                j != id && old(self)@.contains_id(j) ==> (#[trigger] final(self)@.value_of(j))
                    == old(self)@.value_of(j),
    {
        self.store.remove(id)
    }
}

} // verus!
