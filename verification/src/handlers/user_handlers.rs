//! Handlers for the user commands.

use vstd::prelude::*;
use vstd::string::StrSliceExecFns;
use crate::errors::AppError;
use crate::user::User;
use crate::user_manager::UserManager;

verus! {

/// Serves `GetCurUser`: the caller's own user record.
pub struct GetCurUserHandler;

impl GetCurUserHandler {
    pub fn handle(&self, users: &UserManager, uid: u32) -> (r: Result<User, AppError>)
        requires
            users@.wf(),
        ensures
            (r is Ok) <==> users@.contains_id(uid),
            (r == Err::<User, AppError>(AppError::NotFound)) <==> !users@.contains_id(uid),
            r matches Ok(u) ==> u == users@.value_of(uid),
    {
        match users.get(uid) {
            Some(u) => Ok(u.clone()),
            None => Err(AppError::NotFound),
        }
    }
}

/// Serves `ChangeCurUserName`: replaces the caller's display name. An
/// empty name, or one longer than 10 characters, is rejected.
pub struct ChangeCurUserNameHandler;

impl ChangeCurUserNameHandler {
    pub fn handle(&self, users: &mut UserManager, uid: u32, req: String) -> (r: Result<
        (),
        AppError,
    >)
        requires
            old(users)@.wf(),
        ensures
            final(users)@.wf(),
            final(users)@.next_id == old(users)@.next_id,
            (r == Err::<(), AppError>(AppError::ValidationError)) <==> (req@.len() == 0
                || req@.len() > 10),
            (r == Err::<(), AppError>(AppError::NotFound)) <==> (1 <= req@.len() <= 10 && !old(
                users,
            )@.contains_id(uid)),
            (r is Ok) <==> (1 <= req@.len() <= 10 && old(users)@.contains_id(uid)),
            r is Err ==> final(users)@ == old(users)@,
            forall|j: u32|
                (#[trigger] final(users)@.contains_id(j)) == old(users)@.contains_id(j),
            r is Ok ==> final(users)@.value_of(uid) == (User {
                nick_name: req,
                ..old(users)@.value_of(uid)
            }),
            forall|j: u32|
                j != uid && old(users)@.contains_id(j) ==> (#[trigger] final(users)@.value_of(j))
                    == old(users)@.value_of(j),
    {
        if req.as_str().is_empty() {
            return Err(AppError::ValidationError);
        }
        if req.as_str().unicode_len() > 10 {
            return Err(AppError::ValidationError);
        }
        if users.set_nick_name(uid, req) {
            Ok(())
        } else {
            Err(AppError::NotFound)
        }
    }
}

} // verus!
