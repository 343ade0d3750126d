//! The older, generic handler interface: a typed handler behind a trait,
//! with a plain data-or-error response. The registry-based dispatch in
//! [`crate::dispatch`] supersedes it; it remains for callers that wire
//! handlers up by hand.

use vstd::prelude::*;
use vstd::string::StringExecFns;
use crate::user_manager::UserManager;

verus! {

/// A typed response: the payload, or a human-readable error.
pub enum Response<T> {
    Data(T),
    Error(String),
}

/// A typed request handler, given the caller's resolved identity and the
/// user service.
pub trait Handler<RQ, RP> {
    fn handle(&self, users: &mut UserManager, request_data: RQ, uid: u32) -> (r: Response<RP>)
        requires
            old(users)@.wf(),
        ensures
            final(users)@.wf(),
    ;
}

pub struct ChangeUserNameRequestBody {
    pub new_name: String,
}

/// Renames the calling user; no length rule is applied on this path.
pub struct ChangeUserNameHandler;

impl Handler<ChangeUserNameRequestBody, ()> for ChangeUserNameHandler {
    fn handle(&self, users: &mut UserManager, request_data: ChangeUserNameRequestBody, uid: u32) -> Response<
        (),
    > {
        if users.set_nick_name(uid, request_data.new_name) {
            Response::Data(())
        } else {
            Response::Error(String::from_str("user not found"))
        }
    }
}

} // verus!
