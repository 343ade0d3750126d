//! Small conversion helpers.

use vstd::prelude::*;
use crate::errors::AppError;

verus! {

/// Turns an optional value into a result, reading absence as `NotFound`.
pub trait IntoResult<T>: Sized {
    spec fn spec_into_result(self) -> Result<T, AppError>;

    fn into_result(self) -> (r: Result<T, AppError>)
        ensures
            r == self.spec_into_result(),
    ;
}

impl<T> IntoResult<T> for Option<T> {
    open spec fn spec_into_result(self) -> Result<T, AppError> {
        match self {
            Some(t) => Ok(t),
            None => Err(AppError::NotFound),
        }
    }

    fn into_result(self) -> (r: Result<T, AppError>) {
        match self {
            Some(t) => Ok(t),
            None => Err(AppError::NotFound),
        }
    }
}

} // verus!
