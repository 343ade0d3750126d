//! Small helpers around the machine clock.

use vstd::prelude::*;

verus! {

/// Relies on `std::time::SystemTime::now` and
/// `SystemTime::duration_since(UNIX_EPOCH)`: seconds since the Unix epoch by
/// the machine's clock, or 0 if the clock reads before the epoch. Nothing
/// can be promised of the value: it depends on when and where it runs.
#[verifier::external_body]
pub fn cur_timestamp() -> u64 {
    match std::time::SystemTime::now().duration_since(std::time::UNIX_EPOCH) {
        Ok(d) => d.as_secs(),
        Err(_) => 0,
    }
}

} // verus!
