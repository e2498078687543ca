//! The system clock, read by TOTP verification when it is given no timestamp.
use crate::error::ThotpError;
use vstd::prelude::*;

verus! {

/// Relies on `std::time::UNIX_EPOCH.elapsed()`: the time from the epoch to
/// now, or an error where the clock stands before the epoch. Nothing is
/// promised of the value read.
#[verifier::external_body]
pub(crate) fn since_epoch() -> (r: Result<core::time::Duration, ThotpError>)
    ensures
        r is Err ==> r->Err_0 == ThotpError::ClockError,
{
    match std::time::UNIX_EPOCH.elapsed() {
        Ok(d) => Ok(d),
        Err(_) => Err(ThotpError::ClockError),
    }
}

/// Relies on `Duration::as_secs`: the whole seconds of a duration.
pub assume_specification[ core::time::Duration::as_secs ](d: &core::time::Duration) -> u64;

} // verus!
