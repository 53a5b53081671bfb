//! The current time as whole seconds since the Unix epoch.

use crate::error::AuthError;
use vstd::prelude::*;

verus! {

#[verifier::external_type_specification]
#[verifier::external_body]
pub struct ExSystemTime(std::time::SystemTime);

/// `SystemTime::now()`: reads the system clock, so nothing is stated of it.
#[verifier::external_body]
fn system_now() -> (r: std::time::SystemTime) {
    std::time::SystemTime::now()
}

/// `SystemTime::duration_since(UNIX_EPOCH)`, in whole seconds; `None` when the
/// time lies before the epoch. A `SystemTime` is opaque here, so nothing is
/// stated of the result.
#[verifier::external_body]
fn seconds_since_epoch(t: std::time::SystemTime) -> (r: Option<u64>) {
    t.duration_since(std::time::UNIX_EPOCH).ok().map(|d| d.as_secs())
}

/// Converts a reading of the clock into a signed timestamp: a clock before the
/// epoch, or one too far in the future for `i64`, is an internal error.
pub fn timestamp_from_unix_seconds(seconds: Option<u64>) -> (r: Result<i64, AuthError>)
    ensures
        match seconds {
            Some(s) => if s <= i64::MAX {
                r == Ok::<i64, AuthError>(s as i64)
            } else {
                r == Err::<i64, AuthError>(AuthError::Internal)
            },
            None => r == Err::<i64, AuthError>(AuthError::Internal),
        },
{
    match seconds {
        Some(s) => {
            if s <= i64::MAX as u64 {
                Ok(s as i64)
            } else {
                Err(AuthError::Internal)
            }
        },
        None => Err(AuthError::Internal),
    }
}

/// The current time in whole seconds since the Unix epoch.
pub fn current_unix_timestamp_seconds() -> (r: Result<i64, AuthError>)
    ensures
        r matches Ok(t) ==> t >= 0,
        r matches Err(e) ==> e == AuthError::Internal,
{
    timestamp_from_unix_seconds(seconds_since_epoch(system_now()))
}

} // verus!
