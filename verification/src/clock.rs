//! The current time.

use vstd::prelude::*;
use crate::model::Error;

verus! {

/// Seconds since 1970 by the system clock
/// (`SystemTime::now().duration_since(UNIX_EPOCH)`).
///
/// Trusted: nothing is claimed about the time read, only that a clock set
/// before 1970 is reported as `Error::Clock`.
#[verifier::external_body]
pub(crate) fn now() -> (r: Result<i64, Error>)
    ensures
        r matches Err(e) ==> e == Error::Clock,
{
    match std::time::SystemTime::now().duration_since(std::time::UNIX_EPOCH) {
        Ok(d) => Ok(d.as_secs() as i64),
        Err(_) => Err(Error::Clock),
    }
}

} // verus!
