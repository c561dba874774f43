//! Time: the clock of the machine, and the length of a span between two
//! readings of it.

use vstd::prelude::*;

verus! {

/// The time of the wall clock in milliseconds since the Unix epoch:
/// `chrono::Local::now()`, then `DateTime::timestamp_millis` on it. The
/// result depends on when the call is made, so nothing is promised of it.
/// (The call gives up on a machine whose clock stands before 1970, or
/// whose time zone cannot be told.)
#[verifier::external_body]
pub(crate) fn now_millis() -> (millis: i64) {
    chrono::Local::now().timestamp_millis()
}

/// The milliseconds from `start` to `end`; zero where the clock did not
/// advance.
pub open spec fn spec_elapsed_ms(start: i64, end: i64) -> u64 {
    if end > start {
        (end - start) as u64
    } else {
        0
    }
}

/// The milliseconds from the reading `start` of the clock to the reading
/// `end`; zero where the clock did not advance, or was set back.
pub fn elapsed_ms(start: i64, end: i64) -> (elapsed: u64)
    ensures
        elapsed == spec_elapsed_ms(start, end),
{
    if end > start {
        (end as i128 - start as i128) as u64
    } else {
        0
    }
}

} // verus!
