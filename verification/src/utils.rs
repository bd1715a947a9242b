//! Small shared utilities.

use vstd::prelude::*;

verus! {

/// Relies on std::time: SystemTime::now read against UNIX_EPOCH through
/// SystemTime::duration_since, with Duration::as_secs taking the whole
/// seconds. Returns None when the clock stands before the epoch. The result
/// depends on the system clock, so nothing is promised of it.
#[verifier::external_body]
fn unix_seconds_now() -> Option<u64> {
    match std::time::SystemTime::now().duration_since(std::time::UNIX_EPOCH) {
        Ok(d) => Some(d.as_secs()),
        Err(_) => None,
    }
}

/// Turns a clock reading into a signed timestamp: the whole seconds
/// unchanged, saturated at the largest signed value; a missing reading
/// (a clock before the epoch) reads as 0.
pub fn seconds_to_timestamp(s: Option<u64>) -> (t: i64)
    ensures
        t == match s {
            Some(v) => if v > 0x7fff_ffff_ffff_ffff { 0x7fff_ffff_ffff_ffff as int } else { v as int },
            None => 0int,
        },
{
    match s {
        Some(v) => {
            if v <= 0x7fff_ffff_ffff_ffff {
                v as i64
            } else {
                i64::MAX
            }
        },
        None => 0,
    }
}

/// Whole seconds since the Unix epoch, as a signed timestamp: the current
/// clock reading put through [`seconds_to_timestamp`], so a clock set
/// before the epoch reads as 0, one beyond the signed range saturates,
/// and the timestamp is never negative.
pub fn timestamp_now() -> (t: i64)
    ensures
        t >= 0,
{
    seconds_to_timestamp(unix_seconds_now())
}

} // verus!
