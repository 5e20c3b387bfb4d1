use vstd::prelude::*;

verus! {

/// Seconds since the Unix epoch, read from `std::time::SystemTime::now`.
///
/// Nothing is stated of the value: it is whatever the system clock reads.
/// A clock set before the epoch reads as 0.
#[verifier::external_body]
pub fn unix_time_now() -> i64 {
    match std::time::SystemTime::now().duration_since(std::time::UNIX_EPOCH) {
        Ok(elapsed) => elapsed.as_secs() as i64,
        Err(_) => 0,
    }
}

} // verus!
