//! The two things that the library takes from its surroundings: the time of
//! day and a random number.

use vstd::prelude::*;

verus! {

/// The current time in milliseconds since the Unix epoch: the system clock
/// as `std::time::SystemTime::now` reads it, turned into a date by chrono's
/// `From<SystemTime>` for `DateTime<Utc>` and into a number by
/// `DateTime::timestamp_millis`. A clock that stands before the epoch gives
/// a negative number. Nothing is claimed of the value: two calls may return
/// anything. The conversion does not return for a clock that stands outside
/// the years that chrono can hold, some 262,000 to either side of the epoch.
#[verifier::external_body]
pub(crate) fn now_millis() -> (millis: i64) {
    chrono::DateTime::<chrono::Utc>::from(std::time::SystemTime::now()).timestamp_millis()
}

/// A number drawn by `rand::Rng::gen_range` from the thread's generator
/// (`rand::thread_rng`) over the half-open range from `low` to `high`.
/// The range must not be empty, or the call panics. The result lies in the
/// range; nothing else is claimed of it. The generator's first use in a
/// thread does not return where the operating system gives it no entropy.
#[verifier::external_body]
pub(crate) fn random_in(low: u32, high: u32) -> (n: u32)
    requires
        low < high,
    ensures
        low <= n < high,
{
    rand::Rng::gen_range(&mut rand::thread_rng(), low..high)
}

} // verus!
