//! The library's only window onto the outside world: reading the wall clock.
//!
//! Nothing can be promised about what time the clock reports, so these
//! wrappers state almost nothing; the verified code in the crate root takes
//! the sampled values as arguments and is proved for every possible reading.

use vstd::prelude::*;

verus! {

#[verifier::external_type_specification]
#[verifier::external_body]
pub struct ExSystemTime(std::time::SystemTime);

#[verifier::external_type_specification]
#[verifier::external_body]
pub struct ExSystemTimeError(std::time::SystemTimeError);

/// Relies on std::time::SystemTime::now: the current wall-clock reading,
/// about which nothing can be assumed.
#[verifier::external_body]
pub(crate) fn system_time_now() -> std::time::SystemTime {
    std::time::SystemTime::now()
}

/// Relies on std::time::SystemTime::duration_since: the elapsed time since
/// the Unix epoch, or an error if the reading lies before the epoch.
#[verifier::external_body]
pub(crate) fn duration_since_epoch(t: &std::time::SystemTime) -> Result<
    std::time::Duration,
    std::time::SystemTimeError,
> {
    t.duration_since(std::time::UNIX_EPOCH)
}

/// Relies on std::time::SystemTimeError::duration: the magnitude of a
/// before-the-epoch offset, recovered as a plain duration.
#[verifier::external_body]
pub(crate) fn error_duration(e: &std::time::SystemTimeError) -> std::time::Duration {
    e.duration()
}

/// Relies on std::time::Duration::as_secs: the whole-second part of a
/// duration.
#[verifier::external_body]
pub(crate) fn duration_as_secs(d: &std::time::Duration) -> u64 {
    d.as_secs()
}

/// Relies on std::time::Duration::subsec_nanos: the fractional part of a
/// duration in nanoseconds, documented to be below one billion.
#[verifier::external_body]
pub(crate) fn duration_subsec_nanos(d: &std::time::Duration) -> (r: u32)
    ensures
        r < 1_000_000_000u32,
{
    d.subsec_nanos()
}

} // verus!
