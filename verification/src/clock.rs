//! Wall-clock measurement: the monotonic clock of the standard library, and
//! the text of an elapsed time. Nothing in this file is proved. A reading
//! of the clock is not a function of anything the library knows, so nothing
//! is claimed of it; the text of a duration is a function of the duration
//! alone, and has a name.

use vstd::prelude::*;

verus! {

/// `std::time::Instant`, a reading of the monotonic clock. The library only
/// carries such a value from the start of a measurement to its end.
#[verifier::external_type_specification]
#[verifier::external_body]
pub struct ExInstant(std::time::Instant);

/// The text that the standard library's `{:.2?}` writes for a duration of
/// `secs` whole seconds and `nanos` nanoseconds more: the number with two
/// decimal places, followed by a unit picked by the magnitude.
pub uninterp spec fn duration_format(secs: u64, nanos: u32) -> Seq<char>;

/// `Instant::now` reads the monotonic clock. Nothing is claimed of the
/// reading.
pub assume_specification[ std::time::Instant::now ]() -> (now: std::time::Instant)
;

/// `Instant::elapsed` gives the time that has passed since the reading was
/// taken. Nothing is claimed of its length.
pub assume_specification[ std::time::Instant::elapsed ](start: &std::time::Instant) -> (elapsed:
    std::time::Duration)
;

/// `Duration::as_secs` gives the whole seconds of a duration. Nothing is
/// claimed of their number.
pub assume_specification[ std::time::Duration::as_secs ](duration: &std::time::Duration) -> (secs:
    u64)
;

/// `Duration::subsec_nanos` gives the part of a duration beyond its whole
/// seconds, in nanoseconds: always less than a second.
pub assume_specification[ std::time::Duration::subsec_nanos ](
    duration: &std::time::Duration,
) -> (nanos: u32)
    ensures
        nanos < 1_000_000_000,
;

/// Formats the duration of `secs` seconds and `nanos` nanoseconds with
/// `{:.2?}`. The claim is that the text depends on the two numbers alone.
/// With `nanos` below a second, `Duration::new` carries nothing over and does
/// not panic.
#[verifier::external_body]
pub(crate) fn duration_text(secs: u64, nanos: u32) -> (text: String)
    requires
        nanos < 1_000_000_000,
    ensures
        text@ == duration_format(secs, nanos),
{
    format!("{:.2?}", std::time::Duration::new(secs, nanos))
}

} // verus!
