//! The two clocks that date a measurement. Their readings come from the
//! operating system, so nothing is promised of them beyond their types.
use std::time::{Duration, Instant, SystemTime};
use vstd::prelude::*;

verus! {

#[verifier::external_type_specification]
#[verifier::external_body]
pub struct ExInstant(std::time::Instant);

#[verifier::external_type_specification]
#[verifier::external_body]
pub struct ExSystemTime(std::time::SystemTime);

/// Relies on Instant::now: reads the monotonic clock.
pub assume_specification[ Instant::now ]() -> Instant;

/// Relies on SystemTime::now: reads the wall clock.
pub assume_specification[ SystemTime::now ]() -> SystemTime;

/// Relies on Duration::from_secs: a span of whole seconds; it never panics.
pub assume_specification[ Duration::from_secs ](secs: u64) -> Duration;

/// Relies on Duration::as_secs: the whole seconds of a span.
pub assume_specification[ Duration::as_secs ](d: &Duration) -> u64;

/// Relies on Instant::checked_sub: an earlier instant, or `None` where the
/// platform's monotonic clock cannot go back that far.
pub assume_specification[ Instant::checked_sub ](i: &Instant, d: Duration) -> Option<Instant>;

/// Relies on SystemTime::checked_sub: an earlier time, or `None` where the
/// platform's wall clock cannot go back that far.
pub assume_specification[ SystemTime::checked_sub ](t: &SystemTime, d: Duration) -> Option<SystemTime>;

/// Relies on Instant::saturating_duration_since: the span from `earlier` to
/// `i`, zero where `earlier` is the later one; it never panics.
pub assume_specification[ Instant::saturating_duration_since ](i: &Instant, earlier: Instant) -> Duration;

} // verus!
