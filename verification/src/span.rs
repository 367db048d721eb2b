//! Plain model of a non-negative span of time, the form in which durations
//! (seek positions, playback progress, item lengths) run through the bridge.

use vstd::prelude::*;

verus! {

/// A non-negative span of time: whole seconds plus a sub-second nanosecond
/// part, the plain-value form of `std::time::Duration`.
#[derive(Clone, Copy, Debug, PartialEq, Eq, Structural)]
pub struct TimeSpan {
    pub secs: u64,
    pub nanos: u32,
}

impl TimeSpan {
    /// A well-formed span keeps its nanosecond part below one second, as
    /// `std::time::Duration` does.
    pub open spec fn wf(self) -> bool {
        self.nanos < 1_000_000_000
    }

    /// Whether the span fits the signed duration domain that the outbound
    /// seek command targets: `chrono::TimeDelta` caps out at `i64::MAX`
    /// milliseconds, that is 9_223_372_036_854_775 whole seconds plus
    /// 807 milliseconds.
    pub open spec fn seekable(self) -> bool {
        self.secs < 9_223_372_036_854_775 || (self.secs == 9_223_372_036_854_775
            && self.nanos <= 807_000_000)
    }
}

/// Relies on `chrono::TimeDelta::from_std`: it accepts a standard-library
/// duration exactly when the duration is at most `TimeDelta::MAX`
/// (`i64::MAX` milliseconds), and rejects a longer one.
#[verifier::external_body]
pub(crate) fn chrono_accepts(span: &TimeSpan) -> (r: bool)
    requires
        span.wf(),
    ensures
        r == span.seekable(),
{
    chrono::TimeDelta::from_std(std::time::Duration::new(span.secs, span.nanos)).is_ok()
}

} // verus!
