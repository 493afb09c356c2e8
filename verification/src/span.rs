//! A plain-value rendering of a time span: whole seconds plus a sub-second
//! nanosecond remainder. The verified core never measures time itself; it only
//! records the configured budget and hands it back inside the timeout error.

use vstd::prelude::*;

verus! {

/// A duration as the verified core sees it: `secs` whole seconds plus `nanos`
/// nanoseconds. A well-formed span keeps `nanos` below one second.
#[derive(Clone, Copy, Debug, PartialEq, Eq, Structural)]
pub struct TimeSpan {
    pub secs: u64,
    pub nanos: u32,
}

/// Nanoseconds in one second: the bound a well-formed sub-second part obeys.
pub const NANOS_PER_SEC: u32 = 1_000_000_000;

impl TimeSpan {
    /// A well-formed span carries its sub-second part in canonical form.
    pub open spec fn wf(self) -> bool {
        self.nanos < NANOS_PER_SEC
    }

    /// A span of exactly `secs` whole seconds.
    pub fn from_secs(secs: u64) -> (r: Self)
        ensures
            r == (TimeSpan { secs, nanos: 0u32 }),
            r.wf(),
    {
        TimeSpan { secs, nanos: 0 }
    }

    /// A span of `secs` whole seconds plus `nanos` nanoseconds, which must
    /// already be in canonical form.
    pub fn from_parts(secs: u64, nanos: u32) -> (r: Self)
        requires
            nanos < NANOS_PER_SEC,
        ensures
            r == (TimeSpan { secs, nanos }),
            r.wf(),
    {
        TimeSpan { secs, nanos }
    }
}

} // verus!
