//! Wait conditions for long-running instrument operations.
//!
//! A wait condition either bounds the running time of an operation or the
//! number of its iterations. Time spans are carried as a total count of
//! nanoseconds; [`split_nanos`] recovers the whole-second and
//! subsecond parts that the boundary layer needs to rebuild a native
//! duration value.

use vstd::prelude::*;

verus! {

/// Nanoseconds per millisecond.
pub const NANOS_PER_MILLI: u128 = 1_000_000;

/// Nanoseconds per second.
pub const NANOS_PER_SEC: u128 = 1_000_000_000;

/// The largest time span, in nanoseconds, whose whole-second part still
/// fits a 64-bit count of seconds.
pub const MAX_SPAN_NANOS: u128 = 0xffff_ffff_ffff_ffff * 1_000_000_000 + 999_999_999;

/// Termination condition for a long-running operation: a span of time or
/// a number of iterations.
#[derive(Clone, Copy, Debug, PartialEq, Eq, Structural)]
pub enum WaitFor {
    /// Wait for the given span of time, in nanoseconds
    Time { nanos: u128 },
    /// Wait for the given number of iterations
    Iterations { iters: usize },
}

impl WaitFor {
    /// A wait condition for the given number of nanoseconds.
    pub fn from_nanos(nanos: u64) -> (r: WaitFor)
        ensures
            r == (WaitFor::Time { nanos: nanos as u128 }),
            r.splittable(),
    {
        WaitFor::Time { nanos: nanos as u128 }
    }

    /// A wait condition for the given number of milliseconds.
    pub fn from_millis(millis: u64) -> (r: WaitFor)
        ensures
            r == (WaitFor::Time { nanos: (millis as u128 * NANOS_PER_MILLI) as u128 }),
            r.splittable(),
    {
        WaitFor::Time { nanos: millis as u128 * NANOS_PER_MILLI }
    }

    /// A wait condition for the given number of iterations.
    pub fn from_iterations(iters: usize) -> (r: WaitFor)
        ensures
            r == (WaitFor::Iterations { iters }),
    {
        WaitFor::Iterations { iters }
    }

    /// Whether a time span of this condition fits a pair of a 64-bit
    /// whole-second count and a subsecond nanosecond count. Every
    /// condition built by the constructors above does.
    pub open spec fn splittable(&self) -> bool {
        match self {
            WaitFor::Time { nanos } => nanos <= MAX_SPAN_NANOS,
            WaitFor::Iterations { .. } => true,
        }
    }
}

/// Splits a span of nanoseconds into whole seconds and the subsecond
/// remainder, exactly; spans whose second count overflows 64 bits are
/// rejected.
pub fn split_nanos(nanos: u128) -> (r: Option<(u64, u32)>)
    ensures
        match r {
            Some((secs, subsec)) => {
                &&& nanos <= MAX_SPAN_NANOS
                &&& subsec < NANOS_PER_SEC
                &&& secs as int * NANOS_PER_SEC as int + subsec as int == nanos as int
            },
            None => nanos > MAX_SPAN_NANOS,
        },
{
    if nanos > MAX_SPAN_NANOS {
        return None;
    }
    let secs_wide: u128 = nanos / NANOS_PER_SEC;
    let subsec_wide: u128 = nanos % NANOS_PER_SEC;
    assert(secs_wide <= 0xffff_ffff_ffff_ffff && nanos as int == secs_wide as int
        * NANOS_PER_SEC as int + subsec_wide as int) by (nonlinear_arith)
        requires
            nanos <= MAX_SPAN_NANOS,
            secs_wide == nanos / NANOS_PER_SEC,
            subsec_wide == nanos % NANOS_PER_SEC,
    ;
    Some((secs_wide as u64, subsec_wide as u32))
}

} // verus!
