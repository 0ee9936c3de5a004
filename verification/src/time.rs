//! Conversion of points in time and durations into the kernel's
//! absolute-time representation.
//!
//! The kernel bounds a timed send or receive with an absolute point in time,
//! a pair of whole seconds and nanoseconds with the nanoseconds normalized to
//! `[0, 1_000_000_000)` and counted toward positive infinity: the pair
//! `(-1, 999_999_999)` is one nanosecond before the epoch. A caller's point
//! in time is instead a distance from the epoch, with the fractional part
//! counted away from zero in both directions. The two representations
//! disagree on which way the fractional part counts for pre-epoch instants;
//! that sign flip is isolated here, and the contracts state that the
//! conversion preserves the instant exactly, measured in nanoseconds.

use vstd::prelude::*;
use crate::error::Error;
use crate::sys;

verus! {

/// Nanoseconds in a second.
pub const NANOS_PER_SEC: u32 = 1_000_000_000;

/// The saturation value for a point in the far past: one above the seconds
/// field's minimum, kept clear of the minimum itself to avoid negation bugs.
pub const SEC_SATURATED_PAST: i64 = i64::MIN + 1;

/// A span of time: whole seconds plus a sub-second remainder, like the
/// standard library's duration type.
#[derive(Clone, Copy, Debug, PartialEq, Eq, Structural)]
pub struct TimeSpan {
    /// Whole seconds.
    pub secs: u64,
    /// Sub-second remainder, below one billion.
    pub nanos: u32,
}

impl TimeSpan {
    /// The sub-second part must be normalized.
    pub open spec fn wf(&self) -> bool {
        self.nanos < 1_000_000_000
    }

    /// The span measured in nanoseconds.
    pub open spec fn as_nanos(&self) -> int {
        self.secs * 1_000_000_000 + self.nanos
    }
}

/// A point in time, as a distance from the epoch: whole seconds plus a
/// sub-second remainder counted away from the epoch, on either side of it.
#[derive(Clone, Copy, Debug, PartialEq, Eq, Structural)]
pub struct Timestamp {
    /// Whether the point lies before the epoch.
    pub before_epoch: bool,
    /// Whole seconds between the epoch and the point.
    pub secs: u64,
    /// Sub-second remainder, below one billion, counted away from the epoch.
    pub nanos: u32,
}

impl Timestamp {
    /// The sub-second part must be normalized.
    pub open spec fn wf(&self) -> bool {
        self.nanos < 1_000_000_000
    }

    /// The signed distance from the epoch, in nanoseconds.
    pub open spec fn as_nanos(&self) -> int {
        if self.before_epoch {
            -(self.secs * 1_000_000_000 + self.nanos)
        } else {
            self.secs * 1_000_000_000 + self.nanos
        }
    }
}

/// An absolute point in time in the kernel's representation: seconds since
/// the epoch, possibly negative, plus nanoseconds counted toward positive
/// infinity.
#[derive(Clone, Copy, Debug, PartialEq, Eq, Structural)]
pub struct Timespec {
    /// Whole seconds since the epoch; negative before it.
    pub sec: i64,
    /// Nanoseconds, in `[0, 1_000_000_000)`, counted toward positive
    /// infinity also for points before the epoch.
    pub nsec: i64,
}

impl Timespec {
    /// The nanosecond field must be normalized and non-negative.
    pub open spec fn wf(&self) -> bool {
        0 <= self.nsec < 1_000_000_000
    }

    /// The signed distance from the epoch, in nanoseconds.
    pub open spec fn as_nanos(&self) -> int {
        self.sec * 1_000_000_000 + self.nsec
    }
}

/// The earliest instant a well-formed kernel pair can express, in
/// nanoseconds from the epoch.
pub open spec fn timespec_min_nanos() -> int {
    i64::MIN * 1_000_000_000
}

/// The latest instant a well-formed kernel pair can express, in nanoseconds
/// from the epoch.
pub open spec fn timespec_max_nanos() -> int {
    i64::MAX * 1_000_000_000 + 999_999_999
}

/// Convert a point in time into the kernel's absolute-time pair.
///
/// A representable point converts exactly, re-expressing the sub-second part
/// of a pre-epoch point as counting toward positive infinity. A point beyond
/// the kernel's range comes back as `Err` holding the nearest representable
/// value: the type's maximum for the far future, one above its minimum for
/// the far past, so a caller may treat it as an effectively infinite
/// deadline.
pub fn deadline_to_realtime(deadline: Timestamp) -> (r: Result<Timespec, Timespec>)
    requires
        deadline.wf(),
    ensures
        r is Ok <==> timespec_min_nanos() <= deadline.as_nanos() <= timespec_max_nanos(),
        r is Ok ==> r->Ok_0.wf() && r->Ok_0.as_nanos() == deadline.as_nanos(),
        r is Err ==> r->Err_0.wf(),
        r is Err && deadline.as_nanos() > 0 ==> r->Err_0 == (Timespec { sec: i64::MAX, nsec: 0 }),
        r is Err && deadline.as_nanos() < 0 ==> r->Err_0 == (Timespec {
            sec: SEC_SATURATED_PAST,
            nsec: 0,
        }),
{
    if !deadline.before_epoch {
        if deadline.secs > i64::MAX as u64 {
            Err(Timespec { sec: i64::MAX, nsec: 0 })
        } else {
            Ok(Timespec { sec: deadline.secs as i64, nsec: deadline.nanos as i64 })
        }
    } else {
        let limit: u64 = (i64::MAX as u64) + 1;
        if deadline.secs > limit || (deadline.secs == limit && deadline.nanos > 0) {
            Err(Timespec { sec: SEC_SATURATED_PAST, nsec: 0 })
        } else if deadline.nanos == 0 {
            let sec: i64 = if deadline.secs == limit {
                i64::MIN
            } else {
                -(deadline.secs as i64)
            };
            Ok(Timespec { sec, nsec: 0 })
        } else {
            let sec: i64 = -(deadline.secs as i64) - 1;
            let nsec: i64 = 1_000_000_000i64 - deadline.nanos as i64;
            Ok(Timespec { sec, nsec })
        }
    }
}

/// Turn a relative span from `now` into the kernel's absolute pair.
///
/// Fails with [`Error::InvalidInput`] exactly when the span's seconds do not
/// fit the kernel's signed seconds field, or the addition to `now` would
/// leave it: a deadline produced by wrapping would lie nonsensically in the
/// past, so it is rejected rather than saturated.
pub fn timeout_to_abs(now: Timespec, timeout: TimeSpan) -> (r: Result<Timespec, Error>)
    requires
        now.wf(),
        timeout.wf(),
    ensures
        r is Ok <==> timeout.secs <= i64::MAX && now.as_nanos() + timeout.as_nanos()
            <= timespec_max_nanos(),
        r is Ok ==> r->Ok_0.wf() && r->Ok_0.as_nanos() == now.as_nanos() + timeout.as_nanos(),
        r is Err ==> r->Err_0 == Error::InvalidInput,
{
    if timeout.secs > i64::MAX as u64 {
        return Err(Error::InvalidInput);
    }
    let t: i64 = timeout.secs as i64;
    let nsum: i64 = now.nsec + timeout.nanos as i64;
    let carry: i64 = nsum / 1_000_000_000;
    let nsec: i64 = nsum % 1_000_000_000;
    proof {
        assert(nsum == carry * 1_000_000_000 + nsec);
        assert(0 <= carry <= 1);
        assert(0 <= nsec < 1_000_000_000);
    }
    if now.sec > i64::MAX - t - carry {
        Err(Error::InvalidInput)
    } else {
        let sec: i64 = now.sec + t + carry;
        proof {
            assert(sec * 1_000_000_000 + nsec == now.as_nanos() + timeout.as_nanos())
                by (nonlinear_arith)
                requires
                    sec == now.sec + t + carry,
                    nsum == carry * 1_000_000_000 + nsec,
                    nsum == now.nsec + timeout.nanos,
                    t == timeout.secs,
                    now.as_nanos() == now.sec * 1_000_000_000 + now.nsec,
                    timeout.as_nanos() == timeout.secs * 1_000_000_000 + timeout.nanos,
            ;
        }
        Ok(Timespec { sec, nsec })
    }
}

/// Turn a relative span from the current wall time into the kernel's
/// absolute pair.
///
/// Reads the realtime clock and adds the span. Fails with
/// [`Error::InvalidInput`] exactly as [`timeout_to_abs`] does, and with
/// [`Error::Other`] in the never-observed case that the clock itself cannot
/// be read.
pub fn timeout_to_realtime(timeout: TimeSpan) -> (r: Result<Timespec, Error>)
    requires
        timeout.wf(),
    ensures
        r is Ok ==> r->Ok_0.wf(),
        r is Err ==> r->Err_0 == Error::InvalidInput || r->Err_0 == Error::Other,
        timeout.secs > i64::MAX ==> r == Err::<Timespec, Error>(Error::InvalidInput),
{
    if timeout.secs > i64::MAX as u64 {
        return Err(Error::InvalidInput);
    }
    let now = match sys::clock_realtime() {
        Ok(now) => now,
        Err(_) => {
            return Err(Error::Other);
        },
    };
    timeout_to_abs(now, timeout)
}

} // verus!
