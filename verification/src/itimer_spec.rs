//! The schedule structure handed to the kernel when a timer is armed, and
//! the `(seconds, nanoseconds)` time values it is made of.

use vstd::prelude::*;

verus! {

/// A point or span of time as the kernel represents it: a signed count of
/// whole seconds and a signed count of nanoseconds.  A normalized value
/// keeps the nanosecond field in `[0, 1_000_000_000)`; the constructors
/// below only produce normalized values, but the fields are public and the
/// kernel is the final judge of what it accepts.
#[derive(Clone, Copy, Debug, PartialEq, Eq, Structural)]
pub struct TimeSpec {
    pub tv_sec: i64,
    pub tv_nsec: i64,
}

impl TimeSpec {
    /// The total length of this value in nanoseconds.
    pub open spec fn total_ns(self) -> int {
        self.tv_sec * 1_000_000_000 + self.tv_nsec
    }

    /// The nanosecond field carries only the sub-second part.
    pub open spec fn normalized(self) -> bool {
        0 <= self.tv_nsec < 1_000_000_000
    }

    /// The zero-length value.
    pub open spec fn spec_zero() -> TimeSpec {
        TimeSpec { tv_sec: 0, tv_nsec: 0 }
    }

    /// Whether both fields are zero.
    pub open spec fn is_zero(self) -> bool {
        self == TimeSpec::spec_zero()
    }

    /// The kernel stores a time internally as one signed 64-bit count of
    /// nanoseconds, and its conversion clamps any value whose whole
    /// seconds reach 9_223_372_036 (about 292 years) to that maximum —
    /// whatever the nanosecond field holds — so only a value below that
    /// is echoed back exactly by later queries.
    pub open spec fn fits_kernel_time(self) -> bool {
        self.tv_sec <= 9_223_372_035
    }

    /// The zero-length value.
    pub fn zero() -> (r: TimeSpec)
        ensures
            r == TimeSpec::spec_zero(),
    {
        TimeSpec { tv_sec: 0, tv_nsec: 0 }
    }

    /// A whole number of seconds.
    pub fn seconds(value: i64) -> (r: TimeSpec)
        ensures
            r == (TimeSpec { tv_sec: value, tv_nsec: 0 }),
            r.normalized(),
            r.total_ns() == value * 1_000_000_000,
    {
        TimeSpec { tv_sec: value, tv_nsec: 0 }
    }

    /// A count of nanoseconds, folded into seconds plus a sub-second
    /// remainder.  Total, and exact for every input: the result is the
    /// unique normalized value of the same total length.
    pub fn nanoseconds(value: i64) -> (r: TimeSpec)
        ensures
            r.normalized(),
            r.total_ns() == value,
    {
        if value >= 0 {
            let v: u64 = value as u64;
            let s: u64 = v / 1_000_000_000;
            let n: u64 = v % 1_000_000_000;
            TimeSpec { tv_sec: s as i64, tv_nsec: n as i64 }
        } else {
            let m: u128 = (-(value as i128)) as u128;
            let q: u64 = (m / 1_000_000_000) as u64;
            let rem: u64 = (m % 1_000_000_000) as u64;
            if rem == 0 {
                TimeSpec { tv_sec: -(q as i64), tv_nsec: 0 }
            } else {
                TimeSpec { tv_sec: -(q as i64) - 1, tv_nsec: (1_000_000_000 - rem) as i64 }
            }
        }
    }

    /// A duration given as whole seconds plus sub-second nanoseconds, the
    /// two components folded into one normalized value.  The seconds
    /// component must fit the signed field.
    pub fn from_duration_parts(secs: u64, nanos: u32) -> (r: TimeSpec)
        requires
            secs <= i64::MAX,
            nanos < 1_000_000_000,
        ensures
            r.normalized(),
            r.total_ns() == secs * 1_000_000_000 + nanos,
    {
        TimeSpec { tv_sec: secs as i64, tv_nsec: nanos as i64 }
    }
}

/// Law: a normalized time value is determined by its total nanosecond
/// count; folding a count into (seconds, sub-second nanoseconds) loses
/// nothing and has exactly one answer.
pub proof fn lemma_normal_form_unique(a: TimeSpec, b: TimeSpec)
    requires
        a.normalized(),
        b.normalized(),
        a.total_ns() == b.total_ns(),
    ensures
        a == b,
{
    assert(a.tv_sec == b.tv_sec && a.tv_nsec == b.tv_nsec) by (nonlinear_arith)
        requires
            a.tv_sec * 1_000_000_000 + a.tv_nsec == b.tv_sec * 1_000_000_000 + b.tv_nsec,
            0 <= a.tv_nsec < 1_000_000_000,
            0 <= b.tv_nsec < 1_000_000_000,
    ;
}

/// The schedule of a timer: `it_value` is the time until the first
/// expiration (zero meaning "disarm"), `it_interval` the recurrence period
/// after that (zero meaning "fire once").  On a 64-bit target this is four
/// consecutive 64-bit fields, 32 bytes with 8-byte alignment, mirroring the
/// structure the kernel reads.
#[derive(Clone, Copy, Debug, PartialEq, Eq, Structural)]
pub struct ITimerSpec {
    pub it_interval: TimeSpec,
    pub it_value: TimeSpec,
}

impl ITimerSpec {
    /// The all-zero schedule: disarmed, no recurrence.
    pub open spec fn spec_zero() -> ITimerSpec {
        ITimerSpec { it_interval: TimeSpec::spec_zero(), it_value: TimeSpec::spec_zero() }
    }

    /// Arming with this schedule stops the timer instead.
    pub open spec fn disarms(self) -> bool {
        self.it_value.is_zero()
    }

    /// Both legs keep their nanosecond field in `[0, 1_000_000_000)`, the
    /// shape the kernel accepts when the timer is armed.
    pub open spec fn normalized(self) -> bool {
        self.it_interval.normalized() && self.it_value.normalized()
    }

    /// Exactly the schedules an arm call accepts: both legs nonnegative
    /// whole seconds with normalized nanoseconds.  Any other schedule is
    /// rejected with the "invalid argument" code.
    pub open spec fn arm_valid(self) -> bool {
        self.normalized() && self.it_value.tv_sec >= 0 && self.it_interval.tv_sec >= 0
    }

    /// A schedule from a recurrence period and a first deadline.
    pub fn new(interval: TimeSpec, value: TimeSpec) -> (r: ITimerSpec)
        ensures
            r == (ITimerSpec { it_interval: interval, it_value: value }),
    {
        ITimerSpec { it_interval: interval, it_value: value }
    }

    /// Fire once, after a whole number of seconds.
    pub fn seconds(value: i64) -> (r: ITimerSpec)
        ensures
            r.it_interval == TimeSpec::spec_zero(),
            r.it_value == (TimeSpec { tv_sec: value, tv_nsec: 0 }),
    {
        ITimerSpec { it_interval: TimeSpec::zero(), it_value: TimeSpec::seconds(value) }
    }

    /// Fire once, after a count of nanoseconds.
    pub fn nanoseconds(value: i64) -> (r: ITimerSpec)
        ensures
            r.it_interval == TimeSpec::spec_zero(),
            r.it_value.normalized(),
            r.it_value.total_ns() == value,
    {
        ITimerSpec { it_interval: TimeSpec::zero(), it_value: TimeSpec::nanoseconds(value) }
    }

    /// The same first deadline, with the recurrence period replaced by a
    /// whole number of seconds.
    pub fn interval_seconds(&self, value: i64) -> (r: ITimerSpec)
        ensures
            r.it_interval == (TimeSpec { tv_sec: value, tv_nsec: 0 }),
            r.it_value == self.it_value,
    {
        ITimerSpec { it_interval: TimeSpec::seconds(value), it_value: self.it_value }
    }

    /// The same first deadline, with the recurrence period replaced by a
    /// count of nanoseconds.
    pub fn interval_nanoseconds(&self, value: i64) -> (r: ITimerSpec)
        ensures
            r.it_interval.normalized(),
            r.it_interval.total_ns() == value,
            r.it_value == self.it_value,
    {
        ITimerSpec { it_interval: TimeSpec::nanoseconds(value), it_value: self.it_value }
    }
}

impl From<TimeSpec> for ITimerSpec {
    /// A single time value taken as a one-shot schedule: fire once after
    /// `value`, no recurrence.
    fn from(value: TimeSpec) -> (r: ITimerSpec) {
        ITimerSpec { it_interval: TimeSpec::zero(), it_value: value }
    }
}

impl vstd::std_specs::convert::FromSpecImpl<TimeSpec> for ITimerSpec {
    open spec fn obeys_from_spec() -> bool {
        true
    }

    open spec fn from_spec(value: TimeSpec) -> ITimerSpec {
        ITimerSpec { it_interval: TimeSpec::spec_zero(), it_value: value }
    }
}

} // verus!
