//! A typed, memory-safe interface to the kernel's file-descriptor-backed
//! timers: create a timer descriptor, arm or query its expiration schedule,
//! and read the accumulated expiration count.
//!
//! The handle owns its descriptor for its whole lifetime and closes it
//! exactly once, when dropped.  Every fallible operation returns the
//! operating system's error code unmodified; the one non-error outcome a
//! read can have is "no data yet", reported as `Ok(None)`.

use vstd::prelude::*;

pub mod flags;
pub mod itimer_spec;
pub mod sys;

pub use crate::flags::{ClockId, TfdFlags, TfdTimerFlags};
pub use crate::itimer_spec::{ITimerSpec, TimeSpec};

use crate::sys::{
    sys_as_raw_fd, sys_raw_fd_value, sys_read_expirations, sys_timerfd_create,
    sys_timerfd_gettime, sys_timerfd_settime,
};

verus! {

/// The error of a failed timer operation: the operating system's error
/// code, carried through unmodified.
#[derive(Clone, Copy, Debug, PartialEq, Eq, Structural)]
pub struct OsError {
    pub code: i32,
}

/// The error code the kernel answers a non-blocking read with when no
/// expiration is pending; the read path turns it into the distinct
/// "no data yet" outcome instead of an error.
pub const EAGAIN: i32 = 11;

/// The error code an arm call answers a malformed schedule with: a
/// negative seconds field, or a nanosecond field outside its range.
pub const EINVAL: i32 = 22;

/// An owning handle on one kernel timer descriptor.
///
/// The descriptor is an exclusively owned resource: the handle cannot be
/// copied or cloned, only moved, and dropping it closes the descriptor
/// exactly once (errors from that close are swallowed, as a teardown path
/// cannot surface them).  The ghost fields model what the kernel knows of
/// this timer: the schedule most recently stored by an arm call, whether
/// the descriptor was created non-blocking, and the descriptor number
/// recorded at creation, which never changes for the handle's life.
pub struct TimerFd {
    pub(crate) fd: rustix::fd::OwnedFd,
    pub(crate) sched: Ghost<ITimerSpec>,
    pub(crate) nonblock: Ghost<bool>,
    pub(crate) rawfd: Ghost<i32>,
}

impl TimerFd {
    /// The schedule most recently handed to the kernel for this timer; the
    /// all-zero schedule until the first arm call.
    pub closed spec fn schedule(self) -> ITimerSpec {
        self.sched@
    }

    /// Whether the descriptor was created in non-blocking mode.
    pub closed spec fn is_nonblocking(self) -> bool {
        self.nonblock@
    }

    /// The descriptor number the handle owns, one stable value recorded at
    /// creation.
    pub closed spec fn raw_fd(self) -> i32 {
        self.rawfd@
    }

    /// Create a timer on the given clock with default (empty) creation
    /// flags: blocking reads, no close-on-exec.  The new timer is disarmed
    /// and its descriptor number is nonnegative.
    pub fn new(clock_id: ClockId) -> (r: Result<TimerFd, OsError>)
        ensures
            r matches Ok(t) ==> t.schedule() == ITimerSpec::spec_zero() && !t.is_nonblocking()
                && t.raw_fd() >= 0,
    {
        Self::with_flags(clock_id, TfdFlags::empty())
    }

    /// Create a timer on the given clock with explicit creation flags.  On
    /// success the new timer is disarmed, its descriptor number is
    /// nonnegative, and the descriptor is non-blocking exactly when the
    /// flags say so; on failure the OS error code is returned unmodified,
    /// exactly as `classify_create_outcome` says.
    pub fn with_flags(clock_id: ClockId, flags: TfdFlags) -> (r: Result<TimerFd, OsError>)
        ensures
            r matches Ok(t) ==> t.schedule() == ITimerSpec::spec_zero() && t.is_nonblocking()
                == flags.nonblock && t.raw_fd() >= 0,
    {
        let bits = flags.bits();
        let outcome = sys_timerfd_create(clock_id, bits);
        classify_create_outcome(outcome, flags)
    }

    /// Arm or disarm the timer with default (relative-deadline) arm flags.
    /// On success the given schedule replaces the stored one — a schedule
    /// whose first deadline is zero disarms the timer — and the previous
    /// setting comes back, its recurrence interval exactly as last stored
    /// (provided that interval fits the kernel's 64-bit nanosecond
    /// representation; a longer one was stored clamped).  A malformed
    /// schedule is rejected with the "invalid argument" code; any failure
    /// — including the bad-descriptor code of a handle whose descriptor
    /// was closed from outside — returns the OS code unmodified and
    /// leaves the stored schedule unchanged.
    pub fn set_time(&mut self, itmr: &ITimerSpec) -> (r: Result<ITimerSpec, OsError>)
        ensures
            final(self).is_nonblocking() == old(self).is_nonblocking(),
            final(self).raw_fd() == old(self).raw_fd(),
            r matches Ok(prev) ==> final(self).schedule() == *itmr && (old(
                self,
            ).schedule().it_interval.fits_kernel_time() ==> prev.it_interval == old(
                self,
            ).schedule().it_interval),
            r is Err ==> final(self).schedule() == old(self).schedule(),
            !itmr.arm_valid() ==> (r matches Err(e) && e.code == EINVAL),
    {
        self.set_time_with_flags(TfdTimerFlags::empty(), itmr)
    }

    /// Arm or disarm the timer with explicit arm flags (an absolute rather
    /// than relative first deadline).  The contract is that of `set_time`.
    pub fn set_time_with_flags(&mut self, flags: TfdTimerFlags, itmr: &ITimerSpec) -> (r: Result<
        ITimerSpec,
        OsError,
    >)
        ensures
            final(self).is_nonblocking() == old(self).is_nonblocking(),
            final(self).raw_fd() == old(self).raw_fd(),
            r matches Ok(prev) ==> final(self).schedule() == *itmr && (old(
                self,
            ).schedule().it_interval.fits_kernel_time() ==> prev.it_interval == old(
                self,
            ).schedule().it_interval),
            r is Err ==> final(self).schedule() == old(self).schedule(),
            !itmr.arm_valid() ==> (r matches Err(e) && e.code == EINVAL),
    {
        match sys_timerfd_settime(self, flags.abstime, itmr) {
            Ok(prev) => Ok(prev),
            Err(code) => Err(OsError { code }),
        }
    }

    /// Query the current schedule without changing it.  On success the
    /// output's recurrence interval is exactly the stored one (provided it
    /// fits the kernel's 64-bit nanosecond representation), and a disarmed
    /// timer reports a zero time to the next expiration; on failure —
    /// possible only when the descriptor was closed from outside the
    /// handle — the output is untouched and the OS error code is returned
    /// unmodified.
    pub fn get_time(&self, otmr: &mut ITimerSpec) -> (r: Result<(), OsError>)
        ensures
            r is Ok ==> (self.schedule().it_interval.fits_kernel_time()
                ==> final(otmr).it_interval == self.schedule().it_interval),
            r is Ok && self.schedule().disarms() ==> final(otmr).it_value == TimeSpec::spec_zero(),
            r is Err ==> *final(otmr) == *old(otmr),
    {
        match sys_timerfd_gettime(self) {
            Ok(cur) => {
                *otmr = cur;
                Ok(())
            },
            Err(code) => Err(OsError { code }),
        }
    }

    /// Read the number of expirations accumulated since the last read,
    /// resetting the kernel-side count.  A count that comes back is at
    /// least one.  With no expiration pending, a non-blocking descriptor
    /// yields the no-data outcome `Ok(None)` — never an `EAGAIN` error —
    /// and a blocking one waits, so only a non-blocking handle ever sees
    /// `Ok(None)`; in particular a timer that is disarmed, or was never
    /// armed, yields `Ok(None)` on every non-blocking read.  Any other OS
    /// error is propagated unmodified, exactly as `classify_read_outcome`
    /// says.
    pub fn read_time(&mut self) -> (r: Result<Option<u64>, OsError>)
        ensures
            final(self).schedule() == old(self).schedule(),
            final(self).is_nonblocking() == old(self).is_nonblocking(),
            final(self).raw_fd() == old(self).raw_fd(),
            r matches Ok(Some(c)) ==> c >= 1,
            old(self).is_nonblocking() && old(self).schedule().disarms() ==> r == Ok::<
                Option<u64>,
                OsError,
            >(None),
            !old(self).is_nonblocking() && r is Ok ==> r->Ok_0 is Some,
            r matches Err(e) ==> e.code != EAGAIN,
    {
        let raw = sys_read_expirations(self);
        classify_read_outcome(raw)
    }

    /// One step of driving the handle as a lazy, endless sequence of
    /// expiration counts: a read, mapped by `count_or_none` — a count is
    /// yielded, the no-data outcome and any read error yield no item this
    /// step.
    pub fn next(&mut self) -> (r: Option<u64>)
        ensures
            final(self).schedule() == old(self).schedule(),
            final(self).is_nonblocking() == old(self).is_nonblocking(),
            final(self).raw_fd() == old(self).raw_fd(),
            r matches Some(c) ==> c >= 1,
            old(self).is_nonblocking() && old(self).schedule().disarms() ==> r is None,
    {
        let outcome = self.read_time();
        count_or_none(outcome)
    }

    /// The raw descriptor number, for registration with external polling
    /// facilities; ownership stays with the handle, and every call returns
    /// the same value.
    pub fn as_raw_fd(&self) -> (r: i32)
        ensures
            r == self.raw_fd(),
    {
        sys_as_raw_fd(self)
    }
}

/// How a create outcome becomes the public result: a fresh descriptor is
/// wrapped into a handle whose model starts disarmed, non-blocking
/// exactly per the given flags, with its nonnegative descriptor number
/// recorded; a failure code is carried into the error value unmodified.
fn classify_create_outcome(outcome: Result<rustix::fd::OwnedFd, i32>, flags: TfdFlags) -> (r:
    Result<TimerFd, OsError>)
    ensures
        outcome is Err ==> (r matches Err(e) && e == (OsError { code: outcome->Err_0 })),
        outcome is Ok ==> (r matches Ok(t) && t.schedule() == ITimerSpec::spec_zero()
            && t.is_nonblocking() == flags.nonblock && t.raw_fd() >= 0),
{
    match outcome {
        Ok(ofd) => {
            let raw = sys_raw_fd_value(&ofd);
            Ok(
                TimerFd {
                    fd: ofd,
                    sched: Ghost(ITimerSpec::spec_zero()),
                    nonblock: Ghost(flags.nonblock),
                    rawfd: Ghost(raw),
                },
            )
        },
        Err(code) => Err(OsError { code }),
    }
}

/// How a raw counter read becomes the read result: a full 8-byte read
/// hands its count through unchanged, the "try again" code becomes the
/// distinct no-data outcome `Ok(None)`, and any other error code is
/// carried into the error value unmodified.  A short read never occurs
/// under the kernel's read contract for timer descriptors, so it is ruled
/// out here rather than handled.
pub fn classify_read_outcome(raw: Result<(usize, u64), i32>) -> (r: Result<Option<u64>, OsError>)
    requires
        raw is Ok ==> raw->Ok_0.0 == 8,
    ensures
        raw is Ok ==> r == Ok::<Option<u64>, OsError>(Some(raw->Ok_0.1)),
        raw is Err && raw->Err_0 == EAGAIN ==> r == Ok::<Option<u64>, OsError>(None),
        raw is Err && raw->Err_0 != EAGAIN ==> (r matches Err(e) && e == (OsError {
            code: raw->Err_0,
        })),
{
    match raw {
        Ok(p) => Ok(Some(p.1)),
        Err(code) => {
            if code == EAGAIN {
                Ok(None)
            } else {
                Err(OsError { code })
            }
        },
    }
}

/// How a read result drives the lazy sequence: a count is yielded, while
/// the no-data outcome and any read error alike yield no item — the
/// sequence view deliberately discards errors.
pub fn count_or_none(outcome: Result<Option<u64>, OsError>) -> (r: Option<u64>)
    ensures
        outcome is Ok ==> r == outcome->Ok_0,
        outcome is Err ==> r is None,
{
    match outcome {
        Ok(v) => v,
        Err(_) => None,
    }
}

} // verus!
