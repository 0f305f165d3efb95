//! The raw syscall surface: trusted, thin wrappers around the operating
//! system's timer calls.  Everything here is believed, not proved; each
//! wrapper's contract states only what the called code's source and the
//! kernel's documented behaviour show.

use vstd::prelude::*;

use crate::flags::ClockId;
use crate::itimer_spec::{ITimerSpec, TimeSpec};
use crate::{TimerFd, EAGAIN, EINVAL};
use rustix::fd::AsRawFd;
use rustix::time::{Itimerspec, Timespec, TimerfdClockId, TimerfdFlags, TimerfdTimerFlags};

verus! {

/// The owned descriptor held inside a handle.  A value of this type stands
/// for one open file descriptor and closes it exactly once when dropped.
#[verifier::external_type_specification]
#[verifier::external_body]
pub struct ExOwnedFd(rustix::fd::OwnedFd);

/// Relies on rustix::time::timerfd_create: creates a kernel timer for the
/// given clock with the given `TFD_*` creation bits and returns its
/// descriptor, or the OS error code unmodified.  A new timer is disarmed
/// until armed by a set call — the ground for the all-zero initial
/// schedule the handle's ghost model starts from — and its descriptor is
/// non-blocking exactly when the `TFD_NONBLOCK` bit was given.
#[verifier::external_body]
pub(crate) fn sys_timerfd_create(clock_id: ClockId, bits: i32) -> (r: Result<
    rustix::fd::OwnedFd,
    i32,
>)
{
    let clk = match clock_id {
        ClockId::Realtime => TimerfdClockId::Realtime,
        ClockId::Monotonic => TimerfdClockId::Monotonic,
    };
    match rustix::time::timerfd_create(clk, TimerfdFlags::from_bits_retain(bits as u32)) {
        Ok(fd) => Ok(fd),
        Err(e) => Err(e.raw_os_error()),
    }
}

/// Relies on rustix::time::timerfd_settime: atomically replaces the
/// descriptor's schedule with `new_sched` (a zero first deadline disarms the
/// timer) and hands back the previous setting, whose recurrence interval is
/// the one most recently stored — echoed exactly only when it fits the
/// kernel's 64-bit nanosecond representation, beyond which the kernel
/// stores a clamped value.  A malformed schedule is rejected with the
/// "invalid argument" code, checked before the descriptor is even looked
/// up; no success is promised — a descriptor closed from outside the
/// handle fails with the bad-descriptor code — and on any failure the OS
/// error code comes back unmodified and the timer's setting is unchanged.
#[verifier::external_body]
pub(crate) fn sys_timerfd_settime(t: &mut TimerFd, abstime: bool, new_sched: &ITimerSpec) -> (r:
    Result<ITimerSpec, i32>)
    ensures
        final(t).nonblock@ == old(t).nonblock@,
        final(t).rawfd@ == old(t).rawfd@,
        r matches Ok(prev) ==> final(t).sched@ == *new_sched && (old(
            t,
        ).sched@.it_interval.fits_kernel_time() ==> prev.it_interval == old(
            t,
        ).sched@.it_interval),
        r is Err ==> final(t).sched@ == old(t).sched@,
        !new_sched.arm_valid() ==> r is Err && r->Err_0 == EINVAL,
{
    let iv = Timespec { tv_sec: new_sched.it_interval.tv_sec, tv_nsec: new_sched.it_interval.tv_nsec };
    let va = Timespec { tv_sec: new_sched.it_value.tv_sec, tv_nsec: new_sched.it_value.tv_nsec };
    let new_raw = Itimerspec { it_interval: iv, it_value: va };
    let flags = TimerfdTimerFlags::from_bits_retain(abstime as u32);
    match rustix::time::timerfd_settime(&t.fd, flags, &new_raw) {
        Ok(p) => Ok(ITimerSpec {
            it_interval: TimeSpec { tv_sec: p.it_interval.tv_sec, tv_nsec: p.it_interval.tv_nsec },
            it_value: TimeSpec { tv_sec: p.it_value.tv_sec, tv_nsec: p.it_value.tv_nsec },
        }),
        Err(e) => Err(e.raw_os_error()),
    }
}

/// Relies on rustix::time::timerfd_gettime: reports the descriptor's
/// current setting without changing it.  The reported recurrence interval
/// is the one most recently stored by a set call (exactly, provided it
/// fits the kernel's 64-bit nanosecond representation; a longer one was
/// stored clamped), and a disarmed timer reports a zero time to the next
/// expiration.  No success is promised — a descriptor closed from outside
/// the handle fails with the bad-descriptor code, which comes back
/// unmodified.
#[verifier::external_body]
pub(crate) fn sys_timerfd_gettime(t: &TimerFd) -> (r: Result<ITimerSpec, i32>)
    ensures
        r matches Ok(cur) ==> (t.sched@.it_interval.fits_kernel_time() ==> cur.it_interval
            == t.sched@.it_interval),
        t.sched@.disarms() ==> (r matches Ok(cur) ==> cur.it_value == TimeSpec::spec_zero()),
{
    match rustix::time::timerfd_gettime(&t.fd) {
        Ok(c) => Ok(ITimerSpec {
            it_interval: TimeSpec { tv_sec: c.it_interval.tv_sec, tv_nsec: c.it_interval.tv_nsec },
            it_value: TimeSpec { tv_sec: c.it_value.tv_sec, tv_nsec: c.it_value.tv_nsec },
        }),
        Err(e) => Err(e.raw_os_error()),
    }
}

/// Relies on rustix::io::read on a timer descriptor: a successful read into
/// an 8-byte buffer fills all 8 bytes with the native-endian count of
/// expirations since the last read, which is then at least one, and resets
/// that count; with no expiration pending it blocks, or fails with `EAGAIN`
/// if the descriptor is non-blocking — in particular whenever the timer is
/// disarmed, since arming or disarming also resets the pending count.  A
/// blocking descriptor never fails with `EAGAIN`: it waits instead.  Any
/// other OS error code comes back unmodified.
#[verifier::external_body]
pub(crate) fn sys_read_expirations(t: &TimerFd) -> (r: Result<(usize, u64), i32>)
    ensures
        r is Ok ==> r->Ok_0.0 == 8 && r->Ok_0.1 >= 1,
        t.nonblock@ && t.sched@.disarms() ==> r is Err && r->Err_0 == EAGAIN,
        !t.nonblock@ && r is Err ==> r->Err_0 != EAGAIN,
{
    let mut buf = [0u8; 8];
    match rustix::io::read(&t.fd, &mut buf) {
        Ok(n) => Ok((n, u64::from_ne_bytes(buf))),
        Err(e) => Err(e.raw_os_error()),
    }
}

/// Relies on std's `AsRawFd` through rustix's re-export: the raw
/// descriptor number of an owned descriptor, observed once at
/// construction.  The number never changes for the life of the owner,
/// and an owned descriptor is a valid open descriptor, so the number is
/// nonnegative.
#[verifier::external_body]
pub(crate) fn sys_raw_fd_value(fd: &rustix::fd::OwnedFd) -> (r: i32)
    ensures
        r >= 0,
{
    fd.as_raw_fd()
}

/// Relies on std's `AsRawFd` through rustix's re-export: hands out the raw
/// descriptor number without giving up ownership.  The number is the one
/// the handle recorded at construction, since an owned descriptor keeps
/// one value for its whole life.
#[verifier::external_body]
pub(crate) fn sys_as_raw_fd(t: &TimerFd) -> (r: i32)
    ensures
        r == t.rawfd@,
{
    t.fd.as_raw_fd()
}

} // verus!
