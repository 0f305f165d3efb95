//! The two small flag vocabularies of the timer interface and the choice of
//! clock, each kept as named booleans and lowered to the integer form the
//! kernel expects only at the call boundary.

use vstd::prelude::*;

verus! {

/// Bit for close-on-exec at creation (`TFD_CLOEXEC`).
pub const TFD_CLOEXEC_BITS: i32 = 524288;

/// Bit for non-blocking reads at creation (`TFD_NONBLOCK`).
pub const TFD_NONBLOCK_BITS: i32 = 2048;

/// Bit for an absolute first deadline when arming (`TFD_TIMER_ABSTIME`).
pub const TFD_TIMER_ABSTIME_BITS: i32 = 1;

/// Which clock governs a timer's time base.
#[derive(Clone, Copy, Debug, PartialEq, Eq, Structural)]
pub enum ClockId {
    /// The system-wide wall clock; settable, so not monotonic.
    Realtime,
    /// A clock that only moves forward and cannot be set.
    Monotonic,
}

/// The flags a timer descriptor can be created with: an open combination of
/// close-on-exec and non-blocking mode.
#[derive(Clone, Copy, Debug, PartialEq, Eq, Structural)]
pub struct TfdFlags {
    pub cloexec: bool,
    pub nonblock: bool,
}

impl TfdFlags {
    /// The single integer the kernel receives for this flag set.
    pub open spec fn spec_bits(self) -> i32 {
        (if self.cloexec {
            TFD_CLOEXEC_BITS
        } else {
            0
        }) | (if self.nonblock {
            TFD_NONBLOCK_BITS
        } else {
            0
        })
    }

    /// Membership: every flag set in `other` is set in `self`.
    pub open spec fn spec_contains(self, other: TfdFlags) -> bool {
        (other.cloexec ==> self.cloexec) && (other.nonblock ==> self.nonblock)
    }

    /// No flags.
    pub fn empty() -> (r: TfdFlags)
        ensures
            r == (TfdFlags { cloexec: false, nonblock: false }),
    {
        TfdFlags { cloexec: false, nonblock: false }
    }

    /// Close-on-exec alone.
    pub fn close_on_exec() -> (r: TfdFlags)
        ensures
            r == (TfdFlags { cloexec: true, nonblock: false }),
    {
        TfdFlags { cloexec: true, nonblock: false }
    }

    /// Non-blocking mode alone.
    pub fn non_blocking() -> (r: TfdFlags)
        ensures
            r == (TfdFlags { cloexec: false, nonblock: true }),
    {
        TfdFlags { cloexec: false, nonblock: true }
    }

    /// Both flag sets combined.
    pub fn union(self, other: TfdFlags) -> (r: TfdFlags)
        ensures
            r.cloexec == (self.cloexec || other.cloexec),
            r.nonblock == (self.nonblock || other.nonblock),
    {
        TfdFlags { cloexec: self.cloexec || other.cloexec, nonblock: self.nonblock || other.nonblock }
    }

    /// Whether every flag of `other` is set in `self`.
    pub fn contains(self, other: TfdFlags) -> (r: bool)
        ensures
            r == self.spec_contains(other),
    {
        (!other.cloexec || self.cloexec) && (!other.nonblock || self.nonblock)
    }

    /// The integer form handed to the creation call.
    pub fn bits(self) -> (r: i32)
        ensures
            r == self.spec_bits(),
    {
        let c: i32 = if self.cloexec {
            524288
        } else {
            0
        };
        let n: i32 = if self.nonblock {
            2048
        } else {
            0
        };
        c | n
    }
}

impl Default for TfdFlags {
    /// The default flag set is empty: blocking reads, no close-on-exec.
    fn default() -> (r: TfdFlags)
        ensures
            r == (TfdFlags { cloexec: false, nonblock: false }),
    {
        TfdFlags { cloexec: false, nonblock: false }
    }
}

/// Law: combining two creation flag sets produces exactly the bitwise union
/// of their integer encodings, so handing the kernel one combined set is the
/// same as asking for each flag's independent effect.
pub proof fn lemma_union_bits(a: TfdFlags, b: TfdFlags)
    ensures
        (TfdFlags {
            cloexec: a.cloexec || b.cloexec,
            nonblock: a.nonblock || b.nonblock,
        }).spec_bits() == (a.spec_bits() | b.spec_bits()),
{
    let c1 = a.cloexec;
    let n1 = a.nonblock;
    let c2 = b.cloexec;
    let n2 = b.nonblock;
    assert(((if c1 || c2 {
        524288i32
    } else {
        0i32
    }) | (if n1 || n2 {
        2048i32
    } else {
        0i32
    })) == (((if c1 {
        524288i32
    } else {
        0i32
    }) | (if n1 {
        2048i32
    } else {
        0i32
    })) | ((if c2 {
        524288i32
    } else {
        0i32
    }) | (if n2 {
        2048i32
    } else {
        0i32
    })))) by (bit_vector);
}

/// Law: the non-blocking flag is visible in the integer encoding exactly
/// when it is set; combining it with close-on-exec does not disturb it.
pub proof fn lemma_bits_nonblock(f: TfdFlags)
    ensures
        (f.spec_bits() & TFD_NONBLOCK_BITS == TFD_NONBLOCK_BITS) == f.nonblock,
{
    let c = f.cloexec;
    let n = f.nonblock;
    assert((((if c {
        524288i32
    } else {
        0i32
    }) | (if n {
        2048i32
    } else {
        0i32
    })) & 2048i32 == 2048i32) == n) by (bit_vector);
}

/// The flags a timer can be armed with: at present only the choice of an
/// absolute rather than relative first deadline.
#[derive(Clone, Copy, Debug, PartialEq, Eq, Structural)]
pub struct TfdTimerFlags {
    pub abstime: bool,
}

impl TfdTimerFlags {
    /// The single integer the kernel receives for this flag set.
    pub open spec fn spec_bits(self) -> i32 {
        if self.abstime {
            TFD_TIMER_ABSTIME_BITS
        } else {
            0
        }
    }

    /// No flags: the deadline is relative to now.
    pub fn empty() -> (r: TfdTimerFlags)
        ensures
            r == (TfdTimerFlags { abstime: false }),
    {
        TfdTimerFlags { abstime: false }
    }

    /// The first deadline is an absolute point on the clock.
    pub fn absolute_time() -> (r: TfdTimerFlags)
        ensures
            r == (TfdTimerFlags { abstime: true }),
    {
        TfdTimerFlags { abstime: true }
    }

    /// Both flag sets combined.
    pub fn union(self, other: TfdTimerFlags) -> (r: TfdTimerFlags)
        ensures
            r.abstime == (self.abstime || other.abstime),
    {
        TfdTimerFlags { abstime: self.abstime || other.abstime }
    }

    /// Whether every flag of `other` is set in `self`.
    pub fn contains(self, other: TfdTimerFlags) -> (r: bool)
        ensures
            r == (other.abstime ==> self.abstime),
    {
        !other.abstime || self.abstime
    }

    /// The integer form handed to the arming call.
    pub fn bits(self) -> (r: i32)
        ensures
            r == self.spec_bits(),
    {
        if self.abstime {
            1
        } else {
            0
        }
    }
}

impl Default for TfdTimerFlags {
    /// The default arming flags are empty: the deadline is relative.
    fn default() -> (r: TfdTimerFlags)
        ensures
            r == (TfdTimerFlags { abstime: false }),
    {
        TfdTimerFlags { abstime: false }
    }
}

} // verus!
