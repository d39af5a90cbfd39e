//! Thread priority. A library for changing a thread's priority.
//!
//! The portable priority model lives at the crate root: [`ThreadPriority`]
//! is the single cross-platform priority value and [`Error`] describes every
//! way a conversion or a native call can fail. The translation into the
//! numeric domains of the POSIX schedulers is in [`unix`], the translation
//! into the discrete Windows priority levels is in [`windows`], and [`macos`]
//! holds the stubs for platforms where no per-thread priority control is
//! available. The native calls themselves are left to the embedding program;
//! everything here is the pure mapping, validation and planning layer.

use vstd::prelude::*;

pub mod macos;
pub mod unix;
pub mod windows;

verus! {

use crate::unix::DeadlineFlags;

/// Relies on the standard library's derived `Clone` for
/// `std::ops::RangeInclusive`, which vstd leaves unspecified. Nothing is
/// assumed of the copy; the declaration only lets [`Error`] derive `Clone`.
pub assume_specification<Idx: Clone>[ <std::ops::RangeInclusive<Idx> as Clone>::clone ](
    r: &std::ops::RangeInclusive<Idx>,
) -> std::ops::RangeInclusive<Idx>;

/// A error type
#[derive(Debug, Clone, Eq, PartialEq, Hash)]
pub enum Error {
    /// A value which describes why it is impossible to use such a priority.
    Priority(&'static str),
    /// Indicates that the priority isn't in range and it should be within the provided range.
    /// This may happen on different operating systems following a single standard of API but
    /// allowing different priority values for different scheduling policies.
    PriorityNotInRange(std::ops::RangeInclusive<i32>),
    /// Target OS' error type. In most systems it is an integer which
    /// later should be used with target OS' API for understanding the value.
    OS(i32),
    /// FFI failure.
    Ffi(&'static str),
}

/// A span of time, held as whole seconds plus a sub-second remainder in
/// nanoseconds. It mirrors what the deadline scheduler consumes and keeps
/// every field a plain integer, so that the conversion into nanoseconds can
/// be reasoned about exactly.
#[derive(Copy, Clone, Debug, Eq, PartialEq, Ord, PartialOrd, Hash, Structural)]
pub struct Duration {
    pub(crate) secs: u64,
    pub(crate) nanos: u32,
}

impl Duration {
    /// The whole span measured in nanoseconds.
    pub open(crate) spec fn spec_nanos(self) -> int {
        self.secs * 1_000_000_000 + self.nanos
    }

    /// A span of whole seconds.
    pub fn from_secs(secs: u64) -> (r: Self)
        ensures
            r.spec_nanos() == secs * 1_000_000_000,
    {
        Duration { secs, nanos: 0 }
    }

    /// A span of milliseconds.
    pub fn from_millis(millis: u64) -> (r: Self)
        ensures
            r.spec_nanos() == millis * 1_000_000,
    {
        let secs = millis / 1000;
        let nanos = (millis % 1000) as u32 * 1_000_000;
        proof {
            vstd::arithmetic::div_mod::lemma_fundamental_div_mod(millis as int, 1000);
        }
        Duration { secs, nanos }
    }

    /// A span of microseconds.
    pub fn from_micros(micros: u64) -> (r: Self)
        ensures
            r.spec_nanos() == micros * 1_000,
    {
        let secs = micros / 1_000_000;
        let nanos = (micros % 1_000_000) as u32 * 1_000;
        proof {
            vstd::arithmetic::div_mod::lemma_fundamental_div_mod(micros as int, 1_000_000);
        }
        Duration { secs, nanos }
    }

    /// A span of nanoseconds.
    pub fn from_nanos(nanos: u64) -> (r: Self)
        ensures
            r.spec_nanos() == nanos,
    {
        let secs = nanos / 1_000_000_000;
        let rest = (nanos % 1_000_000_000) as u32;
        proof {
            vstd::arithmetic::div_mod::lemma_fundamental_div_mod(nanos as int, 1_000_000_000);
        }
        Duration { secs, nanos: rest }
    }

    /// A span given as seconds and a sub-second remainder.
    pub fn new(secs: u64, nanos: u32) -> (r: Self)
        requires
            nanos < 1_000_000_000,
        ensures
            r.spec_nanos() == secs * 1_000_000_000 + nanos,
    {
        Duration { secs, nanos }
    }

    /// The whole span in nanoseconds. The result is exact: a `u128` is wide
    /// enough for any value this type can hold.
    pub fn as_nanos(self) -> (r: u128)
        ensures
            r == self.spec_nanos(),
    {
        self.secs as u128 * 1_000_000_000 + self.nanos as u128
    }
}

/// Platform-independent thread priority value.
/// Should be in `[0; 100)` range. The higher the number is - the higher
/// the priority.
///
/// The only way for a caller to create such a value is the fallible
/// conversion from an 8-bit unsigned integer, which rejects anything
/// above 99.
#[derive(Copy, Clone, Debug, Default, Eq, PartialEq, Ord, PartialOrd, Hash, Structural)]
pub struct ThreadPriorityValue(pub(crate) u8);

impl ThreadPriorityValue {
    /// The maximum value for a thread priority.
    pub const MAX: u8 = 99;

    /// The minimum value for a thread priority.
    pub const MIN: u8 = 0;

    /// The raw number this priority holds.
    pub open(crate) spec fn value(self) -> u8 {
        self.0
    }

    /// Fallible conversion from a raw number: everything above 99 is refused.
    pub fn try_from(value: u8) -> (r: Result<Self, &'static str>)
        ensures
            value <= 99 ==> (r matches Ok(v) && v.value() == value),
            value > 99 ==> r is Err,
    {
        if value <= Self::MAX {
            Ok(ThreadPriorityValue(value))
        } else {
            Err("The value is not in the range of [0;99]")
        }
    }

    /// The raw number out of the priority.
    pub fn into(self) -> (r: u8)
        ensures
            r == self.value(),
    {
        self.0
    }
}

/// Platform-specific thread priority value.
///
/// It carries a number in whatever encoding the platform itself uses: a raw
/// POSIX `sched_priority`, or one of the signed Windows priority constants
/// held in its two's-complement form.
#[derive(Copy, Clone, Debug, Default, Eq, PartialEq, Ord, PartialOrd, Hash, Structural)]
pub struct ThreadPriorityOsValue(pub(crate) u32);

impl ThreadPriorityOsValue {
    /// The raw stored number.
    pub open(crate) spec fn value(self) -> u32 {
        self.0
    }

    /// The signed native number a stored 32-bit pattern stands for, read as
    /// a two's-complement integer.
    pub open spec fn spec_signed_of(value: u32) -> int {
        if value <= 0x7fff_ffff {
            value as int
        } else {
            value - 0x1_0000_0000
        }
    }

    /// The signed native number the stored value stands for.
    pub open(crate) spec fn spec_signed(self) -> int {
        Self::spec_signed_of(self.0)
    }

    /// A platform value out of a raw number, unvalidated.
    pub fn new(value: u32) -> (r: Self)
        ensures
            r.value() == value,
    {
        ThreadPriorityOsValue(value)
    }

    /// The raw number out of the platform value.
    pub fn into(self) -> (r: u32)
        ensures
            r == self.value(),
    {
        self.0
    }

    /// The signed native number, decoded from the stored two's-complement
    /// pattern.
    pub fn signed(self) -> (r: i32)
        ensures
            r == self.spec_signed(),
    {
        if self.0 <= 0x7fff_ffff {
            self.0 as i32
        } else {
            ((self.0 as i64) - 0x1_0000_0000i64) as i32
        }
    }
}

/// Thread priority enumeration.
#[derive(Debug, Copy, Clone, Hash, Eq, PartialEq, Ord, PartialOrd, Structural)]
pub enum ThreadPriority {
    /// Holds a value representing the minimum possible priority under
    /// whatever scheduling policy is active.
    Min,
    /// Holds a platform-independent priority value.
    /// Usually used when setting a value, for sometimes it is not possible to map
    /// the operating system's priority to this value.
    Crossplatform(ThreadPriorityValue),
    /// Holds an operating system specific value. If it is not possible to obtain the
    /// [`ThreadPriority::Crossplatform`] variant of the value, this is returned instead.
    Os(ThreadPriorityOsValue),
    /// Holds scheduling parameters for Deadline scheduling. These are, in order,
    /// the runtime, deadline, and period durations, plus the flags passed on to
    /// the scheduler unchanged. Please note that the kernel enforces
    /// `runtime <= deadline <= period`.
    ///
    /// ```text
    ///   arrival/wakeup                    absolute deadline
    ///        |    start time                    |
    ///        |        |                         |
    ///        v        v                         v
    ///   -----x--------xooooooooooooooooo--------x--------x---
    ///                 |<-- Runtime ------->|
    ///        |<----------- Deadline ----------->|
    ///        |<-------------- Period ------------------->|
    /// ```
    Deadline {
        /// Set this to something larger than the average computation time
        /// or to the worst-case computation time for hard real-time tasks.
        runtime: Duration,
        /// Set this to the relative deadline.
        deadline: Duration,
        /// Set this to the period of the task.
        period: Duration,
        /// Flags handed through to the scheduler unchanged.
        flags: DeadlineFlags,
    },
    /// Holds a value representing the maximum possible priority.
    /// Should be used with caution, it solely depends on the target
    /// os where the program is going to be running on, how it will
    /// behave. On some systems, the whole system may become frozen
    /// if not used properly.
    Max,
}

impl ThreadPriority {
    /// Fallible conversion from a raw number: a value above 99 cannot be a
    /// cross-platform priority and is refused.
    pub fn try_from(value: u8) -> (r: Result<Self, &'static str>)
        ensures
            value <= 99 ==> (r matches Ok(p) && p matches ThreadPriority::Crossplatform(v)
                && v.value() == value),
            value > 99 ==> r is Err,
    {
        match ThreadPriorityValue::try_from(value) {
            Ok(v) => Ok(ThreadPriority::Crossplatform(v)),
            Err(e) => Err(e),
        }
    }
}

/// A builder mirroring [`std::thread::Builder`], extended with the priority
/// settings the spawned thread should receive before it runs user code.
/// The builder itself only records the wishes; the embedding program reads
/// the fields back when it actually creates the thread.
#[derive(Clone, Debug, Hash, Eq, PartialEq, Ord, PartialOrd)]
pub struct ThreadBuilder {
    /// The name for the thread-to-be.
    pub name: Option<String>,
    /// The size of the stack (in bytes) for the new thread.
    pub stack_size: Option<usize>,
    /// The thread's custom priority.
    pub priority: Option<ThreadPriority>,
    /// The thread's unix scheduling policy.
    pub policy: Option<crate::unix::ThreadSchedulePolicy>,
    /// The WinAPI priority representation.
    pub winapi_priority: Option<crate::windows::WinAPIThreadPriority>,
    /// Whether the system may temporarily boost the priority of the thread.
    pub boost_enabled: bool,
    /// A preferred processor for the thread.
    pub ideal_processor: Option<crate::windows::IdealProcessor>,
}

impl Default for ThreadBuilder {
    /// A builder with nothing requested yet.
    fn default() -> (r: Self)
        ensures
            r.name is None,
            r.stack_size is None,
            r.priority is None,
            r.policy is None,
            r.winapi_priority is None,
            r.boost_enabled == false,
            r.ideal_processor is None,
    {
        ThreadBuilder {
            name: None,
            stack_size: None,
            priority: None,
            policy: None,
            winapi_priority: None,
            boost_enabled: false,
            ideal_processor: None,
        }
    }
}

impl ThreadBuilder {
    /// Names the thread-to-be. Currently the name is used for identification
    /// only in panic messages.
    ///
    /// The name must not contain null bytes (`\0`).
    pub fn name(self, value: String) -> (r: Self)
        ensures
            r.name == Some(value),
            r.stack_size == self.stack_size,
            r.priority == self.priority,
            r.policy == self.policy,
            r.winapi_priority == self.winapi_priority,
            r.boost_enabled == self.boost_enabled,
            r.ideal_processor == self.ideal_processor,
    {
        ThreadBuilder { name: Some(value), ..self }
    }

    /// Sets the size of the stack (in bytes) for the new thread.
    ///
    /// The actual stack size may be greater than this value if
    /// the platform specifies a minimal stack size.
    pub fn stack_size(self, value: usize) -> (r: Self)
        ensures
            r.stack_size == Some(value),
            r.name == self.name,
            r.priority == self.priority,
            r.policy == self.policy,
            r.winapi_priority == self.winapi_priority,
            r.boost_enabled == self.boost_enabled,
            r.ideal_processor == self.ideal_processor,
    {
        ThreadBuilder { stack_size: Some(value), ..self }
    }

    /// The thread's custom priority.
    pub fn priority(self, value: ThreadPriority) -> (r: Self)
        ensures
            r.priority == Some(value),
            r.name == self.name,
            r.stack_size == self.stack_size,
            r.policy == self.policy,
            r.winapi_priority == self.winapi_priority,
            r.boost_enabled == self.boost_enabled,
            r.ideal_processor == self.ideal_processor,
    {
        ThreadBuilder { priority: Some(value), ..self }
    }

    /// The thread's unix scheduling policy.
    pub fn policy(self, value: crate::unix::ThreadSchedulePolicy) -> (r: Self)
        ensures
            r.policy == Some(value),
            r.name == self.name,
            r.stack_size == self.stack_size,
            r.priority == self.priority,
            r.winapi_priority == self.winapi_priority,
            r.boost_enabled == self.boost_enabled,
            r.ideal_processor == self.ideal_processor,
    {
        ThreadBuilder { policy: Some(value), ..self }
    }

    /// The WinAPI priority representation.
    pub fn winapi_priority(self, value: crate::windows::WinAPIThreadPriority) -> (r: Self)
        ensures
            r.winapi_priority == Some(value),
            r.name == self.name,
            r.stack_size == self.stack_size,
            r.priority == self.priority,
            r.policy == self.policy,
            r.boost_enabled == self.boost_enabled,
            r.ideal_processor == self.ideal_processor,
    {
        ThreadBuilder { winapi_priority: Some(value), ..self }
    }

    /// Disables or enables the ability of the system to temporarily boost the
    /// priority of a thread.
    pub fn boost_enabled(self, value: bool) -> (r: Self)
        ensures
            r.boost_enabled == value,
            r.name == self.name,
            r.stack_size == self.stack_size,
            r.priority == self.priority,
            r.policy == self.policy,
            r.winapi_priority == self.winapi_priority,
            r.ideal_processor == self.ideal_processor,
    {
        ThreadBuilder { boost_enabled: value, ..self }
    }

    /// Sets a preferred processor for a thread. The system schedules threads
    /// on their preferred processors whenever possible.
    pub fn ideal_processor(self, value: crate::windows::IdealProcessor) -> (r: Self)
        ensures
            r.ideal_processor == Some(value),
            r.name == self.name,
            r.stack_size == self.stack_size,
            r.priority == self.priority,
            r.policy == self.policy,
            r.winapi_priority == self.winapi_priority,
            r.boost_enabled == self.boost_enabled,
    {
        ThreadBuilder { ideal_processor: Some(value), ..self }
    }
}

} // verus!
