//! The Windows side of the library: the discrete priority enumeration and
//! the conversion between it and the portable priority value. There is no
//! scheduling-policy parameter on this platform — priority is absolute —
//! so the whole translation is a bucketing of the percentage scale into
//! the recognized levels, and a strict membership test for raw values.

use vstd::prelude::*;

verus! {

use crate::Error;
use crate::ThreadPriority;
use crate::ThreadPriorityOsValue;

/// An alias type for specifying the ideal processor.
/// Used in the WinAPI for affinity control.
pub type IdealProcessor = u32;

/// The WinAPI priority representation: the nine recognized values of the
/// native thread-priority call, counting the two background-mode
/// pseudo-priorities.
#[derive(Debug, Copy, Clone, Eq, PartialEq, Ord, PartialOrd, Hash, Structural)]
pub enum WinAPIThreadPriority {
    /// Begin background processing mode. The system lowers the resource
    /// scheduling priorities of the thread so that it can perform background
    /// work without significantly affecting activity in the foreground.
    ///
    /// This value can be specified only for a handle to the current thread.
    BackgroundModeBegin,
    /// End background processing mode. The system restores the resource
    /// scheduling priorities of the thread as they were before the thread
    /// entered background processing mode.
    ///
    /// This value can be specified only for a handle to the current thread.
    BackgroundModeEnd,
    /// Priority 1 point above the priority class.
    AboveNormal,
    /// Priority 1 point below the priority class.
    BelowNormal,
    /// Priority 2 points above the priority class.
    Highest,
    /// Base priority of 1 for the ordinary priority classes, and a base
    /// priority of 16 for the realtime priority class.
    Idle,
    /// Priority 2 points below the priority class.
    Lowest,
    /// Normal priority for the priority class.
    Normal,
    /// Base priority of 15 for the ordinary priority classes, and a base
    /// priority of 31 for the realtime priority class.
    TimeCritical,
}

impl WinAPIThreadPriority {
    /// The signed native constant this level stands for.
    pub open spec fn spec_to_native(self) -> i32 {
        match self {
            WinAPIThreadPriority::BackgroundModeBegin => 0x10000,
            WinAPIThreadPriority::BackgroundModeEnd => 0x20000,
            WinAPIThreadPriority::AboveNormal => 1,
            WinAPIThreadPriority::BelowNormal => -1i32,
            WinAPIThreadPriority::Highest => 2,
            WinAPIThreadPriority::Idle => -15i32,
            WinAPIThreadPriority::Lowest => -2i32,
            WinAPIThreadPriority::Normal => 0,
            WinAPIThreadPriority::TimeCritical => 15,
        }
    }

    /// The signed native constant this level stands for.
    #[verifier::when_used_as_spec(spec_to_native)]
    pub fn to_native(self) -> (r: i32)
        ensures
            r == self.spec_to_native(),
    {
        match self {
            WinAPIThreadPriority::BackgroundModeBegin => 0x10000,
            WinAPIThreadPriority::BackgroundModeEnd => 0x20000,
            WinAPIThreadPriority::AboveNormal => 1,
            WinAPIThreadPriority::BelowNormal => -1,
            WinAPIThreadPriority::Highest => 2,
            WinAPIThreadPriority::Idle => -15,
            WinAPIThreadPriority::Lowest => -2,
            WinAPIThreadPriority::Normal => 0,
            WinAPIThreadPriority::TimeCritical => 15,
        }
    }

    /// The level a signed native number stands for, if it is one of the nine
    /// recognized constants.
    pub open spec fn spec_from_native(value: int) -> Option<WinAPIThreadPriority> {
        if value == 0x10000 {
            Some(WinAPIThreadPriority::BackgroundModeBegin)
        } else if value == 0x20000 {
            Some(WinAPIThreadPriority::BackgroundModeEnd)
        } else if value == 1 {
            Some(WinAPIThreadPriority::AboveNormal)
        } else if value == -1 {
            Some(WinAPIThreadPriority::BelowNormal)
        } else if value == 2 {
            Some(WinAPIThreadPriority::Highest)
        } else if value == -15 {
            Some(WinAPIThreadPriority::Idle)
        } else if value == -2 {
            Some(WinAPIThreadPriority::Lowest)
        } else if value == 0 {
            Some(WinAPIThreadPriority::Normal)
        } else if value == 15 {
            Some(WinAPIThreadPriority::TimeCritical)
        } else {
            None
        }
    }

    /// Decodes a native priority number read back from the platform; a
    /// number outside the nine recognized constants is refused.
    pub fn try_from_native(value: i32) -> (r: Result<WinAPIThreadPriority, Error>)
        ensures
            (match Self::spec_from_native(value as int) {
                Some(w) => r == Ok::<WinAPIThreadPriority, Error>(w),
                None => r matches Err(Error::Priority(_)),
            }),
    {
        if value == 0x10000 {
            Ok(WinAPIThreadPriority::BackgroundModeBegin)
        } else if value == 0x20000 {
            Ok(WinAPIThreadPriority::BackgroundModeEnd)
        } else if value == 1 {
            Ok(WinAPIThreadPriority::AboveNormal)
        } else if value == -1 {
            Ok(WinAPIThreadPriority::BelowNormal)
        } else if value == 2 {
            Ok(WinAPIThreadPriority::Highest)
        } else if value == -15 {
            Ok(WinAPIThreadPriority::Idle)
        } else if value == -2 {
            Ok(WinAPIThreadPriority::Lowest)
        } else if value == 0 {
            Ok(WinAPIThreadPriority::Normal)
        } else if value == 15 {
            Ok(WinAPIThreadPriority::TimeCritical)
        } else {
            Err(Error::Priority("Priority couldn't be parsed"))
        }
    }

    /// The level a cross-platform percentage falls into. The breakpoints at
    /// 20, 40, 60, 80 and everything from 100 upward carry no level on
    /// purpose: the scale has seven named buckets with deliberate gaps
    /// between them.
    pub open spec fn spec_bucket(p: int) -> Option<WinAPIThreadPriority> {
        if p == 0 {
            Some(WinAPIThreadPriority::Idle)
        } else if 1 <= p <= 19 {
            Some(WinAPIThreadPriority::Lowest)
        } else if 21 <= p <= 39 {
            Some(WinAPIThreadPriority::BelowNormal)
        } else if 41 <= p <= 59 {
            Some(WinAPIThreadPriority::Normal)
        } else if 61 <= p <= 79 {
            Some(WinAPIThreadPriority::AboveNormal)
        } else if 81 <= p <= 98 {
            Some(WinAPIThreadPriority::Highest)
        } else if p == 99 {
            Some(WinAPIThreadPriority::TimeCritical)
        } else {
            None
        }
    }

    /// Buckets a raw cross-platform percentage into a priority level; a
    /// number on one of the deliberate gaps, or at 100 or above, is refused.
    pub fn from_crossplatform(p: u8) -> (r: Result<WinAPIThreadPriority, Error>)
        ensures
            (match Self::spec_bucket(p as int) {
                Some(w) => r == Ok::<WinAPIThreadPriority, Error>(w),
                None => r matches Err(Error::Priority(_)),
            }),
    {
        if p == 0 {
            Ok(WinAPIThreadPriority::Idle)
        } else if 1 <= p && p <= 19 {
            Ok(WinAPIThreadPriority::Lowest)
        } else if 21 <= p && p <= 39 {
            Ok(WinAPIThreadPriority::BelowNormal)
        } else if 41 <= p && p <= 59 {
            Ok(WinAPIThreadPriority::Normal)
        } else if 61 <= p && p <= 79 {
            Ok(WinAPIThreadPriority::AboveNormal)
        } else if 81 <= p && p <= 98 {
            Ok(WinAPIThreadPriority::Highest)
        } else if p == 99 {
            Ok(WinAPIThreadPriority::TimeCritical)
        } else {
            Err(Error::Priority("The value is out of range [0; 99]."))
        }
    }

    /// Converts a portable priority into a priority level:
    /// `Min` maps to `Lowest` and not `Idle`, and `Max` to `Highest` and not
    /// `TimeCritical`, to avoid unexpected drawbacks; a cross-platform value
    /// is bucketed; an `Os` value passes exactly when it already is one of
    /// the nine recognized constants; a `Deadline` bundle has no counterpart
    /// on this platform at all.
    pub fn try_from_priority(priority: ThreadPriority) -> (r: Result<WinAPIThreadPriority, Error>)
        ensures
            priority == ThreadPriority::Min ==> r == Ok::<WinAPIThreadPriority, Error>(
                WinAPIThreadPriority::Lowest,
            ),
            priority == ThreadPriority::Max ==> r == Ok::<WinAPIThreadPriority, Error>(
                WinAPIThreadPriority::Highest,
            ),
            (priority matches ThreadPriority::Crossplatform(v) ==> match Self::spec_bucket(
                v.value() as int,
            ) {
                Some(w) => r == Ok::<WinAPIThreadPriority, Error>(w),
                None => r matches Err(Error::Priority(_)),
            }),
            (priority matches ThreadPriority::Os(ov) ==> match Self::spec_from_native(
                ov.spec_signed(),
            ) {
                Some(w) => r == Ok::<WinAPIThreadPriority, Error>(w),
                None => r matches Err(Error::Priority(_)),
            }),
            (priority matches ThreadPriority::Deadline { .. } ==> r matches Err(
                Error::Priority(_),
            )),
    {
        match priority {
            ThreadPriority::Min => Ok(WinAPIThreadPriority::Lowest),
            ThreadPriority::Max => Ok(WinAPIThreadPriority::Highest),
            ThreadPriority::Crossplatform(v) => Self::from_crossplatform(v.into()),
            ThreadPriority::Os(ov) => match Self::try_from_native(ov.signed()) {
                Ok(w) => Ok(w),
                Err(_) => Err(Error::Priority("The value is out of range of allowed values.")),
            },
            ThreadPriority::Deadline { .. } => Err(
                Error::Priority("Deadline priority has no counterpart on this platform."),
            ),
        }
    }
}

/// The stored form of a priority level: the native constant in its 32-bit
/// two's-complement pattern.
pub open(crate) spec fn spec_os_value_of(p: WinAPIThreadPriority) -> ThreadPriorityOsValue {
    if p.spec_to_native() >= 0 {
        ThreadPriorityOsValue(p.spec_to_native() as u32)
    } else {
        ThreadPriorityOsValue((p.spec_to_native() + 0x1_0000_0000) as u32)
    }
}

impl From<WinAPIThreadPriority> for ThreadPriorityOsValue {
    /// Stores the level's native constant in its two's-complement pattern.
    fn from(p: WinAPIThreadPriority) -> (r: Self) {
        let n = p.to_native();
        let stored: u32 = if n >= 0 {
            n as u32
        } else {
            ((n as i64) + 0x1_0000_0000i64) as u32
        };
        ThreadPriorityOsValue(stored)
    }
}

impl vstd::std_specs::convert::FromSpecImpl<WinAPIThreadPriority> for ThreadPriorityOsValue {
    open spec fn obeys_from_spec() -> bool {
        true
    }

    open spec fn from_spec(p: WinAPIThreadPriority) -> Self {
        spec_os_value_of(p)
    }
}

impl ThreadPriorityOsValue {
    /// Accepts a raw platform number exactly when it is one of the nine
    /// recognized native priority constants, read as a signed value.
    pub fn try_from(value: u32) -> (r: Result<ThreadPriorityOsValue, ()>)
        ensures
            (match WinAPIThreadPriority::spec_from_native(
                ThreadPriorityOsValue::spec_signed_of(value),
            ) {
                Some(_) => (r matches Ok(v) && v.value() == value),
                None => r is Err,
            }),
    {
        let candidate = ThreadPriorityOsValue(value);
        match WinAPIThreadPriority::try_from_native(candidate.signed()) {
            Ok(_) => Ok(candidate),
            Err(_) => Err(()),
        }
    }
}

} // verus!
