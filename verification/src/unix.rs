//! The POSIX side of the library: the scheduling policies, the conversion
//! between the portable priority and the native `sched_priority`/niceness
//! domains, and the planning of the one native call that applying a
//! priority comes down to.
//!
//! Everything the operating system itself has to answer — the priority
//! bounds it reports for a realtime policy and whether the platform gives
//! every thread its own niceness — enters through [`NativeLimits`], so that
//! the whole translation is a pure function of its arguments.

use vstd::prelude::*;

verus! {

use crate::Duration;
use crate::Error;
use crate::ThreadPriority;
use crate::ThreadPriorityValue;

/// The maximum value possible for niceness. Threads with this value
/// of niceness have the highest priority possible.
pub const NICENESS_MAX: i8 = -20;

/// The minimum value possible for niceness. Threads with this value
/// of niceness have the lowest priority possible.
pub const NICENESS_MIN: i8 = 19;

/// The native number of the standard round-robin time-sharing policy.
pub const SCHED_OTHER: i32 = 0;

/// The native number of the first-in, first-out realtime policy.
pub const SCHED_FIFO: i32 = 1;

/// The native number of the round-robin realtime policy.
pub const SCHED_RR: i32 = 2;

/// The native number of the batch policy (Linux).
pub const SCHED_BATCH: i32 = 3;

/// The native number of the idle policy (Linux).
pub const SCHED_IDLE: i32 = 5;

/// The native number of the deadline policy (Linux).
pub const SCHED_DEADLINE: i32 = 6;

/// The byte size of the deadline attribute record as the kernel defines it,
/// counting the two utilization hint fields.
pub const SCHED_ATTR_SIZE: u32 = 56;

/// Proxy structure to maintain compatibility between glibc and musl.
#[derive(Debug, Copy, Clone, Eq, PartialEq, Ord, PartialOrd, Hash, Structural)]
pub struct ScheduleParams {
    /// Copy of `sched_priority` from the native `sched_param` structure.
    pub sched_priority: i32,
}

/// A copy of the Linux kernel's `sched_attr` type, field for field.
///
/// The embedding program lays an equivalent C-compatible record over this
/// before handing it to the kernel.
#[derive(Debug, Default, Copy, Clone, Eq, PartialEq, Hash, Structural)]
pub struct SchedAttr {
    /// The byte size of the record.
    pub size: u32,
    /// The native policy number.
    pub sched_policy: u32,
    /// The deadline scheduling flags.
    pub sched_flags: u64,
    /// For SCHED_NORMAL and SCHED_BATCH.
    pub sched_nice: i32,
    /// For SCHED_FIFO and SCHED_RR.
    pub sched_priority: u32,
    /// For SCHED_DEADLINE: the runtime in nanoseconds.
    pub sched_runtime: u64,
    /// For SCHED_DEADLINE: the deadline in nanoseconds.
    pub sched_deadline: u64,
    /// For SCHED_DEADLINE: the period in nanoseconds.
    pub sched_period: u64,
    /// Utilization hint.
    pub sched_util_min: u32,
    /// Utilization hint.
    pub sched_util_max: u32,
}

/// Flags for controlling Deadline scheduling behavior.
#[derive(Debug, Copy, Clone, Eq, PartialEq, Ord, PartialOrd, Hash, Structural)]
pub struct DeadlineFlags {
    /// The raw flag bits, as the kernel consumes them.
    pub bits: u64,
}

impl DeadlineFlags {
    /// No flag set.
    pub fn empty() -> (r: Self)
        ensures
            r.bits == 0,
    {
        DeadlineFlags { bits: 0 }
    }

    /// Children created by a fork will not inherit privileged
    /// scheduling policies.
    pub fn reset_on_fork() -> (r: Self)
        ensures
            r.bits == 0x01,
    {
        DeadlineFlags { bits: 0x01 }
    }

    /// The thread may reclaim bandwidth that is unused by another
    /// realtime thread.
    pub fn reclaim() -> (r: Self)
        ensures
            r.bits == 0x02,
    {
        DeadlineFlags { bits: 0x02 }
    }

    /// Allows a task to get informed about runtime overruns through the
    /// delivery of SIGXCPU signals.
    pub fn deadline_overrun() -> (r: Self)
        ensures
            r.bits == 0x04,
    {
        DeadlineFlags { bits: 0x04 }
    }

    /// Both sets of flags together.
    pub fn union(self, other: Self) -> (r: Self)
        ensures
            r.bits == self.bits | other.bits,
    {
        DeadlineFlags { bits: self.bits | other.bits }
    }

    /// The raw flag bits.
    pub fn bits(self) -> (r: u64)
        ensures
            r == self.bits,
    {
        self.bits
    }
}

impl Default for DeadlineFlags {
    /// No flag set.
    fn default() -> (r: Self)
        ensures
            r.bits == 0,
    {
        DeadlineFlags { bits: 0 }
    }
}

/// The following "real-time" policies are also supported, for special time-critical applications
/// that need precise control over the way in which runnable processes are selected for execution.
#[derive(Debug, Copy, Clone, Eq, PartialEq, Ord, PartialOrd, Hash, Structural)]
pub enum RealtimeThreadSchedulePolicy {
    /// A first-in, first-out policy.
    Fifo,
    /// A round-robin policy.
    RoundRobin,
    /// A deadline policy (Linux). It has no notion of a scalar priority at
    /// all: applying it goes through the deadline attribute record, never
    /// through a `sched_priority` number.
    Deadline,
}

impl RealtimeThreadSchedulePolicy {
    /// The native number of this policy.
    pub open spec fn spec_to_posix(self) -> i32 {
        match self {
            RealtimeThreadSchedulePolicy::Fifo => SCHED_FIFO,
            RealtimeThreadSchedulePolicy::RoundRobin => SCHED_RR,
            RealtimeThreadSchedulePolicy::Deadline => SCHED_DEADLINE,
        }
    }

    /// The native number of this policy.
    #[verifier::when_used_as_spec(spec_to_posix)]
    pub fn to_posix(self) -> (r: i32)
        ensures
            r == self.spec_to_posix(),
    {
        match self {
            RealtimeThreadSchedulePolicy::Fifo => SCHED_FIFO,
            RealtimeThreadSchedulePolicy::RoundRobin => SCHED_RR,
            RealtimeThreadSchedulePolicy::Deadline => SCHED_DEADLINE,
        }
    }
}

/// Normal (non-realtime) schedule policies. For these schedule policies,
/// niceness is used where the platform keeps one per thread.
#[derive(Debug, Copy, Clone, Eq, PartialEq, Ord, PartialOrd, Hash, Structural)]
pub enum NormalThreadSchedulePolicy {
    /// For running very low priority background jobs (Linux).
    /// It can be used only at static priority 0; the nice value has no
    /// influence for this policy.
    Idle,
    /// For "batch" style execution of processes (Linux).
    /// It can be used only at static priority 0 and schedules by the nice
    /// value, mildly disfavoring the thread in scheduling decisions.
    Batch,
    /// The standard round-robin time-sharing policy, also sometimes referred
    /// to as "Normal". It can be used only at static priority 0 and schedules
    /// by the nice value.
    Other,
}

impl NormalThreadSchedulePolicy {
    /// The native number of this policy.
    pub open spec fn spec_to_posix(self) -> i32 {
        match self {
            NormalThreadSchedulePolicy::Idle => SCHED_IDLE,
            NormalThreadSchedulePolicy::Batch => SCHED_BATCH,
            NormalThreadSchedulePolicy::Other => SCHED_OTHER,
        }
    }

    /// The native number of this policy.
    #[verifier::when_used_as_spec(spec_to_posix)]
    pub fn to_posix(self) -> (r: i32)
        ensures
            r == self.spec_to_posix(),
    {
        match self {
            NormalThreadSchedulePolicy::Idle => SCHED_IDLE,
            NormalThreadSchedulePolicy::Batch => SCHED_BATCH,
            NormalThreadSchedulePolicy::Other => SCHED_OTHER,
        }
    }
}

/// Thread schedule policy definition.
#[derive(Debug, Copy, Clone, Eq, PartialEq, Ord, PartialOrd, Hash, Structural)]
pub enum ThreadSchedulePolicy {
    /// Normal thread schedule policies.
    Normal(NormalThreadSchedulePolicy),
    /// Realtime thread schedule policies.
    Realtime(RealtimeThreadSchedulePolicy),
}

impl ThreadSchedulePolicy {
    /// The native number of this policy.
    pub open spec fn spec_to_posix(self) -> i32 {
        match self {
            ThreadSchedulePolicy::Normal(p) => p.spec_to_posix(),
            ThreadSchedulePolicy::Realtime(p) => p.spec_to_posix(),
        }
    }

    /// The native number of this policy.
    #[verifier::when_used_as_spec(spec_to_posix)]
    pub fn to_posix(self) -> (r: i32)
        ensures
            r == self.spec_to_posix(),
    {
        match self {
            ThreadSchedulePolicy::Normal(p) => p.to_posix(),
            ThreadSchedulePolicy::Realtime(p) => p.to_posix(),
        }
    }

    /// The policy a native number stands for, if it is a known one.
    pub open spec fn spec_from_posix(policy: i32) -> Option<ThreadSchedulePolicy> {
        if policy == SCHED_OTHER {
            Some(ThreadSchedulePolicy::Normal(NormalThreadSchedulePolicy::Other))
        } else if policy == SCHED_BATCH {
            Some(ThreadSchedulePolicy::Normal(NormalThreadSchedulePolicy::Batch))
        } else if policy == SCHED_IDLE {
            Some(ThreadSchedulePolicy::Normal(NormalThreadSchedulePolicy::Idle))
        } else if policy == SCHED_FIFO {
            Some(ThreadSchedulePolicy::Realtime(RealtimeThreadSchedulePolicy::Fifo))
        } else if policy == SCHED_RR {
            Some(ThreadSchedulePolicy::Realtime(RealtimeThreadSchedulePolicy::RoundRobin))
        } else if policy == SCHED_DEADLINE {
            Some(ThreadSchedulePolicy::Realtime(RealtimeThreadSchedulePolicy::Deadline))
        } else {
            None
        }
    }

    /// Decodes a native policy number; a number that stands for no known
    /// policy is an FFI failure.
    pub fn from_posix(policy: i32) -> (r: Result<ThreadSchedulePolicy, Error>)
        ensures
            (match Self::spec_from_posix(policy) {
                Some(p) => r == Ok::<ThreadSchedulePolicy, Error>(p),
                None => r matches Err(Error::Ffi(_)),
            }),
    {
        if policy == SCHED_OTHER {
            Ok(ThreadSchedulePolicy::Normal(NormalThreadSchedulePolicy::Other))
        } else if policy == SCHED_BATCH {
            Ok(ThreadSchedulePolicy::Normal(NormalThreadSchedulePolicy::Batch))
        } else if policy == SCHED_IDLE {
            Ok(ThreadSchedulePolicy::Normal(NormalThreadSchedulePolicy::Idle))
        } else if policy == SCHED_FIFO {
            Ok(ThreadSchedulePolicy::Realtime(RealtimeThreadSchedulePolicy::Fifo))
        } else if policy == SCHED_RR {
            Ok(ThreadSchedulePolicy::Realtime(RealtimeThreadSchedulePolicy::RoundRobin))
        } else if policy == SCHED_DEADLINE {
            Ok(ThreadSchedulePolicy::Realtime(RealtimeThreadSchedulePolicy::Deadline))
        } else {
            Err(Error::Ffi("Can't parse schedule policy from posix"))
        }
    }
}

/// What the operating system reports about one scheduling policy: the native
/// priority bounds it answered for `sched_get_priority_min` and
/// `sched_get_priority_max`, and whether the platform gives every thread its
/// own niceness (Linux and Android do; the other POSIX systems keep one per
/// process).
#[derive(Debug, Copy, Clone, Eq, PartialEq, Hash, Structural)]
pub struct NativeLimits {
    /// What `sched_get_priority_min` answered for the policy.
    pub priority_min: i32,
    /// What `sched_get_priority_max` answered for the policy.
    pub priority_max: i32,
    /// Whether each thread has a niceness of its own.
    pub thread_niceness: bool,
}

/// Whether the deadline policy is asked for, which has no scalar priority.
pub open spec fn is_deadline_policy(policy: ThreadSchedulePolicy) -> bool {
    policy == ThreadSchedulePolicy::Realtime(RealtimeThreadSchedulePolicy::Deadline)
}

/// Whether a minimum and a maximum priority exist at all for the policy:
/// realtime policies have the reported bounds, and normal policies have the
/// niceness bounds only where threads have their own niceness.
pub open spec fn priority_bounds_known(policy: ThreadSchedulePolicy, limits: NativeLimits) -> bool {
    policy is Realtime || limits.thread_niceness
}

/// The lowest native number the policy accepts as a priority, as
/// [`ThreadPriority::min_value_for_policy`] reports it. For the policies
/// scheduled by niceness this is the niceness of the least favored thread,
/// which is the numerically largest one.
pub open spec fn spec_min_for(policy: ThreadSchedulePolicy, limits: NativeLimits) -> i32
    recommends
        priority_bounds_known(policy, limits),
{
    match policy {
        ThreadSchedulePolicy::Normal(np) => if np == NormalThreadSchedulePolicy::Idle {
            0
        } else {
            NICENESS_MIN as i32
        },
        ThreadSchedulePolicy::Realtime(_) => limits.priority_min,
    }
}

/// The highest native number the policy accepts as a priority, as
/// [`ThreadPriority::max_value_for_policy`] reports it.
pub open spec fn spec_max_for(policy: ThreadSchedulePolicy, limits: NativeLimits) -> i32
    recommends
        priority_bounds_known(policy, limits),
{
    match policy {
        ThreadSchedulePolicy::Normal(np) => if np == NormalThreadSchedulePolicy::Idle {
            0
        } else {
            NICENESS_MAX as i32
        },
        ThreadSchedulePolicy::Realtime(_) => limits.priority_max,
    }
}

/// The smaller of the policy's two bounds. The range check always normalizes
/// the bounds, whichever of them is numerically smaller.
pub open spec fn allowed_lo(policy: ThreadSchedulePolicy, limits: NativeLimits) -> i32 {
    if spec_min_for(policy, limits) <= spec_max_for(policy, limits) {
        spec_min_for(policy, limits)
    } else {
        spec_max_for(policy, limits)
    }
}

/// The larger of the policy's two bounds.
pub open spec fn allowed_hi(policy: ThreadSchedulePolicy, limits: NativeLimits) -> i32 {
    if spec_min_for(policy, limits) <= spec_max_for(policy, limits) {
        spec_max_for(policy, limits)
    } else {
        spec_min_for(policy, limits)
    }
}

/// Whether a native number lies between the policy's bounds, taken inclusively
/// and normalized.
pub open spec fn in_allowed_range(
    value: int,
    policy: ThreadSchedulePolicy,
    limits: NativeLimits,
) -> bool {
    allowed_lo(policy, limits) <= value <= allowed_hi(policy, limits)
}

/// The niceness a cross-platform percentage is rescaled to, on the platforms
/// that keep a niceness per thread: `p` out of the `[0, 99]` scale is mapped
/// linearly onto `[-20, 19]` by `-20 + (39 * p) / 99`, with the division
/// rounding down. So `0` maps to `-20` and `99` maps to `19`.
pub open spec fn spec_niceness_of(p: int) -> int {
    NICENESS_MAX + (39 * p) / 99
}

/// The native priority number a portable priority converts to under a policy,
/// or nothing where the combination is refused. This is the whole conversion
/// rule in one place:
/// - under the deadline policy nothing converts;
/// - `Min` and `Max` become the policy's own bounds, where bounds exist;
/// - a cross-platform value is taken as-is under a realtime policy and
///   rescaled to a niceness under a normal one, then held against the bounds;
/// - without a per-thread niceness a normal policy accepts exactly the
///   cross-platform value `0`, as the conventional fixed priority;
/// - an `Os` value is held against the bounds unchanged;
/// - a `Deadline` bundle never converts to a scalar.
pub open spec fn spec_native_priority(
    prio: ThreadPriority,
    policy: ThreadSchedulePolicy,
    limits: NativeLimits,
) -> Option<i32> {
    if is_deadline_policy(policy) {
        None
    } else {
        match prio {
            ThreadPriority::Min => if priority_bounds_known(policy, limits) {
                Some(spec_min_for(policy, limits))
            } else {
                None
            },
            ThreadPriority::Max => if priority_bounds_known(policy, limits) {
                Some(spec_max_for(policy, limits))
            } else {
                None
            },
            ThreadPriority::Crossplatform(v) => match policy {
                ThreadSchedulePolicy::Realtime(_) => if in_allowed_range(
                    v.value() as int,
                    policy,
                    limits,
                ) {
                    Some(v.value() as i32)
                } else {
                    None
                },
                ThreadSchedulePolicy::Normal(_) => if limits.thread_niceness {
                    if in_allowed_range(spec_niceness_of(v.value() as int), policy, limits) {
                        Some(spec_niceness_of(v.value() as int) as i32)
                    } else {
                        None
                    }
                } else {
                    if v.value() == 0 {
                        Some(0)
                    } else {
                        None
                    }
                },
            },
            ThreadPriority::Os(ov) => if !priority_bounds_known(policy, limits) {
                None
            } else if in_allowed_range(ov.spec_signed(), policy, limits) {
                Some(ov.spec_signed() as i32)
            } else {
                None
            },
            ThreadPriority::Deadline { .. } => None,
        }
    }
}

/// Whether a refused conversion was refused as a range violation: the bounds
/// were known, yet the number the priority stands for lies outside them.
/// Every other refusal is a semantic one.
pub open spec fn spec_out_of_range(
    prio: ThreadPriority,
    policy: ThreadSchedulePolicy,
    limits: NativeLimits,
) -> bool {
    &&& !is_deadline_policy(policy)
    &&& priority_bounds_known(policy, limits)
    &&& match prio {
        ThreadPriority::Crossplatform(v) => match policy {
            ThreadSchedulePolicy::Realtime(_) => !in_allowed_range(
                v.value() as int,
                policy,
                limits,
            ),
            ThreadSchedulePolicy::Normal(_) => limits.thread_niceness && !in_allowed_range(
                spec_niceness_of(v.value() as int),
                policy,
                limits,
            ),
        },
        ThreadPriority::Os(ov) => !in_allowed_range(ov.spec_signed(), policy, limits),
        _ => false,
    }
}

/// The priority a native number reconstructs to: its low byte, read back as
/// a cross-platform value.
pub open(crate) spec fn spec_from_posix(sched_priority: i32) -> ThreadPriority {
    ThreadPriority::Crossplatform(ThreadPriorityValue((sched_priority & 0xff) as u8))
}

impl ThreadPriority {
    /// Returns the maximum allowed value for using with the provided policy.
    /// The returned number is in the range of allowed values.
    ///
    /// For a normal policy on a platform without a per-thread niceness there
    /// is no such value, and the request is refused.
    pub fn max_value_for_policy(policy: ThreadSchedulePolicy, limits: NativeLimits) -> (r: Result<
        i32,
        Error,
    >)
        ensures
            priority_bounds_known(policy, limits) ==> r == Ok::<i32, Error>(
                spec_max_for(policy, limits),
            ),
            !priority_bounds_known(policy, limits) ==> (r matches Err(Error::Priority(_))),
    {
        match policy {
            ThreadSchedulePolicy::Normal(np) => {
                if limits.thread_niceness {
                    match np {
                        NormalThreadSchedulePolicy::Idle => Ok(0),
                        _ => Ok(NICENESS_MAX as i32),
                    }
                } else {
                    Err(
                        Error::Priority(
                            "This OS doesn't support specifying this thread priority with this policy. Consider changing the scheduling policy.",
                        ),
                    )
                }
            },
            ThreadSchedulePolicy::Realtime(_) => Ok(limits.priority_max),
        }
    }

    /// Returns the minimum allowed value for using with the provided policy.
    /// The returned number is in the range of allowed values.
    ///
    /// For a normal policy on a platform without a per-thread niceness there
    /// is no such value, and the request is refused.
    pub fn min_value_for_policy(policy: ThreadSchedulePolicy, limits: NativeLimits) -> (r: Result<
        i32,
        Error,
    >)
        ensures
            priority_bounds_known(policy, limits) ==> r == Ok::<i32, Error>(
                spec_min_for(policy, limits),
            ),
            !priority_bounds_known(policy, limits) ==> (r matches Err(Error::Priority(_))),
    {
        match policy {
            ThreadSchedulePolicy::Normal(np) => {
                if limits.thread_niceness {
                    match np {
                        NormalThreadSchedulePolicy::Idle => Ok(0),
                        _ => Ok(NICENESS_MIN as i32),
                    }
                } else {
                    Err(
                        Error::Priority(
                            "This OS doesn't support specifying this thread priority with this policy. Consider changing the scheduling policy.",
                        ),
                    )
                }
            },
            ThreadSchedulePolicy::Realtime(_) => Ok(limits.priority_min),
        }
    }

    /// Checks that the passed priority value is within the range of allowed
    /// values for using with the provided policy. The bounds are normalized
    /// before the check, whichever of them is numerically smaller.
    pub fn to_allowed_value_for_policy(
        priority: i32,
        policy: ThreadSchedulePolicy,
        limits: NativeLimits,
    ) -> (r: Result<i32, Error>)
        ensures
            priority_bounds_known(policy, limits) && in_allowed_range(
                priority as int,
                policy,
                limits,
            ) ==> r == Ok::<i32, Error>(priority),
            priority_bounds_known(policy, limits) && !in_allowed_range(
                priority as int,
                policy,
                limits,
            ) ==> (r matches Err(Error::PriorityNotInRange(range)) && range@.start == allowed_lo(
                policy,
                limits,
            ) && range@.end == allowed_hi(policy, limits)),
            !priority_bounds_known(policy, limits) ==> (r matches Err(Error::Priority(_))),
    {
        let min_priority = Self::min_value_for_policy(policy, limits)?;
        let max_priority = Self::max_value_for_policy(policy, limits)?;
        let lo = if min_priority <= max_priority {
            min_priority
        } else {
            max_priority
        };
        let hi = if min_priority <= max_priority {
            max_priority
        } else {
            min_priority
        };
        if lo <= priority && priority <= hi {
            Ok(priority)
        } else {
            Err(Error::PriorityNotInRange(std::ops::RangeInclusive::new(lo, hi)))
        }
    }

    /// Converts the priority stored to a posix number, which cannot be known
    /// without knowing the scheduling policy.
    ///
    /// For threads scheduled under one of the normal scheduling policies the
    /// native `sched_priority` is not used in scheduling decisions, so where
    /// the platform keeps a niceness per thread the niceness is used instead,
    /// and where it does not, only the conventional fixed value `0` passes.
    /// The deadline policy has no notion of a scalar priority at all, and
    /// refuses every conversion.
    pub fn to_posix(self, policy: ThreadSchedulePolicy, limits: NativeLimits) -> (r: Result<
        i32,
        Error,
    >)
        ensures
            (match spec_native_priority(self, policy, limits) {
                Some(v) => r == Ok::<i32, Error>(v),
                None => r is Err,
            }),
            r is Err && spec_out_of_range(self, policy, limits) ==> (r matches Err(
                Error::PriorityNotInRange(range),
            ) && range@.start == allowed_lo(policy, limits) && range@.end == allowed_hi(
                policy,
                limits,
            )),
            r is Err && !spec_out_of_range(self, policy, limits) ==> (r matches Err(
                Error::Priority(_),
            )),
    {
        let deadline_policy = matches!(
            policy,
            ThreadSchedulePolicy::Realtime(RealtimeThreadSchedulePolicy::Deadline)
        );
        match self {
            ThreadPriority::Min => {
                if deadline_policy {
                    Err(Error::Priority("Deadline scheduling must use deadline priority."))
                } else {
                    Self::min_value_for_policy(policy, limits)
                }
            },
            ThreadPriority::Max => {
                if deadline_policy {
                    Err(Error::Priority("Deadline scheduling must use deadline priority."))
                } else {
                    Self::max_value_for_policy(policy, limits)
                }
            },
            ThreadPriority::Crossplatform(v) => {
                if deadline_policy {
                    Err(Error::Priority("Deadline scheduling must use deadline priority."))
                } else {
                    match policy {
                        ThreadSchedulePolicy::Realtime(_) => Self::to_allowed_value_for_policy(
                            v.0 as i32,
                            policy,
                            limits,
                        ),
                        ThreadSchedulePolicy::Normal(_) => {
                            if limits.thread_niceness {
                                let niceness = NICENESS_MAX as i32 + (39 * (v.0 as i32)) / 99;
                                Self::to_allowed_value_for_policy(niceness, policy, limits)
                            } else {
                                if v.0 == 0 {
                                    Ok(0)
                                } else {
                                    Err(
                                        Error::Priority(
                                            "This OS doesn't support specifying this thread priority with this policy. Consider changing the scheduling policy.",
                                        ),
                                    )
                                }
                            }
                        },
                    }
                }
            },
            ThreadPriority::Os(ov) => {
                if deadline_policy {
                    Err(Error::Priority("Deadline scheduling must use deadline priority."))
                } else {
                    Self::to_allowed_value_for_policy(ov.signed(), policy, limits)
                }
            },
            ThreadPriority::Deadline { .. } => {
                Err(Error::Priority("Deadline is non-POSIX and cannot be converted."))
            },
        }
    }

    /// Gets priority value from POSIX value.
    /// In order to interpret it correctly, you should also take scheduling
    /// policy into account: the number is handed back unweighed, as a
    /// cross-platform value holding the low byte of what the OS reported.
    pub fn from_posix(params: ScheduleParams) -> (r: ThreadPriority)
        ensures
            r == spec_from_posix(params.sched_priority),
            0 <= params.sched_priority <= 255 ==> (r matches ThreadPriority::Crossplatform(v)
                && v.value() == params.sched_priority),
    {
        proof {
            let sp = params.sched_priority;
            assert(0 <= (sp & 0xff) <= 255) by (bit_vector);
            assert(0 <= sp <= 255 ==> (sp & 0xff) == sp) by (bit_vector);
        }
        ThreadPriority::Crossplatform(ThreadPriorityValue((params.sched_priority & 0xff) as u8))
    }
}

/// For every policy whose bounds exist, a successfully converted
/// cross-platform value lies between `min_value_for_policy` and
/// `max_value_for_policy`, the two taken normalized whichever of them is
/// numerically smaller.
pub proof fn lemma_converted_crossplatform_within_bounds(
    v: ThreadPriorityValue,
    policy: ThreadSchedulePolicy,
    limits: NativeLimits,
    n: i32,
)
    requires
        priority_bounds_known(policy, limits),
        spec_native_priority(ThreadPriority::Crossplatform(v), policy, limits) == Some(n),
    ensures
        allowed_lo(policy, limits) <= n <= allowed_hi(policy, limits),
{
}

/// `Min` converts to exactly what `min_value_for_policy` reports and `Max`
/// to exactly what `max_value_for_policy` reports, under every policy other
/// than the deadline one; where those bounds do not exist, `Min` and `Max`
/// are refused just as the bounds themselves are.
pub proof fn lemma_min_max_convert_to_bounds(policy: ThreadSchedulePolicy, limits: NativeLimits)
    requires
        !is_deadline_policy(policy),
    ensures
        priority_bounds_known(policy, limits) ==> spec_native_priority(
            ThreadPriority::Min,
            policy,
            limits,
        ) == Some(spec_min_for(policy, limits)),
        priority_bounds_known(policy, limits) ==> spec_native_priority(
            ThreadPriority::Max,
            policy,
            limits,
        ) == Some(spec_max_for(policy, limits)),
        !priority_bounds_known(policy, limits) ==> spec_native_priority(
            ThreadPriority::Min,
            policy,
            limits,
        ) is None && spec_native_priority(ThreadPriority::Max, policy, limits) is None,
{
}

/// Converting a cross-platform value under a realtime policy and reading the
/// native number back reconstructs a cross-platform value that converts to
/// the identical native number again: the native representation is a fixed
/// point of the round trip.
pub proof fn lemma_realtime_round_trip(
    v: ThreadPriorityValue,
    policy: ThreadSchedulePolicy,
    limits: NativeLimits,
    n: i32,
)
    requires
        (policy matches ThreadSchedulePolicy::Realtime(rp) && rp
            != RealtimeThreadSchedulePolicy::Deadline),
        spec_native_priority(ThreadPriority::Crossplatform(v), policy, limits) == Some(n),
    ensures
        spec_native_priority(spec_from_posix(n), policy, limits) == Some(n),
{
    assert(0 <= n < 256 ==> (n & 0xff) == n) by (bit_vector);
}

/// Under a realtime policy other than the deadline one, a cross-platform
/// value outside the policy's bounds is always refused, and refused as a
/// range violation.
pub proof fn lemma_realtime_out_of_range_is_range_rejection(
    v: ThreadPriorityValue,
    policy: ThreadSchedulePolicy,
    limits: NativeLimits,
)
    requires
        (policy matches ThreadSchedulePolicy::Realtime(rp) && rp
            != RealtimeThreadSchedulePolicy::Deadline),
        !in_allowed_range(v.value() as int, policy, limits),
    ensures
        spec_native_priority(ThreadPriority::Crossplatform(v), policy, limits) is None,
        spec_out_of_range(ThreadPriority::Crossplatform(v), policy, limits),
{
}

/// On a platform without a per-thread niceness, a normal policy accepts
/// exactly the cross-platform value `0`, which converts to the conventional
/// native priority `0` and reads back as the cross-platform value `0`; any
/// other cross-platform value is refused, and not as a range violation.
pub proof fn lemma_no_thread_niceness_normal_policy(
    v: ThreadPriorityValue,
    np: NormalThreadSchedulePolicy,
    limits: NativeLimits,
)
    requires
        !limits.thread_niceness,
    ensures
        v.value() == 0 ==> spec_native_priority(
            ThreadPriority::Crossplatform(v),
            ThreadSchedulePolicy::Normal(np),
            limits,
        ) == Some(0i32),
        v.value() != 0 ==> spec_native_priority(
            ThreadPriority::Crossplatform(v),
            ThreadSchedulePolicy::Normal(np),
            limits,
        ) is None,
        !spec_out_of_range(
            ThreadPriority::Crossplatform(v),
            ThreadSchedulePolicy::Normal(np),
            limits,
        ),
        (spec_from_posix(0) matches ThreadPriority::Crossplatform(z) && z.value() == 0),
{
    assert((0i32 & 0xff) == 0) by (bit_vector);
}

/// On a platform with a per-thread niceness, the rescaling of any
/// cross-platform value lands inside the niceness bounds, so converting one
/// under the `Other` or `Batch` policy always succeeds.
pub proof fn lemma_niceness_rescaling_is_total(
    v: ThreadPriorityValue,
    np: NormalThreadSchedulePolicy,
    limits: NativeLimits,
)
    requires
        limits.thread_niceness,
        v.value() <= 99,
        np != NormalThreadSchedulePolicy::Idle,
    ensures
        NICENESS_MAX <= spec_niceness_of(v.value() as int) <= NICENESS_MIN,
        spec_native_priority(
            ThreadPriority::Crossplatform(v),
            ThreadSchedulePolicy::Normal(np),
            limits,
        ) == Some(spec_niceness_of(v.value() as int) as i32),
{
    let p = v.value() as int;
    vstd::arithmetic::div_mod::lemma_div_pos_is_pos(39 * p, 99);
    vstd::arithmetic::div_mod::lemma_div_is_ordered(39 * p, 3861, 99);
}

/// Under the deadline policy no priority converts to a posix number at all:
/// the conversion is refused for every variant, and never as a range
/// violation — deadline scheduling has no notion of a scalar priority.
pub proof fn lemma_deadline_policy_refuses_conversion(prio: ThreadPriority, limits: NativeLimits)
    ensures
        spec_native_priority(
            prio,
            ThreadSchedulePolicy::Realtime(RealtimeThreadSchedulePolicy::Deadline),
            limits,
        ) is None,
        !spec_out_of_range(
            prio,
            ThreadSchedulePolicy::Realtime(RealtimeThreadSchedulePolicy::Deadline),
            limits,
        ),
{
}

/// The one native call that applying a priority and policy pair comes down
/// to, with every argument already computed and validated.
#[derive(Debug, Copy, Clone, Eq, PartialEq, Structural)]
pub enum SchedulingCall {
    /// Hand the policy and the parameters to the scheduler itself
    /// (`pthread_setschedparam`).
    SetSchedule {
        /// The native policy number.
        policy: i32,
        /// The parameters, carrying the native priority.
        params: ScheduleParams,
    },
    /// Set the thread's niceness (`setpriority`).
    SetNiceness {
        /// The niceness to set.
        niceness: i32,
    },
    /// Hand the deadline attribute record to the kernel (`sched_setattr`).
    SetAttributes {
        /// The record to hand over.
        attr: SchedAttr,
    },
}

/// The deadline attribute record for the given three durations, already in
/// nanoseconds, and the given flags.
pub open spec fn spec_deadline_attr(
    runtime: u64,
    deadline: u64,
    period: u64,
    flags: DeadlineFlags,
) -> SchedAttr {
    SchedAttr {
        size: SCHED_ATTR_SIZE,
        sched_policy: SCHED_DEADLINE as u32,
        sched_flags: flags.bits,
        sched_nice: 0,
        sched_priority: 0,
        sched_runtime: runtime,
        sched_deadline: deadline,
        sched_period: period,
        sched_util_min: 0,
        sched_util_max: 0,
    }
}

/// The native call that applying the pair comes down to, or nothing where
/// the pair is refused:
/// - the deadline policy takes the attribute record built from a `Deadline`
///   priority whose three durations fit into 64 bits of nanoseconds, and
///   refuses any other priority;
/// - every other policy takes the converted scalar: as a niceness where a
///   normal policy runs on a platform with a per-thread niceness, and
///   through the scheduler call itself otherwise.
pub open spec fn spec_scheduling_call(
    prio: ThreadPriority,
    policy: ThreadSchedulePolicy,
    limits: NativeLimits,
) -> Option<SchedulingCall> {
    if is_deadline_policy(policy) {
        match prio {
            ThreadPriority::Deadline { runtime, deadline, period, flags } => if runtime.spec_nanos()
                <= u64::MAX && deadline.spec_nanos() <= u64::MAX && period.spec_nanos()
                <= u64::MAX {
                Some(
                    SchedulingCall::SetAttributes {
                        attr: spec_deadline_attr(
                            runtime.spec_nanos() as u64,
                            deadline.spec_nanos() as u64,
                            period.spec_nanos() as u64,
                            flags,
                        ),
                    },
                )
            } else {
                None
            },
            _ => None,
        }
    } else {
        match spec_native_priority(prio, policy, limits) {
            Some(v) => match policy {
                ThreadSchedulePolicy::Normal(_) => if limits.thread_niceness {
                    Some(SchedulingCall::SetNiceness { niceness: v })
                } else {
                    Some(
                        SchedulingCall::SetSchedule {
                            policy: policy.spec_to_posix(),
                            params: ScheduleParams { sched_priority: v },
                        },
                    )
                },
                ThreadSchedulePolicy::Realtime(_) => Some(
                    SchedulingCall::SetSchedule {
                        policy: policy.spec_to_posix(),
                        params: ScheduleParams { sched_priority: v },
                    },
                ),
            },
            None => None,
        }
    }
}

/// Works out the one native call that sets a thread's priority and schedule
/// policy, validating everything that can be validated before any call is
/// made.
///
/// In case the value is specified as [`ThreadPriority::Crossplatform`] and is
/// incompatible with the policy, an error is returned. However if
/// [`ThreadPriority::Min`] or [`ThreadPriority::Max`] are used, the correct
/// value is used automatically according to the range of the policy's
/// allowed values. The deadline policy requires a [`ThreadPriority::Deadline`]
/// priority, whose durations must fit into 64 bits of nanoseconds; the
/// kernel's own `runtime <= deadline <= period` rule is left to the kernel.
pub fn plan_set_thread_priority_and_policy(
    priority: ThreadPriority,
    policy: ThreadSchedulePolicy,
    limits: NativeLimits,
) -> (r: Result<SchedulingCall, Error>)
    ensures
        (match spec_scheduling_call(priority, policy, limits) {
            Some(c) => r == Ok::<SchedulingCall, Error>(c),
            None => r is Err,
        }),
        r is Err && spec_out_of_range(priority, policy, limits) ==> (r matches Err(
            Error::PriorityNotInRange(range),
        ) && range@.start == allowed_lo(policy, limits) && range@.end == allowed_hi(
            policy,
            limits,
        )),
        r is Err && !spec_out_of_range(priority, policy, limits) ==> (r matches Err(
            Error::Priority(_),
        )),
{
    match policy {
        ThreadSchedulePolicy::Realtime(RealtimeThreadSchedulePolicy::Deadline) => {
            match priority {
                ThreadPriority::Deadline { runtime, deadline, period, flags } => {
                    let runtime_nanos = runtime.as_nanos();
                    let deadline_nanos = deadline.as_nanos();
                    let period_nanos = period.as_nanos();
                    if runtime_nanos > u64::MAX as u128 || deadline_nanos > u64::MAX as u128
                        || period_nanos > u64::MAX as u128 {
                        Err(Error::Priority("Deadline policy durations don't fit into a `u64`."))
                    } else {
                        Ok(
                            SchedulingCall::SetAttributes {
                                attr: SchedAttr {
                                    size: SCHED_ATTR_SIZE,
                                    sched_policy: SCHED_DEADLINE as u32,
                                    sched_flags: flags.bits,
                                    sched_nice: 0,
                                    sched_priority: 0,
                                    sched_runtime: runtime_nanos as u64,
                                    sched_deadline: deadline_nanos as u64,
                                    sched_period: period_nanos as u64,
                                    sched_util_min: 0,
                                    sched_util_max: 0,
                                },
                            },
                        )
                    }
                },
                _ => Err(Error::Priority("Deadline policy given without deadline priority.")),
            }
        },
        _ => {
            let fixed_priority = priority.to_posix(policy, limits)?;
            match policy {
                ThreadSchedulePolicy::Normal(_) => {
                    if limits.thread_niceness {
                        Ok(SchedulingCall::SetNiceness { niceness: fixed_priority })
                    } else {
                        Ok(
                            SchedulingCall::SetSchedule {
                                policy: policy.to_posix(),
                                params: ScheduleParams { sched_priority: fixed_priority },
                            },
                        )
                    }
                },
                ThreadSchedulePolicy::Realtime(_) => {
                    Ok(
                        SchedulingCall::SetSchedule {
                            policy: policy.to_posix(),
                            params: ScheduleParams { sched_priority: fixed_priority },
                        },
                    )
                },
            }
        },
    }
}


} // verus!
