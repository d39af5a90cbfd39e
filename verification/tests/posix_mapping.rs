//! The POSIX mapper: policy numbers, priority bounds, the conversion in both
//! directions, and the planned native call.

use thread_priority::unix::{
    DeadlineFlags, NativeLimits, NormalThreadSchedulePolicy, RealtimeThreadSchedulePolicy,
    SchedAttr, ScheduleParams, SchedulingCall, ThreadSchedulePolicy,
    plan_set_thread_priority_and_policy, NICENESS_MAX, NICENESS_MIN,
};
use thread_priority::{Duration, Error, ThreadPriority, ThreadPriorityOsValue, ThreadPriorityValue};

fn linux_limits() -> NativeLimits {
    NativeLimits { priority_min: 1, priority_max: 99, thread_niceness: true }
}

fn no_niceness_limits() -> NativeLimits {
    NativeLimits { priority_min: 1, priority_max: 99, thread_niceness: false }
}

fn crossplatform(p: u8) -> ThreadPriority {
    ThreadPriority::Crossplatform(ThreadPriorityValue::try_from(p).unwrap())
}

#[allow(non_snake_case)]
fn OTHER() -> ThreadSchedulePolicy {
    ThreadSchedulePolicy::Normal(NormalThreadSchedulePolicy::Other)
}
#[allow(non_snake_case)]
fn BATCH() -> ThreadSchedulePolicy {
    ThreadSchedulePolicy::Normal(NormalThreadSchedulePolicy::Batch)
}
#[allow(non_snake_case)]
fn IDLE() -> ThreadSchedulePolicy {
    ThreadSchedulePolicy::Normal(NormalThreadSchedulePolicy::Idle)
}
#[allow(non_snake_case)]
fn FIFO() -> ThreadSchedulePolicy {
    ThreadSchedulePolicy::Realtime(RealtimeThreadSchedulePolicy::Fifo)
}
#[allow(non_snake_case)]
fn ROUND_ROBIN() -> ThreadSchedulePolicy {
    ThreadSchedulePolicy::Realtime(RealtimeThreadSchedulePolicy::RoundRobin)
}
#[allow(non_snake_case)]
fn DEADLINE() -> ThreadSchedulePolicy {
    ThreadSchedulePolicy::Realtime(RealtimeThreadSchedulePolicy::Deadline)
}

#[test]
fn policy_numbers_round_trip() {
    for policy in [OTHER(), BATCH(), IDLE(), FIFO(), ROUND_ROBIN(), DEADLINE()] {
        assert_eq!(ThreadSchedulePolicy::from_posix(policy.to_posix()), Ok(policy));
    }
    assert_eq!(OTHER().to_posix(), 0);
    assert_eq!(FIFO().to_posix(), 1);
    assert_eq!(ROUND_ROBIN().to_posix(), 2);
    assert_eq!(BATCH().to_posix(), 3);
    assert_eq!(IDLE().to_posix(), 5);
    assert_eq!(DEADLINE().to_posix(), 6);
}

#[test]
fn unknown_policy_number_is_an_ffi_error() {
    assert!(matches!(ThreadSchedulePolicy::from_posix(4), Err(Error::Ffi(_))));
    assert!(matches!(ThreadSchedulePolicy::from_posix(-1), Err(Error::Ffi(_))));
}

#[test]
fn bounds_follow_the_policy() {
    let limits = linux_limits();
    assert_eq!(ThreadPriority::min_value_for_policy(FIFO(), limits), Ok(1));
    assert_eq!(ThreadPriority::max_value_for_policy(FIFO(), limits), Ok(99));
    assert_eq!(ThreadPriority::min_value_for_policy(OTHER(), limits), Ok(NICENESS_MIN as i32));
    assert_eq!(ThreadPriority::max_value_for_policy(OTHER(), limits), Ok(NICENESS_MAX as i32));
    assert_eq!(ThreadPriority::min_value_for_policy(IDLE(), limits), Ok(0));
    assert_eq!(ThreadPriority::max_value_for_policy(IDLE(), limits), Ok(0));
}

#[test]
fn bounds_do_not_exist_without_thread_niceness() {
    let limits = no_niceness_limits();
    assert!(matches!(
        ThreadPriority::min_value_for_policy(OTHER(), limits),
        Err(Error::Priority(_))
    ));
    assert!(matches!(
        ThreadPriority::max_value_for_policy(OTHER(), limits),
        Err(Error::Priority(_))
    ));
    assert_eq!(ThreadPriority::min_value_for_policy(FIFO(), limits), Ok(1));
}

#[test]
fn range_check_normalizes_the_bounds() {
    let limits = linux_limits();
    // niceness has its minimum as the numerically largest value
    assert_eq!(ThreadPriority::to_allowed_value_for_policy(-20, OTHER(), limits), Ok(-20));
    assert_eq!(ThreadPriority::to_allowed_value_for_policy(19, OTHER(), limits), Ok(19));
    assert_eq!(
        ThreadPriority::to_allowed_value_for_policy(20, OTHER(), limits),
        Err(Error::PriorityNotInRange(-20..=19))
    );
    assert_eq!(
        ThreadPriority::to_allowed_value_for_policy(23, IDLE(), limits),
        Err(Error::PriorityNotInRange(0..=0))
    );
}

#[test]
fn min_and_max_convert_to_the_reported_bounds() {
    let limits = linux_limits();
    for policy in [OTHER(), BATCH(), IDLE(), FIFO(), ROUND_ROBIN()] {
        assert_eq!(
            ThreadPriority::Min.to_posix(policy, limits),
            ThreadPriority::min_value_for_policy(policy, limits)
        );
        assert_eq!(
            ThreadPriority::Max.to_posix(policy, limits),
            ThreadPriority::max_value_for_policy(policy, limits)
        );
    }
    assert_eq!(ThreadPriority::Min.to_posix(FIFO(), limits), Ok(1));
    assert_eq!(ThreadPriority::Max.to_posix(FIFO(), limits), Ok(99));
    assert_eq!(ThreadPriority::Min.to_posix(OTHER(), limits), Ok(19));
    assert_eq!(ThreadPriority::Max.to_posix(OTHER(), limits), Ok(-20));
}

#[test]
fn crossplatform_values_rescale_to_niceness() {
    let limits = linux_limits();
    // -20 + (39 * p) / 99, rounding down
    assert_eq!(crossplatform(0).to_posix(OTHER(), limits), Ok(-20));
    assert_eq!(crossplatform(30).to_posix(OTHER(), limits), Ok(-9));
    assert_eq!(crossplatform(51).to_posix(OTHER(), limits), Ok(0));
    assert_eq!(crossplatform(99).to_posix(OTHER(), limits), Ok(19));
    assert_eq!(crossplatform(23).to_posix(BATCH(), limits), Ok(-11));
}

#[test]
fn idle_accepts_only_what_rescales_to_zero() {
    let limits = linux_limits();
    assert_eq!(crossplatform(51).to_posix(IDLE(), limits), Ok(0));
    assert_eq!(
        crossplatform(23).to_posix(IDLE(), limits),
        Err(Error::PriorityNotInRange(0..=0))
    );
}

#[test]
fn realtime_takes_crossplatform_values_as_they_are() {
    let limits = linux_limits();
    assert_eq!(crossplatform(1).to_posix(FIFO(), limits), Ok(1));
    assert_eq!(crossplatform(23).to_posix(FIFO(), limits), Ok(23));
    assert_eq!(crossplatform(99).to_posix(ROUND_ROBIN(), limits), Ok(99));
}

#[test]
fn realtime_rejects_out_of_range_values_with_the_range() {
    let limits = linux_limits();
    assert_eq!(
        crossplatform(0).to_posix(FIFO(), limits),
        Err(Error::PriorityNotInRange(1..=99))
    );
    assert_eq!(
        crossplatform(0).to_posix(ROUND_ROBIN(), limits),
        Err(Error::PriorityNotInRange(1..=99))
    );
}

#[test]
fn os_values_are_checked_against_the_same_range() {
    let limits = linux_limits();
    assert_eq!(
        ThreadPriority::Os(ThreadPriorityOsValue::new(42)).to_posix(FIFO(), limits),
        Ok(42)
    );
    assert_eq!(
        ThreadPriority::Os(ThreadPriorityOsValue::new(100)).to_posix(FIFO(), limits),
        Err(Error::PriorityNotInRange(1..=99))
    );
    assert_eq!(
        ThreadPriority::Os(ThreadPriorityOsValue::new(10)).to_posix(OTHER(), limits),
        Ok(10)
    );
}

#[test]
fn without_thread_niceness_only_zero_passes_for_normal_policies() {
    let limits = no_niceness_limits();
    assert_eq!(crossplatform(0).to_posix(OTHER(), limits), Ok(0));
    assert!(matches!(
        crossplatform(1).to_posix(OTHER(), limits),
        Err(Error::Priority(_))
    ));
    assert!(matches!(
        crossplatform(23).to_posix(OTHER(), limits),
        Err(Error::Priority(_))
    ));
    assert!(matches!(
        ThreadPriority::Min.to_posix(OTHER(), limits),
        Err(Error::Priority(_))
    ));
}

#[test]
fn every_priority_fails_under_the_deadline_policy() {
    let limits = linux_limits();
    let deadline_priority = ThreadPriority::Deadline {
        runtime: Duration::from_millis(1),
        deadline: Duration::from_millis(10),
        period: Duration::from_millis(100),
        flags: DeadlineFlags::empty(),
    };
    for priority in [
        ThreadPriority::Min,
        ThreadPriority::Max,
        crossplatform(50),
        ThreadPriority::Os(ThreadPriorityOsValue::new(3)),
        deadline_priority,
    ] {
        assert!(matches!(priority.to_posix(DEADLINE(), limits), Err(Error::Priority(_))));
    }
}

#[test]
fn the_deadline_bundle_fails_under_every_policy() {
    let limits = linux_limits();
    let deadline_priority = ThreadPriority::Deadline {
        runtime: Duration::from_millis(1),
        deadline: Duration::from_millis(10),
        period: Duration::from_millis(100),
        flags: DeadlineFlags::empty(),
    };
    for policy in [OTHER(), BATCH(), IDLE(), FIFO(), ROUND_ROBIN()] {
        assert!(matches!(
            deadline_priority.to_posix(policy, limits),
            Err(Error::Priority(_))
        ));
    }
}

#[test]
fn reading_back_reconstructs_a_crossplatform_value() {
    let read = ThreadPriority::from_posix(ScheduleParams { sched_priority: 23 });
    assert_eq!(read, crossplatform(23));
    let read = ThreadPriority::from_posix(ScheduleParams { sched_priority: 0 });
    assert_eq!(read, crossplatform(0));
}

#[test]
fn reading_back_keeps_the_low_byte() {
    let read = ThreadPriority::from_posix(ScheduleParams { sched_priority: -9 });
    match read {
        ThreadPriority::Crossplatform(v) => assert_eq!(v.into(), 247),
        other => panic!("read back {:?} instead of a cross-platform value", other),
    }
    let read = ThreadPriority::from_posix(ScheduleParams { sched_priority: 300 });
    match read {
        ThreadPriority::Crossplatform(v) => assert_eq!(v.into(), 44),
        other => panic!("read back {:?} instead of a cross-platform value", other),
    }
}

#[test]
fn realtime_round_trip_is_stable_on_the_native_value() {
    let limits = linux_limits();
    for p in [1u8, 23, 50, 99] {
        let native = crossplatform(p).to_posix(FIFO(), limits).unwrap();
        let back = ThreadPriority::from_posix(ScheduleParams { sched_priority: native });
        assert_eq!(back.to_posix(FIFO(), limits), Ok(native));
    }
}

#[test]
fn plan_uses_the_scheduler_call_for_realtime_policies() {
    let limits = linux_limits();
    assert_eq!(
        plan_set_thread_priority_and_policy(ThreadPriority::Max, FIFO(), limits),
        Ok(SchedulingCall::SetSchedule {
            policy: 1,
            params: ScheduleParams { sched_priority: 99 },
        })
    );
    assert_eq!(
        plan_set_thread_priority_and_policy(crossplatform(23), ROUND_ROBIN(), limits),
        Ok(SchedulingCall::SetSchedule {
            policy: 2,
            params: ScheduleParams { sched_priority: 23 },
        })
    );
}

#[test]
fn plan_uses_niceness_for_normal_policies_where_threads_have_one() {
    let limits = linux_limits();
    assert_eq!(
        plan_set_thread_priority_and_policy(crossplatform(30), OTHER(), limits),
        Ok(SchedulingCall::SetNiceness { niceness: -9 })
    );
    assert_eq!(
        plan_set_thread_priority_and_policy(crossplatform(70), OTHER(), limits),
        Ok(SchedulingCall::SetNiceness { niceness: 7 })
    );
}

#[test]
fn plan_uses_the_scheduler_call_for_normal_policies_without_thread_niceness() {
    let limits = no_niceness_limits();
    assert_eq!(
        plan_set_thread_priority_and_policy(crossplatform(0), OTHER(), limits),
        Ok(SchedulingCall::SetSchedule {
            policy: 0,
            params: ScheduleParams { sched_priority: 0 },
        })
    );
    assert!(matches!(
        plan_set_thread_priority_and_policy(crossplatform(5), OTHER(), limits),
        Err(Error::Priority(_))
    ));
}

#[test]
fn plan_builds_the_deadline_attribute_record_in_nanoseconds() {
    let limits = linux_limits();
    let priority = ThreadPriority::Deadline {
        runtime: Duration::from_millis(1),
        deadline: Duration::from_millis(10),
        period: Duration::from_millis(100),
        flags: DeadlineFlags::reset_on_fork(),
    };
    let planned = plan_set_thread_priority_and_policy(priority, DEADLINE(), limits).unwrap();
    let attr = match planned {
        SchedulingCall::SetAttributes { attr } => attr,
        other => panic!("planned {:?} instead of the attribute record", other),
    };
    assert_eq!(
        attr,
        SchedAttr {
            size: 56,
            sched_policy: 6,
            sched_flags: DeadlineFlags::reset_on_fork().bits(),
            sched_nice: 0,
            sched_priority: 0,
            sched_runtime: 1_000_000,
            sched_deadline: 10_000_000,
            sched_period: 100_000_000,
            sched_util_min: 0,
            sched_util_max: 0,
        }
    );
}

#[test]
fn plan_rejects_durations_that_do_not_fit() {
    let limits = linux_limits();
    let priority = ThreadPriority::Deadline {
        runtime: Duration::from_secs(u64::MAX),
        deadline: Duration::from_secs(u64::MAX),
        period: Duration::from_secs(u64::MAX),
        flags: DeadlineFlags::empty(),
    };
    assert!(matches!(
        plan_set_thread_priority_and_policy(priority, DEADLINE(), limits),
        Err(Error::Priority(_))
    ));
}

#[test]
fn plan_rejects_the_deadline_policy_without_a_deadline_priority() {
    let limits = linux_limits();
    for priority in [ThreadPriority::Min, ThreadPriority::Max, crossplatform(50)] {
        assert!(matches!(
            plan_set_thread_priority_and_policy(priority, DEADLINE(), limits),
            Err(Error::Priority(_))
        ));
    }
}

#[test]
fn converted_crossplatform_values_stay_between_the_bounds() {
    let limits = linux_limits();
    for policy in [OTHER(), BATCH(), IDLE(), FIFO(), ROUND_ROBIN()] {
        let min_value = ThreadPriority::min_value_for_policy(policy, limits).unwrap();
        let max_value = ThreadPriority::max_value_for_policy(policy, limits).unwrap();
        let lo = min_value.min(max_value);
        let hi = min_value.max(max_value);
        for p in 0..=99u8 {
            if let Ok(native) = crossplatform(p).to_posix(policy, limits) {
                assert!(lo <= native && native <= hi);
            }
        }
    }
}
