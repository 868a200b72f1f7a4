//! Tests for Haiku thread priority support.

use thread_priority::{
    get_thread_priority, set_thread_priority_and_policy, thread_schedule_policy,
    thread_schedule_policy_param, Error, NormalThreadSchedulePolicy, ThreadPriority,
    ThreadPriorityValue, ThreadSchedulePolicy, HAIKU_MAX_PRIORITY, HAIKU_MIN_PRIORITY,
    HAIKU_NORMAL_PRIORITY,
};

#[test]
fn get_thread_priority_works() {
    let priority = get_thread_priority(0, HAIKU_NORMAL_PRIORITY);
    assert!(priority.is_ok());
}

#[test]
fn thread_schedule_policy_returns_other() {
    let policy = thread_schedule_policy();
    assert_eq!(
        policy,
        Ok(ThreadSchedulePolicy::Normal(NormalThreadSchedulePolicy::Other))
    );
}

#[test]
fn thread_schedule_policy_param_works() {
    let result = thread_schedule_policy_param(0, HAIKU_NORMAL_PRIORITY);
    assert!(result.is_ok());
    let (policy, params) = result.unwrap();
    assert_eq!(
        policy,
        ThreadSchedulePolicy::Normal(NormalThreadSchedulePolicy::Other)
    );
    // Haiku priority should be in valid range
    assert!(params.sched_priority >= HAIKU_MIN_PRIORITY);
    assert!(params.sched_priority <= HAIKU_MAX_PRIORITY);
}

#[test]
fn set_and_get_current_thread_priority() {
    let normal_policy = ThreadSchedulePolicy::Normal(NormalThreadSchedulePolicy::Other);

    // Set a specific priority
    let result = set_thread_priority_and_policy(
        1,
        ThreadPriority::Crossplatform(ThreadPriorityValue::try_new(50).unwrap()),
        normal_policy,
    );
    assert!(result.is_ok());

    // Get it back and verify it's in a reasonable range
    let update = result.unwrap();
    let priority = get_thread_priority(0, update.native_priority);
    assert!(priority.is_ok());
}

#[test]
fn check_min_and_max_priority_values() {
    let policy = ThreadSchedulePolicy::Normal(NormalThreadSchedulePolicy::Other);
    let max_value = ThreadPriority::max_value_for_policy(policy).unwrap();
    let min_value = ThreadPriority::min_value_for_policy(policy).unwrap();

    assert_eq!(min_value, HAIKU_MIN_PRIORITY);
    assert_eq!(max_value, HAIKU_MAX_PRIORITY);
}

#[test]
fn set_min_priority() {
    let result = set_thread_priority_and_policy(
        1,
        ThreadPriority::Min,
        ThreadSchedulePolicy::Normal(NormalThreadSchedulePolicy::Other),
    );
    assert!(result.is_ok());
}

#[test]
fn set_max_priority() {
    // Setting max priority might require elevated privileges on Haiku, so an
    // OS error is acceptable once the native call is made.
    let result = set_thread_priority_and_policy(
        1,
        ThreadPriority::Max,
        ThreadSchedulePolicy::Normal(NormalThreadSchedulePolicy::Other),
    );
    match result {
        Ok(_) => (),
        Err(Error::OS(_)) => (),
        other => panic!("Unexpected result: {:?}", other),
    }
}
