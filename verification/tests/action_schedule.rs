use dlms_interface::action_schedule::ActionSchedule;
use dlms_interface::{CosemObject, DataObject, ObisCode};

#[test]
fn test_action_schedule_class_id() {
    let schedule = ActionSchedule::with_default_obis();
    assert_eq!(schedule.class_id(), 95);
}

#[test]
fn test_action_schedule_obis_code() {
    let schedule = ActionSchedule::with_default_obis();
    assert_eq!(schedule.obis_code(), ActionSchedule::default_obis());
}

#[test]
fn test_action_schedule_initial_state() {
    let schedule = ActionSchedule::with_default_obis();
    assert!(!schedule.enabled());
    assert_eq!(schedule.execution_time(), None);
    assert_eq!(schedule.action_script(), 0);
    assert_eq!(schedule.last_execution_time(), None);
    assert_eq!(schedule.execution_count(), 0);
}

#[test]
fn test_action_schedule_with_script() {
    let schedule = ActionSchedule::with_script(ObisCode::new(0, 0, 95, 0, 0, 255), 42);
    assert_eq!(schedule.action_script(), 42);
}

#[test]
fn test_action_schedule_enable_disable() {
    let mut schedule = ActionSchedule::with_default_obis();
    assert!(!schedule.is_enabled());

    schedule.enable();
    assert!(schedule.is_enabled());

    schedule.disable();
    assert!(!schedule.is_enabled());
}

#[test]
fn test_action_schedule_set_execution_time() {
    let mut schedule = ActionSchedule::with_default_obis();
    schedule.set_execution_time(Some(1609459200));
    assert_eq!(schedule.execution_time(), Some(1609459200));
}

#[test]
fn test_action_schedule_set_action_script() {
    let mut schedule = ActionSchedule::with_default_obis();
    schedule.set_action_script(10);
    assert_eq!(schedule.action_script(), 10);
}

#[test]
fn test_action_schedule_schedule_at() {
    let mut schedule = ActionSchedule::with_default_obis();
    schedule.schedule_at(1609459200);
    assert!(schedule.enabled());
    assert_eq!(schedule.execution_time(), Some(1609459200));
}

#[test]
fn test_action_schedule_is_due() {
    let mut schedule = ActionSchedule::with_default_obis();
    let past_time = 1000000000; // Year 2001

    schedule.set_execution_time(Some(past_time));
    schedule.enable();
    assert!(schedule.is_due());
}

#[test]
fn test_action_schedule_is_not_due_when_disabled() {
    let mut schedule = ActionSchedule::with_default_obis();
    let past_time = 1000000000;

    schedule.set_execution_time(Some(past_time));
    // Don't enable
    assert!(!schedule.is_due());
}

#[test]
fn test_action_schedule_is_pending() {
    let mut schedule = ActionSchedule::with_default_obis();
    let future_time = 4000000000; // Year 2097

    schedule.set_execution_time(Some(future_time));
    schedule.enable();
    assert!(schedule.is_pending());
}

#[test]
fn test_action_schedule_is_not_pending_when_past() {
    let mut schedule = ActionSchedule::with_default_obis();
    let past_time = 1000000000;

    schedule.set_execution_time(Some(past_time));
    schedule.enable();
    assert!(!schedule.is_pending());
}

#[test]
fn test_action_schedule_execute() {
    let mut schedule = ActionSchedule::with_default_obis();
    let past_time = 1000000000;

    schedule.set_execution_time(Some(past_time));
    schedule.enable();

    schedule.execute().unwrap();

    assert!(!schedule.enabled());
    assert_eq!(schedule.execution_time(), None);
    assert!(schedule.last_execution_time().is_some());
    assert_eq!(schedule.execution_count(), 1);
}

#[test]
fn test_action_schedule_execute_when_not_enabled() {
    let mut schedule = ActionSchedule::with_default_obis();
    let past_time = 1000000000;

    schedule.set_execution_time(Some(past_time));
    // Don't enable

    let result = schedule.execute();
    assert!(result.is_err());
}

#[test]
fn test_action_schedule_execute_when_not_due() {
    let mut schedule = ActionSchedule::with_default_obis();
    let future_time = 4000000000;

    schedule.set_execution_time(Some(future_time));
    schedule.enable();

    let result = schedule.execute();
    assert!(result.is_err());
}

#[test]
fn test_action_schedule_schedule_after() {
    let mut schedule = ActionSchedule::with_default_obis();
    schedule.schedule_after(3600); // 1 hour from now

    assert!(schedule.enabled());
    assert!(schedule.is_pending());

    let time_until = schedule.time_until_execution();
    assert!(time_until.is_some());
    assert!(time_until.unwrap() > 0 && time_until.unwrap() <= 3601);
}

#[test]
fn test_action_schedule_time_until_execution() {
    let mut schedule = ActionSchedule::with_default_obis();
    schedule.set_execution_time(Some(1609459200));

    let time_until = schedule.time_until_execution();
    assert!(time_until.is_some());
}

#[test]
fn test_action_schedule_time_until_execution_none() {
    let schedule = ActionSchedule::with_default_obis();
    assert_eq!(schedule.time_until_execution(), None);
}

#[test]
fn test_action_schedule_reset_execution_count() {
    let mut schedule = ActionSchedule::with_default_obis();
    let past_time = 1000000000;

    schedule.set_execution_time(Some(past_time));
    schedule.enable();
    schedule.execute().unwrap();

    assert_eq!(schedule.execution_count(), 1);

    schedule.reset_execution_count();
    assert_eq!(schedule.execution_count(), 0);
}

#[test]
fn test_action_schedule_has_executed() {
    let mut schedule = ActionSchedule::with_default_obis();
    assert!(!schedule.has_executed());

    let past_time = 1000000000;
    schedule.set_execution_time(Some(past_time));
    schedule.enable();
    schedule.execute().unwrap();

    assert!(schedule.has_executed());
}

#[test]
fn test_action_schedule_get_attributes() {
    let schedule = ActionSchedule::with_default_obis();

    // Test enabled
    let result = schedule.get_attribute(2, None).unwrap();
    match result {
        DataObject::Boolean(enabled) => assert!(!enabled),
        _ => panic!("Expected Boolean"),
    }

    // Test action_script
    let result = schedule.get_attribute(4, None).unwrap();
    match result {
        DataObject::Unsigned8(script) => assert_eq!(script, 0),
        _ => panic!("Expected Unsigned8"),
    }
}

#[test]
fn test_action_schedule_set_attributes() {
    let mut schedule = ActionSchedule::with_default_obis();

    schedule.set_attribute(2, DataObject::Boolean(true), None).unwrap();
    assert!(schedule.enabled());

    schedule.set_attribute(4, DataObject::Unsigned8(123), None).unwrap();
    assert_eq!(schedule.action_script(), 123);
}

#[test]
fn test_action_schedule_set_execution_time_attribute() {
    let mut schedule = ActionSchedule::with_default_obis();
    schedule.set_attribute(3, DataObject::Integer32(1234567890), None).unwrap();
    assert_eq!(schedule.execution_time(), Some(1234567890));
}

#[test]
fn test_action_schedule_set_execution_time_null() {
    let mut schedule = ActionSchedule::with_default_obis();
    schedule.set_execution_time(Some(1234567890));
    schedule.set_attribute(3, DataObject::Null, None).unwrap();
    assert_eq!(schedule.execution_time(), None);
}

#[test]
fn test_action_schedule_read_only_logical_name() {
    let mut schedule = ActionSchedule::with_default_obis();
    let result = schedule
        .set_attribute(1, DataObject::OctetString(vec![0, 0, 95, 0, 0, 1]), None);
    assert!(result.is_err());
}

#[test]
fn test_action_schedule_read_only_last_execution_time() {
    let mut schedule = ActionSchedule::with_default_obis();
    let result = schedule
        .set_attribute(5, DataObject::Integer32(1234567890), None);
    assert!(result.is_err());
}

#[test]
fn test_action_schedule_read_only_execution_count() {
    let mut schedule = ActionSchedule::with_default_obis();
    let result = schedule
        .set_attribute(6, DataObject::Unsigned32(100), None);
    assert!(result.is_err());
}

#[test]
fn test_action_schedule_invalid_attribute() {
    let schedule = ActionSchedule::with_default_obis();
    let result = schedule.get_attribute(99, None);
    assert!(result.is_err());
}

#[test]
fn test_action_schedule_invalid_method() {
    let mut schedule = ActionSchedule::with_default_obis();
    let result = schedule.invoke_method(1, None, None);
    assert!(result.is_err());
}

#[test]
fn test_action_schedule_with_custom_obis() {
    let obis = ObisCode::new(1, 1, 95, 0, 0, 1);
    let schedule = ActionSchedule::new(obis);
    assert_eq!(schedule.obis_code(), obis);
}

#[test]
fn test_action_schedule_multiple_executions() {
    let mut schedule = ActionSchedule::with_default_obis();
    let past_time = 1000000000;

    // First execution
    schedule.set_execution_time(Some(past_time));
    schedule.enable();
    schedule.execute().unwrap();

    // Schedule again
    schedule.schedule_at(past_time + 100);
    schedule.execute().unwrap();

    assert_eq!(schedule.execution_count(), 2);
}

#[test]
fn test_execute_at_fixed_times() {
    let mut schedule = ActionSchedule::with_default_obis();
    schedule.schedule_at(100);
    assert!(schedule.execute_at(99).is_err());
    assert!(schedule.is_pending_at(99));
    assert!(!schedule.is_due_at(99));
    schedule.execute_at(100).unwrap();
    assert_eq!(schedule.last_execution_time(), Some(100));
    assert_eq!(schedule.execution_count(), 1);
    assert!(schedule.execute_at(200).is_err());
    assert_eq!(schedule.execution_count(), 1);
}

#[test]
fn test_schedule_after_at_and_time_until() {
    let mut schedule = ActionSchedule::with_default_obis();
    schedule.schedule_after_at(1_000, 60);
    assert_eq!(schedule.execution_time(), Some(1_060));
    assert_eq!(schedule.time_until_execution_at(1_000), Some(60));
    assert_eq!(schedule.time_until_execution_at(1_100), Some(-40));
}

#[test]
fn test_execution_time_read_as_integer32() {
    let mut schedule = ActionSchedule::with_default_obis();
    schedule.set_execution_time(Some(0x1_0000_0005));
    assert_eq!(schedule.get_attribute(3, None).unwrap(), DataObject::Integer32(5));
    assert_eq!(schedule.get_attribute(5, None).unwrap(), DataObject::Null);
    assert!(schedule.set_attribute(3, DataObject::Unsigned32(1), None).is_err());
}
