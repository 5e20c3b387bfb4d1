use dlms_interface::alarm::{Alarm, AlarmStatus, AlarmType};
use dlms_interface::{CosemObject, DataObject};

#[test]
fn test_alarm_class_id() {
    let alarm = Alarm::with_default_obis();
    assert_eq!(alarm.class_id(), 73);
}

#[test]
fn test_alarm_obis_code() {
    let alarm = Alarm::with_default_obis();
    assert_eq!(alarm.obis_code(), Alarm::default_obis());
}

#[test]
fn test_alarm_type_from_u8() {
    assert_eq!(AlarmType::from_u8(0), AlarmType::NoAlarm);
    assert_eq!(AlarmType::from_u8(1), AlarmType::PowerFailure);
    assert_eq!(AlarmType::from_u8(2), AlarmType::LowBattery);
    assert_eq!(AlarmType::from_u8(3), AlarmType::Tamper);
    assert_eq!(AlarmType::from_u8(4), AlarmType::Overload);
    assert_eq!(AlarmType::from_u8(5), AlarmType::Underload);
    assert_eq!(AlarmType::from_u8(6), AlarmType::PhaseLoss);
    assert_eq!(AlarmType::from_u8(7), AlarmType::Overvoltage);
    assert_eq!(AlarmType::from_u8(8), AlarmType::Undervoltage);
}

#[test]
fn test_alarm_type_is_critical() {
    assert!(!AlarmType::NoAlarm.is_critical());
    assert!(AlarmType::PowerFailure.is_critical());
    assert!(!AlarmType::LowBattery.is_critical());
    assert!(AlarmType::Tamper.is_critical());
    assert!(AlarmType::PhaseLoss.is_critical());
}

#[test]
fn test_alarm_status_from_u8() {
    assert_eq!(AlarmStatus::from_u8(0), AlarmStatus::Inactive);
    assert_eq!(AlarmStatus::from_u8(1), AlarmStatus::Active);
    assert_eq!(AlarmStatus::from_u8(2), AlarmStatus::Acknowledged);
    assert_eq!(AlarmStatus::from_u8(3), AlarmStatus::Disabled);
}

#[test]
fn test_alarm_status_is_active() {
    assert!(AlarmStatus::Active.is_active());
    assert!(!AlarmStatus::Inactive.is_active());
    assert!(!AlarmStatus::Acknowledged.is_active());
}

#[test]
fn test_alarm_status_can_trigger() {
    assert!(AlarmStatus::Inactive.can_trigger());
    assert!(AlarmStatus::Active.can_trigger());
    assert!(AlarmStatus::Acknowledged.can_trigger());
    assert!(!AlarmStatus::Disabled.can_trigger());
}

#[test]
fn test_alarm_initial_state() {
    let alarm = Alarm::with_default_obis();
    assert_eq!(alarm.alarm_type(), AlarmType::NoAlarm);
    assert_eq!(alarm.alarm_status(), AlarmStatus::Inactive);
    assert_eq!(alarm.alarm_value(), 0);
    assert_eq!(alarm.alarm_count(), 0);
    assert!(alarm.alarm_enabled());
}

#[test]
fn test_alarm_set_alarm_type() {
    let mut alarm = Alarm::with_default_obis();
    alarm.set_alarm_type(AlarmType::LowBattery);
    assert_eq!(alarm.alarm_type(), AlarmType::LowBattery);
}

#[test]
fn test_alarm_set_alarm_value() {
    let mut alarm = Alarm::with_default_obis();
    alarm.set_alarm_value(100);
    assert_eq!(alarm.alarm_value(), 100);
}

#[test]
fn test_alarm_set_alarm_threshold() {
    let mut alarm = Alarm::with_default_obis();
    alarm.set_alarm_threshold(50);
    assert_eq!(alarm.alarm_threshold(), 50);
}

#[test]
fn test_alarm_trigger() {
    let mut alarm = Alarm::with_default_obis();
    alarm.set_alarm_threshold(50);
    alarm.set_alarm_value(100);

    alarm.trigger();

    assert_eq!(alarm.alarm_status(), AlarmStatus::Active);
    assert_eq!(alarm.alarm_count(), 1);
    assert!(alarm.alarm_time().is_some());
}

#[test]
fn test_alarm_trigger_when_disabled() {
    let mut alarm = Alarm::with_default_obis();
    alarm.set_alarm_enabled(false);

    alarm.trigger();

    assert_eq!(alarm.alarm_status(), AlarmStatus::Inactive);
    assert_eq!(alarm.alarm_count(), 0);
}

#[test]
fn test_alarm_acknowledge() {
    let mut alarm = Alarm::with_default_obis();
    alarm.trigger();

    alarm.acknowledge();

    assert_eq!(alarm.alarm_status(), AlarmStatus::Acknowledged);
}

#[test]
fn test_alarm_clear() {
    let mut alarm = Alarm::with_default_obis();
    alarm.trigger();

    alarm.clear();

    assert_eq!(alarm.alarm_status(), AlarmStatus::Inactive);
}

#[test]
fn test_alarm_enable_disable() {
    let mut alarm = Alarm::with_default_obis();

    alarm.disable();
    assert!(!alarm.alarm_enabled());

    alarm.enable();
    assert!(alarm.alarm_enabled());
}

#[test]
fn test_alarm_is_active() {
    let mut alarm = Alarm::with_default_obis();
    assert!(!alarm.is_active());

    alarm.trigger();
    assert!(alarm.is_active());
}

#[test]
fn test_alarm_is_critical() {
    let mut alarm = Alarm::with_default_obis();
    assert!(!alarm.is_critical());

    alarm.set_alarm_type(AlarmType::Tamper);
    assert!(alarm.is_critical());
}

#[test]
fn test_alarm_check_and_trigger() {
    let mut alarm = Alarm::with_default_obis();
    alarm.set_alarm_threshold(50);
    alarm.set_alarm_value(100);

    alarm.check_and_trigger();

    assert_eq!(alarm.alarm_status(), AlarmStatus::Active);
}

#[test]
fn test_alarm_get_attributes() {
    let alarm = Alarm::with_default_obis();

    // Test alarm_type
    let result = alarm.get_attribute(2, None).unwrap();
    match result {
        DataObject::Enumerate(at) => assert_eq!(at, 0), // None
        _ => panic!("Expected Enumerate"),
    }

    // Test alarm_status
    let result = alarm.get_attribute(3, None).unwrap();
    match result {
        DataObject::Enumerate(st) => assert_eq!(st, 0), // Inactive
        _ => panic!("Expected Enumerate"),
    }
}

#[test]
fn test_alarm_set_attributes() {
    let mut alarm = Alarm::with_default_obis();

    alarm.set_attribute(2, DataObject::Enumerate(2), None) // LowBattery
        .unwrap();
    assert_eq!(alarm.alarm_type(), AlarmType::LowBattery);

    alarm.set_attribute(4, DataObject::Integer64(75), None).unwrap();
    assert_eq!(alarm.alarm_value(), 75);
}

#[test]
fn test_alarm_read_only_logical_name() {
    let mut alarm = Alarm::with_default_obis();
    let result = alarm
        .set_attribute(1, DataObject::OctetString(vec![0, 0, 73, 0, 0, 1]), None);
    assert!(result.is_err());
}

#[test]
fn test_alarm_invalid_attribute() {
    let alarm = Alarm::with_default_obis();
    let result = alarm.get_attribute(99, None);
    assert!(result.is_err());
}

#[test]
fn test_alarm_invalid_method() {
    let mut alarm = Alarm::with_default_obis();
    let result = alarm.invoke_method(1, None, None);
    assert!(result.is_err());
}
