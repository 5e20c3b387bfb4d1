use dlms_interface::charge::{Charge, ChargeType};
use dlms_interface::{CosemObject, DataObject};

#[test]
fn test_charge_class_id() {
    let c = Charge::with_default_obis();
    assert_eq!(c.class_id(), 62);
}

#[test]
fn test_charge_obis_code() {
    let c = Charge::with_default_obis();
    assert_eq!(c.obis_code(), Charge::default_obis());
}

#[test]
fn test_charge_type_from_u8() {
    assert_eq!(ChargeType::from_u8(0), ChargeType::Fixed);
    assert_eq!(ChargeType::from_u8(1), ChargeType::RateBased);
    assert_eq!(ChargeType::from_u8(2), ChargeType::TieredRate);
    assert_eq!(ChargeType::from_u8(3), ChargeType::TimeOfUse);
}

#[test]
fn test_charge_type_is_rate_based() {
    assert!(ChargeType::RateBased.is_rate_based());
    assert!(ChargeType::TieredRate.is_rate_based());
    assert!(ChargeType::TimeOfUse.is_rate_based());
    assert!(!ChargeType::Fixed.is_rate_based());
}

#[test]
fn test_charge_initial_state() {
    let c = Charge::with_default_obis();
    assert_eq!(c.total_amount_charged(), 0);
    assert_eq!(c.charge_type(), ChargeType::Fixed);
    assert!(!c.is_active());
}

#[test]
fn test_charge_set_total_amount_charged() {
    let mut c = Charge::with_default_obis();
    c.set_total_amount_charged(1000);
    assert_eq!(c.total_amount_charged(), 1000);
}

#[test]
fn test_charge_add_charge() {
    let mut c = Charge::with_default_obis();
    c.add_charge(100);
    assert_eq!(c.total_amount_charged(), 100);

    c.add_charge(50);
    assert_eq!(c.total_amount_charged(), 150);
}

#[test]
fn test_charge_set_type() {
    let mut c = Charge::with_default_obis();
    c.set_charge_type(ChargeType::RateBased);
    assert_eq!(c.charge_type(), ChargeType::RateBased);
}

#[test]
fn test_charge_set_charge_per_unit() {
    let mut c = Charge::with_default_obis();
    c.set_charge_per_unit(150);
    assert_eq!(c.charge_per_unit(), 150);
}

#[test]
fn test_charge_activate_deactivate() {
    let mut c = Charge::with_default_obis();

    c.activate();
    assert!(c.is_active());

    c.deactivate();
    assert!(!c.is_active());
}

#[test]
fn test_charge_calculate_charge() {
    let mut c = Charge::with_default_obis();
    c.set_charge_per_unit(10);

    let charge = c.calculate_charge(100);
    assert_eq!(charge, 1000); // 100 * 10 = 1000
}

#[test]
fn test_charge_reset() {
    let mut c = Charge::with_default_obis();
    c.add_charge(500);
    assert_eq!(c.total_amount_charged(), 500);

    c.reset();
    assert_eq!(c.total_amount_charged(), 0);
}

#[test]
fn test_charge_set_unit_of_measure() {
    let mut c = Charge::with_default_obis();
    c.set_unit_of_measure("kWh".to_string());
    assert_eq!(c.unit_of_measure(), "kWh");
}

#[test]
fn test_charge_set_currency() {
    let mut c = Charge::with_default_obis();
    c.set_currency("USD".to_string());
    assert_eq!(c.currency(), "USD");
}

#[test]
fn test_charge_set_priority_level() {
    let mut c = Charge::with_default_obis();
    c.set_priority_level(3);
    assert_eq!(c.priority_level(), 3);
}

#[test]
fn test_charge_get_attributes() {
    let c = Charge::with_default_obis();

    // Test total_amount_charged
    let result = c.get_attribute(2, None).unwrap();
    match result {
        DataObject::Integer64(amount) => assert_eq!(amount, 0),
        _ => panic!("Expected Integer64"),
    }

    // Test charge_type
    let result = c.get_attribute(3, None).unwrap();
    match result {
        DataObject::Enumerate(ctype) => assert_eq!(ctype, 0), // Fixed
        _ => panic!("Expected Enumerate"),
    }

    // Test active
    let result = c.get_attribute(8, None).unwrap();
    match result {
        DataObject::Boolean(active) => assert!(!active),
        _ => panic!("Expected Boolean"),
    }
}

#[test]
fn test_charge_set_attributes() {
    let mut c = Charge::with_default_obis();

    c.set_attribute(2, DataObject::Integer64(500), None).unwrap();
    assert_eq!(c.total_amount_charged(), 500);

    c.set_attribute(7, DataObject::Integer32(100), None).unwrap();
    assert_eq!(c.charge_per_unit(), 100);

    c.set_attribute(8, DataObject::Boolean(true), None).unwrap();
    assert!(c.is_active());
}

#[test]
fn test_charge_read_only_logical_name() {
    let mut c = Charge::with_default_obis();
    let result = c
        .set_attribute(1, DataObject::OctetString(vec![0, 0, 62, 0, 0, 1]), None);
    assert!(result.is_err());
}

#[test]
fn test_charge_invalid_attribute() {
    let c = Charge::with_default_obis();
    let result = c.get_attribute(99, None);
    assert!(result.is_err());
}

#[test]
fn test_charge_invalid_method() {
    let mut c = Charge::with_default_obis();
    let result = c.invoke_method(1, None, None);
    assert!(result.is_err());
}
