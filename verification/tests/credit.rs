use dlms_interface::credit::{Credit, CreditStatusType, CreditType};
use dlms_interface::{CosemObject, DataObject};

#[test]
fn test_credit_class_id() {
    let c = Credit::with_default_obis();
    assert_eq!(c.class_id(), 61);
}

#[test]
fn test_credit_obis_code() {
    let c = Credit::with_default_obis();
    assert_eq!(c.obis_code(), Credit::default_obis());
}

#[test]
fn test_credit_type_from_u8() {
    assert_eq!(CreditType::from_u8(0), CreditType::Monetary);
    assert_eq!(CreditType::from_u8(1), CreditType::Energy);
    assert_eq!(CreditType::from_u8(2), CreditType::Volume);
    assert_eq!(CreditType::from_u8(3), CreditType::Time);
}

#[test]
fn test_credit_status_type_from_u8() {
    assert_eq!(CreditStatusType::from_u8(0), CreditStatusType::Available);
    assert_eq!(CreditStatusType::from_u8(1), CreditStatusType::Low);
    assert_eq!(CreditStatusType::from_u8(2), CreditStatusType::Exhausted);
    assert_eq!(CreditStatusType::from_u8(3), CreditStatusType::Error);
}

#[test]
fn test_credit_status_is_available() {
    assert!(CreditStatusType::Available.is_available());
    assert!(CreditStatusType::Low.is_available());
    assert!(!CreditStatusType::Exhausted.is_available());
}

#[test]
fn test_credit_initial_state() {
    let c = Credit::with_default_obis();
    assert_eq!(c.credit_available(), 0);
    assert_eq!(c.credit_type(), CreditType::Monetary);
    assert_eq!(c.priority_level(), 0);
}

#[test]
fn test_credit_set_credit_available() {
    let mut c = Credit::with_default_obis();
    c.set_credit_available(100);
    assert_eq!(c.credit_available(), 100);
    assert_eq!(c.credit_status(), CreditStatusType::Available);

    c.set_credit_available(50);
    assert_eq!(c.credit_status(), CreditStatusType::Low);

    c.set_credit_available(0);
    assert_eq!(c.credit_status(), CreditStatusType::Exhausted);
}

#[test]
fn test_credit_add_credit() {
    let mut c = Credit::with_default_obis();
    c.add_credit(100);
    assert_eq!(c.credit_available(), 100);

    c.add_credit(50);
    assert_eq!(c.credit_available(), 150);
}

#[test]
fn test_credit_consume_credit() {
    let mut c = Credit::with_default_obis();
    c.set_credit_available(100);

    c.consume_credit(30).unwrap();
    assert_eq!(c.credit_available(), 70);
}

#[test]
fn test_credit_consume_credit_insufficient() {
    let mut c = Credit::with_default_obis();
    c.set_credit_available(50);

    let result = c.consume_credit(100);
    assert!(result.is_err());
}

#[test]
fn test_credit_set_type() {
    let mut c = Credit::with_default_obis();
    c.set_credit_type(CreditType::Energy);
    assert_eq!(c.credit_type(), CreditType::Energy);
}

#[test]
fn test_credit_set_priority_level() {
    let mut c = Credit::with_default_obis();
    c.set_priority_level(5);
    assert_eq!(c.priority_level(), 5);
}

#[test]
fn test_credit_set_unit_of_measure() {
    let mut c = Credit::with_default_obis();
    c.set_unit_of_measure("kWh".to_string());
    assert_eq!(c.unit_of_measure(), "kWh");
}

#[test]
fn test_credit_set_currency() {
    let mut c = Credit::with_default_obis();
    c.set_currency("USD".to_string());
    assert_eq!(c.currency(), "USD");
}

#[test]
fn test_credit_set_threshold() {
    let mut c = Credit::with_default_obis();
    c.set_credit_threshold(200);
    assert_eq!(c.credit_threshold(), 200);
}

#[test]
fn test_credit_is_available() {
    let mut c = Credit::with_default_obis();
    c.set_credit_available(100);
    assert!(c.is_available());

    c.set_credit_available(50);
    assert!(c.is_available());

    c.set_credit_available(0);
    assert!(!c.is_available());
}

#[test]
fn test_credit_get_attributes() {
    let c = Credit::with_default_obis();

    // Test credit_available
    let result = c.get_attribute(2, None).unwrap();
    match result {
        DataObject::Integer64(credit) => assert_eq!(credit, 0),
        _ => panic!("Expected Integer64"),
    }

    // Test credit_type
    let result = c.get_attribute(4, None).unwrap();
    match result {
        DataObject::Enumerate(ctype) => assert_eq!(ctype, 0), // Monetary
        _ => panic!("Expected Enumerate"),
    }
}

#[test]
fn test_credit_set_attributes() {
    let mut c = Credit::with_default_obis();

    c.set_attribute(2, DataObject::Integer64(100), None).unwrap();
    assert_eq!(c.credit_available(), 100);

    c.set_attribute(5, DataObject::Unsigned8(3), None).unwrap();
    assert_eq!(c.priority_level(), 3);
}

#[test]
fn test_credit_read_only_logical_name() {
    let mut c = Credit::with_default_obis();
    let result = c
        .set_attribute(1, DataObject::OctetString(vec![0, 0, 61, 0, 0, 1]), None);
    assert!(result.is_err());
}

#[test]
fn test_credit_invalid_attribute() {
    let c = Credit::with_default_obis();
    let result = c.get_attribute(99, None);
    assert!(result.is_err());
}

#[test]
fn test_credit_invalid_method() {
    let mut c = Credit::with_default_obis();
    let result = c.invoke_method(1, None, None);
    assert!(result.is_err());
}
