use dlms_interface::account::{Account, CreditStatus};
use dlms_interface::{CosemObject, DataObject};

#[test]
fn test_account_class_id() {
    let acc = Account::with_default_obis();
    assert_eq!(acc.class_id(), 60);
}

#[test]
fn test_account_obis_code() {
    let acc = Account::with_default_obis();
    assert_eq!(acc.obis_code(), Account::default_obis());
}

#[test]
fn test_credit_status_from_u8() {
    assert_eq!(CreditStatus::from_u8(0), CreditStatus::Enabled);
    assert_eq!(CreditStatus::from_u8(1), CreditStatus::Disabled);
    assert_eq!(CreditStatus::from_u8(2), CreditStatus::LowCredit);
    assert_eq!(CreditStatus::from_u8(3), CreditStatus::EmergencyCredit);
}

#[test]
fn test_credit_status_is_enabled() {
    assert!(CreditStatus::Enabled.is_enabled());
    assert!(CreditStatus::LowCredit.is_enabled());
    assert!(CreditStatus::EmergencyCredit.is_enabled());
    assert!(!CreditStatus::Disabled.is_enabled());
}

#[test]
fn test_credit_status_is_low_credit() {
    assert!(CreditStatus::LowCredit.is_low_credit());
    assert!(CreditStatus::EmergencyCredit.is_low_credit());
    assert!(!CreditStatus::Enabled.is_low_credit());
}

#[test]
fn test_account_initial_state() {
    let acc = Account::with_default_obis();
    assert_eq!(acc.current_credit(), 0);
    assert_eq!(acc.credit_status(), CreditStatus::Disabled);
    assert_eq!(acc.low_credit_threshold(), 100);
}

#[test]
fn test_account_set_account_id() {
    let mut acc = Account::with_default_obis();
    acc.set_account_id("ACCT-12345".to_string());
    assert_eq!(acc.account_id(), "ACCT-12345");
}

#[test]
fn test_account_set_current_credit() {
    let mut acc = Account::with_default_obis();
    acc.set_credit_threshold(0);
    acc.set_low_credit_threshold(50);

    acc.set_current_credit(100);
    assert_eq!(acc.current_credit(), 100);
    assert_eq!(acc.credit_status(), CreditStatus::Enabled);

    acc.set_current_credit(30);
    assert_eq!(acc.credit_status(), CreditStatus::LowCredit);

    acc.set_current_credit(-10);
    assert_eq!(acc.credit_status(), CreditStatus::Disabled);
}

#[test]
fn test_account_add_credit() {
    let mut acc = Account::with_default_obis();
    acc.set_maximum_credit(1000);

    acc.add_credit(100).unwrap();
    assert_eq!(acc.current_credit(), 100);

    acc.add_credit(50).unwrap();
    assert_eq!(acc.current_credit(), 150);
}

#[test]
fn test_account_add_credit_exceeds_max() {
    let mut acc = Account::with_default_obis();
    acc.set_maximum_credit(100);

    acc.add_credit(50).unwrap();
    let result = acc.add_credit(100);
    assert!(result.is_err());
}

#[test]
fn test_account_consume_credit() {
    let mut acc = Account::with_default_obis();
    acc.set_credit_threshold(0);

    acc.set_current_credit(100);
    acc.consume_credit(30).unwrap();
    assert_eq!(acc.current_credit(), 70);
}

#[test]
fn test_account_consume_credit_insufficient() {
    let mut acc = Account::with_default_obis();
    acc.set_credit_threshold(50);

    acc.set_current_credit(100);
    let result = acc.consume_credit(60);
    assert!(result.is_err());
}

#[test]
fn test_account_set_currency() {
    let mut acc = Account::with_default_obis();
    acc.set_currency("USD".to_string());
    assert_eq!(acc.currency(), "USD");
}

#[test]
fn test_account_set_thresholds() {
    let mut acc = Account::with_default_obis();

    acc.set_credit_threshold(10);
    assert_eq!(acc.credit_threshold(), 10);

    acc.set_low_credit_threshold(50);
    assert_eq!(acc.low_credit_threshold(), 50);

    acc.set_maximum_credit(1000);
    assert_eq!(acc.maximum_credit(), 1000);
}

#[test]
fn test_account_is_service_enabled() {
    let mut acc = Account::with_default_obis();
    // Set positive threshold so that 0 credit means disabled
    acc.set_credit_threshold(10);

    assert!(!acc.is_service_enabled());

    acc.set_current_credit(100);
    assert!(acc.is_service_enabled());
}

#[test]
fn test_account_is_low_credit() {
    let mut acc = Account::with_default_obis();
    acc.set_credit_threshold(0);
    acc.set_low_credit_threshold(50);

    acc.set_current_credit(100);
    assert!(!acc.is_low_credit());

    acc.set_current_credit(30);
    assert!(acc.is_low_credit());
}

#[test]
fn test_account_get_attributes() {
    let acc = Account::with_default_obis();

    // Test current_credit
    let result = acc.get_attribute(3, None).unwrap();
    match result {
        DataObject::Integer64(credit) => assert_eq!(credit, 0),
        _ => panic!("Expected Integer64"),
    }

    // Test credit_status
    let result = acc.get_attribute(4, None).unwrap();
    match result {
        DataObject::Enumerate(status) => assert_eq!(status, 1), // Disabled
        _ => panic!("Expected Enumerate"),
    }
}

#[test]
fn test_account_set_attributes() {
    let mut acc = Account::with_default_obis();

    acc.set_attribute(2, DataObject::OctetString(b"ACCT-123".to_vec()), None).unwrap();
    assert_eq!(acc.account_id(), "ACCT-123");

    acc.set_attribute(3, DataObject::Integer64(100), None).unwrap();
    assert_eq!(acc.current_credit(), 100);

    acc.set_attribute(6, DataObject::OctetString(b"EUR".to_vec()), None).unwrap();
    assert_eq!(acc.currency(), "EUR");
}

#[test]
fn test_account_read_only_logical_name() {
    let mut acc = Account::with_default_obis();
    let result = acc
        .set_attribute(1, DataObject::OctetString(vec![0, 0, 60, 0, 0, 1]), None);
    assert!(result.is_err());
}

#[test]
fn test_account_invalid_attribute() {
    let acc = Account::with_default_obis();
    let result = acc.get_attribute(99, None);
    assert!(result.is_err());
}

#[test]
fn test_account_invalid_method() {
    let mut acc = Account::with_default_obis();
    let result = acc.invoke_method(1, None, None);
    assert!(result.is_err());
}
