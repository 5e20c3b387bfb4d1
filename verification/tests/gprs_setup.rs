use dlms_interface::gprs_setup::{GprsSetup, QualityOfService};
use dlms_interface::{CosemObject, DataObject, ObisCode};

#[test]
fn test_gprs_setup_class_id() {
    let gprs = GprsSetup::with_default_obis();
    assert_eq!(gprs.class_id(), 63);
}

#[test]
fn test_gprs_setup_obis_code() {
    let gprs = GprsSetup::with_default_obis();
    assert_eq!(gprs.obis_code(), GprsSetup::default_obis());
}

#[test]
fn test_gprs_setup_initial_state() {
    let gprs = GprsSetup::with_default_obis();
    assert!(!gprs.enabled());
    assert_eq!(gprs.apn(), "");
    assert_eq!(gprs.pin(), None);
    assert_eq!(gprs.allowed_connections(), 1);
    assert_eq!(gprs.quality_of_service(), QualityOfService::Normal);
    assert_eq!(gprs.connection_count(), 0);
}

#[test]
fn test_gprs_setup_with_apn() {
    let gprs = GprsSetup::with_apn(ObisCode::new(0, 0, 63, 0, 0, 255), "internet.example.com".to_string());
    assert_eq!(gprs.apn(), "internet.example.com");
}

#[test]
fn test_gprs_setup_set_apn() {
    let mut gprs = GprsSetup::with_default_obis();
    gprs.set_apn("internet.example.com".to_string());
    assert_eq!(gprs.apn(), "internet.example.com");
}

#[test]
fn test_gprs_setup_set_pin() {
    let mut gprs = GprsSetup::with_default_obis();
    gprs.set_pin("1234".to_string());
    assert_eq!(gprs.pin(), Some("1234".to_string()));
}

#[test]
fn test_gprs_setup_clear_pin() {
    let mut gprs = GprsSetup::with_default_obis();
    gprs.set_pin("1234".to_string());
    gprs.clear_pin();
    assert_eq!(gprs.pin(), None);
}

#[test]
fn test_gprs_setup_set_allowed_connections() {
    let mut gprs = GprsSetup::with_default_obis();
    gprs.set_allowed_connections(5);
    assert_eq!(gprs.allowed_connections(), 5);
}

#[test]
fn test_gprs_setup_set_quality_of_service() {
    let mut gprs = GprsSetup::with_default_obis();
    gprs.set_quality_of_service(QualityOfService::High);
    assert_eq!(gprs.quality_of_service(), QualityOfService::High);
}

#[test]
fn test_gprs_setup_enable_disable() {
    let mut gprs = GprsSetup::with_default_obis();
    assert!(!gprs.enabled());

    gprs.enable();
    assert!(gprs.enabled());

    gprs.disable();
    assert!(!gprs.enabled());
}

#[test]
fn test_gprs_setup_increment_connection_count() {
    let mut gprs = GprsSetup::with_default_obis();
    assert_eq!(gprs.connection_count(), 0);

    gprs.increment_connection_count();
    assert_eq!(gprs.connection_count(), 1);

    gprs.increment_connection_count();
    assert_eq!(gprs.connection_count(), 2);
}

#[test]
fn test_gprs_setup_decrement_connection_count() {
    let mut gprs = GprsSetup::with_default_obis();
    gprs.increment_connection_count();
    gprs.increment_connection_count();
    assert_eq!(gprs.connection_count(), 2);

    gprs.decrement_connection_count();
    assert_eq!(gprs.connection_count(), 1);
}

#[test]
fn test_gprs_setup_decrement_connection_count_no_underflow() {
    let mut gprs = GprsSetup::with_default_obis();
    gprs.decrement_connection_count();
    assert_eq!(gprs.connection_count(), 0);
}

#[test]
fn test_gprs_setup_set_username_password() {
    let mut gprs = GprsSetup::with_default_obis();
    gprs.set_username("user".to_string());
    gprs.set_password("pass".to_string());
    assert_eq!(gprs.username(), Some("user".to_string()));
    assert_eq!(gprs.password(), Some("pass".to_string()));
}

#[test]
fn test_gprs_setup_clear_username_password() {
    let mut gprs = GprsSetup::with_default_obis();
    gprs.set_username("user".to_string());
    gprs.set_password("pass".to_string());
    gprs.clear_username();
    gprs.clear_password();
    assert_eq!(gprs.username(), None);
    assert_eq!(gprs.password(), None);
}

#[test]
fn test_gprs_setup_can_connect() {
    let mut gprs = GprsSetup::with_default_obis();
    gprs.enable();
    gprs.set_allowed_connections(2);
    assert!(gprs.can_connect());

    gprs.increment_connection_count();
    assert!(gprs.can_connect());

    gprs.increment_connection_count();
    assert!(!gprs.can_connect());
}

#[test]
fn test_gprs_setup_can_connect_when_disabled() {
    let gprs = GprsSetup::with_default_obis();
    // Don't enable
    assert!(!gprs.can_connect());
}

#[test]
fn test_gprs_setup_has_credentials() {
    let mut gprs = GprsSetup::with_default_obis();
    assert!(!gprs.has_credentials());

    gprs.set_apn("internet.example.com".to_string());
    assert!(gprs.has_credentials());
}

#[test]
fn test_gprs_setup_has_auth() {
    let mut gprs = GprsSetup::with_default_obis();
    assert!(!gprs.has_auth());

    gprs.set_username("user".to_string());
    gprs.set_password("pass".to_string());
    assert!(gprs.has_auth());
}

#[test]
fn test_gprs_setup_is_at_max_connections() {
    let mut gprs = GprsSetup::with_default_obis();
    gprs.set_allowed_connections(2);
    assert!(!gprs.is_at_max_connections());

    gprs.increment_connection_count();
    gprs.increment_connection_count();
    assert!(gprs.is_at_max_connections());
}

#[test]
fn test_gprs_setup_available_connections() {
    let mut gprs = GprsSetup::with_default_obis();
    gprs.set_allowed_connections(5);
    assert_eq!(gprs.available_connections(), 5);

    gprs.increment_connection_count();
    gprs.increment_connection_count();
    assert_eq!(gprs.available_connections(), 3);
}

#[test]
fn test_quality_of_service_from_u8() {
    assert_eq!(QualityOfService::from_u8(0), QualityOfService::BestEffort);
    assert_eq!(QualityOfService::from_u8(1), QualityOfService::Low);
    assert_eq!(QualityOfService::from_u8(2), QualityOfService::Normal);
    assert_eq!(QualityOfService::from_u8(3), QualityOfService::High);
}

#[test]
fn test_gprs_setup_get_attributes() {
    let gprs = GprsSetup::with_default_obis();

    // Test apn
    let result = gprs.get_attribute(2, None).unwrap();
    match result {
        DataObject::OctetString(bytes) => assert!(bytes.is_empty()),
        _ => panic!("Expected OctetString"),
    }

    // Test allowed_connections
    let result = gprs.get_attribute(4, None).unwrap();
    match result {
        DataObject::Unsigned8(count) => assert_eq!(count, 1),
        _ => panic!("Expected Unsigned8"),
    }

    // Test quality_of_service
    let result = gprs.get_attribute(5, None).unwrap();
    match result {
        DataObject::Enumerate(qos) => assert_eq!(qos, 2), // Normal
        _ => panic!("Expected Enumerate"),
    }
}

#[test]
fn test_gprs_setup_set_attributes() {
    let mut gprs = GprsSetup::with_default_obis();

    gprs.set_attribute(2, DataObject::OctetString(b"internet.example.com".to_vec()), None).unwrap();
    assert_eq!(gprs.apn(), "internet.example.com");

    gprs.set_attribute(4, DataObject::Unsigned8(3), None).unwrap();
    assert_eq!(gprs.allowed_connections(), 3);

    gprs.set_attribute(6, DataObject::Boolean(true), None).unwrap();
    assert!(gprs.enabled());
}

#[test]
fn test_gprs_setup_set_pin_empty_clears() {
    let mut gprs = GprsSetup::with_default_obis();
    gprs.set_pin("1234".to_string());
    gprs.set_attribute(3, DataObject::OctetString(Vec::new()), None).unwrap();
    assert_eq!(gprs.pin(), None);
}

#[test]
fn test_gprs_setup_read_only_logical_name() {
    let mut gprs = GprsSetup::with_default_obis();
    let result = gprs
        .set_attribute(1, DataObject::OctetString(vec![0, 0, 63, 0, 0, 1]), None);
    assert!(result.is_err());
}

#[test]
fn test_gprs_setup_invalid_attribute() {
    let gprs = GprsSetup::with_default_obis();
    let result = gprs.get_attribute(99, None);
    assert!(result.is_err());
}

#[test]
fn test_gprs_setup_invalid_method() {
    let mut gprs = GprsSetup::with_default_obis();
    let result = gprs.invoke_method(1, None, None);
    assert!(result.is_err());
}

#[test]
fn test_gprs_setup_with_custom_obis() {
    let obis = ObisCode::new(1, 1, 63, 0, 0, 1);
    let gprs = GprsSetup::new(obis);
    assert_eq!(gprs.obis_code(), obis);
}

#[test]
fn test_gprs_setup_max_connections() {
    let mut gprs = GprsSetup::with_default_obis();
    gprs.set_allowed_connections(10);
    assert_eq!(gprs.max_connections(), 10);
}
