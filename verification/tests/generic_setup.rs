use dlms_interface::generic_setup::GenericSetup;
use dlms_interface::{CosemObject, DataObject, ObisCode};

#[test]
fn test_generic_setup_class_id() {
    let setup = GenericSetup::with_default_obis();
    assert_eq!(setup.class_id(), 26);
}

#[test]
fn test_generic_setup_obis_code() {
    let setup = GenericSetup::with_default_obis();
    assert_eq!(setup.obis_code(), GenericSetup::default_obis());
}

#[test]
fn test_generic_setup_initial_state() {
    let setup = GenericSetup::with_default_obis();
    assert_eq!(setup.parameter_1(), 0);
    assert_eq!(setup.parameter_2(), 0);
    assert_eq!(setup.parameter_3(), 0);
    assert_eq!(setup.parameter_4(), 0);
    assert_eq!(setup.parameter_5(), 0);
    assert_eq!(setup.parameter_6(), 0);
    assert!(!setup.parameter_7());
    assert!(setup.parameter_8().is_empty());
}

#[test]
fn test_generic_setup_set_parameter_1() {
    let mut setup = GenericSetup::with_default_obis();
    setup.set_parameter_1(255);
    assert_eq!(setup.parameter_1(), 255);
}

#[test]
fn test_generic_setup_set_parameter_2() {
    let mut setup = GenericSetup::with_default_obis();
    setup.set_parameter_2(65535);
    assert_eq!(setup.parameter_2(), 65535);
}

#[test]
fn test_generic_setup_set_parameter_3() {
    let mut setup = GenericSetup::with_default_obis();
    setup.set_parameter_3(4294967295);
    assert_eq!(setup.parameter_3(), 4294967295);
}

#[test]
fn test_generic_setup_set_parameter_4() {
    let mut setup = GenericSetup::with_default_obis();
    setup.set_parameter_4(-128);
    assert_eq!(setup.parameter_4(), -128);
}

#[test]
fn test_generic_setup_set_parameter_5() {
    let mut setup = GenericSetup::with_default_obis();
    setup.set_parameter_5(-32768);
    assert_eq!(setup.parameter_5(), -32768);
}

#[test]
fn test_generic_setup_set_parameter_6() {
    let mut setup = GenericSetup::with_default_obis();
    setup.set_parameter_6(-2147483648);
    assert_eq!(setup.parameter_6(), -2147483648);
}

#[test]
fn test_generic_setup_set_parameter_7() {
    let mut setup = GenericSetup::with_default_obis();
    setup.set_parameter_7(true);
    assert!(setup.parameter_7());
}

#[test]
fn test_generic_setup_set_parameter_8() {
    let mut setup = GenericSetup::with_default_obis();
    let data = vec![1, 2, 3, 4, 5];
    setup.set_parameter_8(data.clone());
    assert_eq!(setup.parameter_8(), data);
}

#[test]
fn test_generic_setup_reset_all() {
    let mut setup = GenericSetup::with_default_obis();
    setup.set_parameter_1(100);
    setup.set_parameter_2(200);
    setup.set_parameter_3(300);
    setup.set_parameter_7(true);
    setup.set_parameter_8(vec![1, 2, 3]);

    setup.reset_all();

    assert_eq!(setup.parameter_1(), 0);
    assert_eq!(setup.parameter_2(), 0);
    assert_eq!(setup.parameter_3(), 0);
    assert!(!setup.parameter_7());
    assert!(setup.parameter_8().is_empty());
}

#[test]
fn test_generic_setup_get_attributes() {
    let setup = GenericSetup::with_default_obis();

    // Test parameter_1
    let result = setup.get_attribute(2, None).unwrap();
    match result {
        DataObject::Unsigned8(v) => assert_eq!(v, 0),
        _ => panic!("Expected Unsigned8"),
    }

    // Test parameter_2
    let result = setup.get_attribute(3, None).unwrap();
    match result {
        DataObject::Unsigned16(v) => assert_eq!(v, 0),
        _ => panic!("Expected Unsigned16"),
    }

    // Test parameter_3
    let result = setup.get_attribute(4, None).unwrap();
    match result {
        DataObject::Unsigned32(v) => assert_eq!(v, 0),
        _ => panic!("Expected Unsigned32"),
    }

    // Test parameter_4
    let result = setup.get_attribute(5, None).unwrap();
    match result {
        DataObject::Integer8(v) => assert_eq!(v, 0),
        _ => panic!("Expected Integer8"),
    }

    // Test parameter_5
    let result = setup.get_attribute(6, None).unwrap();
    match result {
        DataObject::Integer16(v) => assert_eq!(v, 0),
        _ => panic!("Expected Integer16"),
    }

    // Test parameter_6
    let result = setup.get_attribute(7, None).unwrap();
    match result {
        DataObject::Integer32(v) => assert_eq!(v, 0),
        _ => panic!("Expected Integer32"),
    }

    // Test parameter_7
    let result = setup.get_attribute(8, None).unwrap();
    match result {
        DataObject::Boolean(v) => assert!(!v),
        _ => panic!("Expected Boolean"),
    }

    // Test parameter_8
    let result = setup.get_attribute(9, None).unwrap();
    match result {
        DataObject::OctetString(bytes) => assert!(bytes.is_empty()),
        _ => panic!("Expected OctetString"),
    }
}

#[test]
fn test_generic_setup_set_attributes() {
    let mut setup = GenericSetup::with_default_obis();

    setup.set_attribute(2, DataObject::Unsigned8(123), None).unwrap();
    assert_eq!(setup.parameter_1(), 123);

    setup.set_attribute(3, DataObject::Unsigned16(456), None).unwrap();
    assert_eq!(setup.parameter_2(), 456);

    setup.set_attribute(4, DataObject::Unsigned32(789), None).unwrap();
    assert_eq!(setup.parameter_3(), 789);

    setup.set_attribute(5, DataObject::Integer8(-50), None).unwrap();
    assert_eq!(setup.parameter_4(), -50);

    setup.set_attribute(6, DataObject::Integer16(-1000), None).unwrap();
    assert_eq!(setup.parameter_5(), -1000);

    setup.set_attribute(7, DataObject::Integer32(-5000), None).unwrap();
    assert_eq!(setup.parameter_6(), -5000);

    setup.set_attribute(8, DataObject::Boolean(true), None).unwrap();
    assert!(setup.parameter_7());

    setup.set_attribute(9, DataObject::OctetString(vec![10, 20, 30]), None).unwrap();
    assert_eq!(setup.parameter_8(), vec![10, 20, 30]);
}

#[test]
fn test_generic_setup_read_only_logical_name() {
    let mut setup = GenericSetup::with_default_obis();
    let result = setup
        .set_attribute(1, DataObject::OctetString(vec![0, 0, 26, 0, 0, 1]), None);
    assert!(result.is_err());
}

#[test]
fn test_generic_setup_invalid_attribute() {
    let setup = GenericSetup::with_default_obis();
    let result = setup.get_attribute(99, None);
    assert!(result.is_err());
}

#[test]
fn test_generic_setup_invalid_method() {
    let mut setup = GenericSetup::with_default_obis();
    let result = setup.invoke_method(1, None, None);
    assert!(result.is_err());
}

#[test]
fn test_generic_setup_invalid_data_types() {
    let mut setup = GenericSetup::with_default_obis();

    // Wrong type for parameter_1
    let result = setup.set_attribute(2, DataObject::Boolean(true), None);
    assert!(result.is_err());

    // Wrong type for parameter_2
    let result = setup.set_attribute(3, DataObject::Unsigned8(1), None);
    assert!(result.is_err());

    // Wrong type for parameter_7
    let result = setup.set_attribute(8, DataObject::Unsigned8(1), None);
    assert!(result.is_err());
}

#[test]
fn test_generic_setup_with_custom_obis() {
    let obis = ObisCode::new(1, 1, 26, 0, 0, 1);
    let setup = GenericSetup::new(obis);
    assert_eq!(setup.obis_code(), obis);
}

#[test]
fn test_generic_setup_signed_parameters_negative_values() {
    let mut setup = GenericSetup::with_default_obis();

    setup.set_parameter_4(-1);
    assert_eq!(setup.parameter_4(), -1);

    setup.set_parameter_5(-1);
    assert_eq!(setup.parameter_5(), -1);

    setup.set_parameter_6(-1);
    assert_eq!(setup.parameter_6(), -1);
}
