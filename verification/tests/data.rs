use dlms_interface::data::Data;
use dlms_interface::{CosemObject, DataObject, ObisCode};

#[test]
fn test_data_creation() {
    let obis = ObisCode::new(1, 1, 1, 8, 0, 255);
    let value = DataObject::Integer32(12345);
    let data = Data::new(obis, value.deep_copy());

    assert_eq!(data.class_id(), 1);
    assert_eq!(data.obis_code(), obis);
    assert_eq!(data.value(), value);
}

#[test]
fn test_data_get_attribute() {
    let obis = ObisCode::new(1, 1, 1, 8, 0, 255);
    let value = DataObject::Integer32(12345);
    let data = Data::new(obis, value.deep_copy());

    // Get attribute 1 (logical_name)
    let attr1 = data.get_attribute(1, None).unwrap();
    if let DataObject::OctetString(bytes) = attr1 {
        assert_eq!(bytes, obis.to_bytes());
    } else {
        panic!("Attribute 1 should be OctetString");
    }

    // Get attribute 2 (value)
    let attr2 = data.get_attribute(2, None).unwrap();
    assert_eq!(attr2, value);
}

#[test]
fn test_data_set_attribute() {
    let obis = ObisCode::new(1, 1, 1, 8, 0, 255);
    let initial_value = DataObject::Integer32(12345);
    let mut data = Data::new(obis, initial_value);

    // Set attribute 2 (value)
    let new_value = DataObject::Integer32(67890);
    data.set_attribute(2, new_value.deep_copy(), None).unwrap();

    // Verify the value was updated
    let current_value = data.get_attribute(2, None).unwrap();
    assert_eq!(current_value, new_value);

    // Try to set attribute 1 (should fail - read-only)
    let result = data
        .set_attribute(1, DataObject::OctetString(vec![1, 2, 3, 4, 5, 6]), None);
    assert!(result.is_err());
}

#[test]
fn test_data_invalid_attribute() {
    let obis = ObisCode::new(1, 1, 1, 8, 0, 255);
    let value = DataObject::Integer32(12345);
    let mut data = Data::new(obis, value);

    // Try to get non-existent attribute
    let result = data.get_attribute(99, None);
    assert!(result.is_err());

    // Try to set non-existent attribute
    let result = data.set_attribute(99, DataObject::Integer32(0), None);
    assert!(result.is_err());
}

#[test]
fn test_data_no_methods() {
    let obis = ObisCode::new(1, 1, 1, 8, 0, 255);
    let value = DataObject::Integer32(12345);
    let mut data = Data::new(obis, value);

    // Try to invoke a method (should fail - no methods)
    let result = data.invoke_method(1, None, None);
    assert!(result.is_err());
}

#[test]
fn test_data_value_copy_is_deep() {
    let obis = ObisCode::new(0, 0, 96, 1, 0, 255);
    let nested = DataObject::Structure(vec![DataObject::OctetString(vec![1, 2]), DataObject::Array(vec![DataObject::Null])]);
    let mut data = Data::new(obis, nested.deep_copy());
    assert_eq!(data.value(), nested);
    data.set_value(DataObject::Boolean(true));
    assert_eq!(data.get_attribute(2, None).unwrap(), DataObject::Boolean(true));
    assert_eq!(data.logical_name(), obis);
}
