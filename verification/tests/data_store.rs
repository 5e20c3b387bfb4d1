use dlms_interface::data_store::{DataStore, DataStoreType};
use dlms_interface::{CosemObject, DataObject, ObisCode};

#[test]
fn test_data_store_class_id() {
    let store = DataStore::with_default_obis();
    assert_eq!(store.class_id(), 2);
}

#[test]
fn test_data_store_obis_code() {
    let store = DataStore::with_default_obis();
    assert_eq!(store.obis_code(), DataStore::default_obis());
}

#[test]
fn test_data_store_type_from_u8() {
    assert_eq!(DataStoreType::from_u8(0), DataStoreType::Binary);
    assert_eq!(DataStoreType::from_u8(1), DataStoreType::Text);
    assert_eq!(DataStoreType::from_u8(2), DataStoreType::Json);
    assert_eq!(DataStoreType::from_u8(3), DataStoreType::Xml);
    assert_eq!(DataStoreType::from_u8(255), DataStoreType::Custom);
    assert_eq!(DataStoreType::from_u8(99), DataStoreType::Custom);
}

#[test]
fn test_data_store_initial_state() {
    let store = DataStore::with_default_obis();
    assert!(store.is_empty());
    assert_eq!(store.data_size(), 4096);
    assert_eq!(store.data_type(), DataStoreType::Binary);
}

#[test]
fn test_data_store_set_data() {
    let mut store = DataStore::with_default_obis();
    let data = vec![1, 2, 3, 4, 5];
    store.set_data(data.clone()).unwrap();
    assert_eq!(store.data(), data);
    assert_eq!(store.current_size(), 5);
}

#[test]
fn test_data_store_set_data_too_large() {
    let mut store = DataStore::with_size(ObisCode::new(0, 0, 2, 0, 0, 255), 10);
    let data = vec![1u8; 20];
    let result = store.set_data(data);
    assert!(result.is_err());
}

#[test]
fn test_data_store_append_data() {
    let mut store = DataStore::with_default_obis();
    store.set_data(vec![1, 2, 3]).unwrap();
    store.append_data(&[4, 5]).unwrap();
    assert_eq!(store.data(), vec![1, 2, 3, 4, 5]);
}

#[test]
fn test_data_store_append_too_much() {
    let mut store = DataStore::with_size(ObisCode::new(0, 0, 2, 0, 0, 255), 10);
    store.set_data(vec![1, 2, 3, 4, 5]).unwrap();
    let result = store.append_data(&[6, 7, 8, 9, 10, 11]);
    assert!(result.is_err());
}

#[test]
fn test_data_store_clear() {
    let mut store = DataStore::with_default_obis();
    store.set_data(vec![1, 2, 3]).unwrap();
    assert!(!store.is_empty());

    store.clear();
    assert!(store.is_empty());
}

#[test]
fn test_data_store_set_data_size() {
    let mut store = DataStore::with_default_obis();
    store.set_data_size(8192);
    assert_eq!(store.data_size(), 8192);
}

#[test]
fn test_data_store_set_data_type() {
    let mut store = DataStore::with_default_obis();
    store.set_data_type(DataStoreType::Text);
    assert_eq!(store.data_type(), DataStoreType::Text);

    store.set_data_type(DataStoreType::Json);
    assert_eq!(store.data_type(), DataStoreType::Json);
}

#[test]
fn test_data_store_remaining_capacity() {
    let mut store = DataStore::with_size(ObisCode::new(0, 0, 2, 0, 0, 255), 100);
    assert_eq!(store.remaining_capacity(), 100);

    store.set_data(vec![1u8; 30]).unwrap();
    assert_eq!(store.remaining_capacity(), 70);

    store.set_data(vec![1u8; 100]).unwrap();
    assert_eq!(store.remaining_capacity(), 0);
}

#[test]
fn test_data_store_get_attributes() {
    let store = DataStore::with_default_obis();

    // Test data_size
    let result = store.get_attribute(3, None).unwrap();
    match result {
        DataObject::Unsigned32(size) => assert_eq!(size, 4096),
        _ => panic!("Expected Unsigned32"),
    }

    // Test data_type
    let result = store.get_attribute(4, None).unwrap();
    match result {
        DataObject::Enumerate(dt) => assert_eq!(dt, 0), // Binary
        _ => panic!("Expected Enumerate"),
    }
}

#[test]
fn test_data_store_set_attributes() {
    let mut store = DataStore::with_default_obis();

    store.set_attribute(2, DataObject::OctetString(vec![10, 20, 30]), None).unwrap();
    assert_eq!(store.data(), vec![10, 20, 30]);

    store.set_attribute(3, DataObject::Unsigned32(2048), None).unwrap();
    assert_eq!(store.data_size(), 2048);

    store.set_attribute(4, DataObject::Enumerate(1), None) // Text
        .unwrap();
    assert_eq!(store.data_type(), DataStoreType::Text);
}

#[test]
fn test_data_store_read_only_logical_name() {
    let mut store = DataStore::with_default_obis();
    let result = store
        .set_attribute(1, DataObject::OctetString(vec![0, 0, 2, 0, 0, 1]), None);
    assert!(result.is_err());
}

#[test]
fn test_data_store_invalid_attribute() {
    let store = DataStore::with_default_obis();
    let result = store.get_attribute(99, None);
    assert!(result.is_err());
}

#[test]
fn test_data_store_invalid_method() {
    let mut store = DataStore::with_default_obis();
    let result = store.invoke_method(1, None, None);
    assert!(result.is_err());
}

#[test]
fn test_data_store_with_custom_obis() {
    let obis = ObisCode::new(1, 1, 2, 0, 0, 1);
    let store = DataStore::new(obis);
    assert_eq!(store.obis_code(), obis);
}

#[test]
fn test_data_store_with_size_limit() {
    let store = DataStore::with_size(ObisCode::new(0, 0, 2, 0, 0, 255), 100);
    assert_eq!(store.data_size(), 100);
    assert_eq!(store.remaining_capacity(), 100);
}

#[test]
fn test_data_store_invalid_data_type_for_value() {
    let mut store = DataStore::with_default_obis();
    let result = store.set_attribute(2, DataObject::Boolean(true), None);
    assert!(result.is_err());
}

#[test]
fn test_data_store_invalid_data_type_for_size() {
    let mut store = DataStore::with_default_obis();
    let result = store.set_attribute(3, DataObject::Boolean(true), None);
    assert!(result.is_err());
}

#[test]
fn test_data_store_store_and_retrieve_text() {
    let mut store = DataStore::with_default_obis();
    store.set_data_type(DataStoreType::Text);

    let text = "Hello, World!".as_bytes().to_vec();
    store.set_data(text.clone()).unwrap();

    assert_eq!(store.data(), text);
    assert_eq!(store.current_size(), 13);
}
