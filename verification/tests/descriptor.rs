use dlms_interface::descriptor::{AccessMode, AccessRight, AttributeDescriptor, CaptureObjectDefinition, CosemObjectDescriptor, MethodDescriptor, ObisCodeExt, SortMethod, UserInfo};
use dlms_interface::ObisCode;

#[test]
fn test_cosem_object_descriptor() {
    let obis = ObisCode::new(0, 0, 1, 0, 0, 255);
    let desc = CosemObjectDescriptor::new(1, obis, 0);

    assert_eq!(desc.class_id, 1);
    assert_eq!(desc.version, 0);
}

#[test]
fn test_access_mode() {
    let mode = AccessMode::ReadWrite;
    assert!(mode.can_read());
    assert!(mode.can_write());
    assert!(!mode.requires_auth());
}

#[test]
fn test_access_mode_auth() {
    let mode = AccessMode::AuthReadWrite;
    assert!(mode.can_read());
    assert!(mode.can_write());
    assert!(mode.requires_auth());
}

#[test]
fn test_attribute_descriptor_encode() {
    let obis = ObisCode::new(1, 1, 1, 8, 0, 255);
    let desc = AttributeDescriptor::new(3, obis, 2);
    let encoded = desc.encode().unwrap();

    assert_eq!(encoded.len(), 9);
    assert_eq!(encoded[0], 0);
    assert_eq!(encoded[1], 3);
    assert_eq!(encoded[8], 2);
}

#[test]
fn test_user_info() {
    let user = UserInfo::new(1)
        .with_name("Admin".to_string())
        .with_password(vec![0x31, 0x32, 0x33, 0x34]);

    assert_eq!(user.user_id, 1);
    assert_eq!(user.user_name, Some("Admin".to_string()));
    assert!(user.validate_user_id().is_ok());
}

#[test]
fn test_user_info_invalid_id() {
    let user = UserInfo::new(0);
    assert!(user.validate_user_id().is_err());
}

#[test]
fn test_capture_object_definition() {
    let obis = ObisCode::new(1, 1, 1, 8, 0, 255);
    let capture = CaptureObjectDefinition::new(3, obis, 2);

    assert_eq!(capture.class_id, 3);
    assert_eq!(capture.attribute_index, 2);
    assert!(capture.data_index.is_none());
}

#[test]
fn test_sort_method() {
    let sort = SortMethod::from_value(1).unwrap();
    assert_eq!(sort, SortMethod::Fifo);
    assert_eq!(sort.value(), 1);
}

#[test]
fn test_object_descriptor_ber_exact_bytes() {
    let obis = ObisCode::new(1, 0, 1, 8, 0, 255);
    let desc = CosemObjectDescriptor::new(3, obis, 0);
    let bytes = desc.encode().unwrap();
    assert_eq!(
        bytes,
        vec![0x30, 0x0E, 0x02, 0x01, 0x03, 0x04, 0x06, 1, 0, 1, 8, 0, 255, 0x02, 0x01, 0x00]
    );
}

#[test]
fn test_object_descriptor_ber_round_trip() {
    for class_id in [0u16, 1, 0x7F, 0x80, 0x7FFF, 0x8000, 0xFFFF] {
        for version in [0u8, 1, 0x7F, 0x80, 0xFF] {
            let desc = CosemObjectDescriptor::new(class_id, ObisCode::new(0, 0, 40, 0, 0, 255), version);
            let bytes = desc.encode().unwrap();
            assert_eq!(CosemObjectDescriptor::decode(&bytes).unwrap(), desc);
        }
    }
}

#[test]
fn test_object_descriptor_ber_long_form_and_errors() {
    let long = vec![0x30, 0x81, 0x0E, 0x02, 0x01, 0x03, 0x04, 0x06, 1, 0, 1, 8, 0, 255, 0x02, 0x01, 0x05];
    let desc = CosemObjectDescriptor::decode(&long).unwrap();
    assert_eq!(desc, CosemObjectDescriptor::new(3, ObisCode::new(1, 0, 1, 8, 0, 255), 5));
    assert!(CosemObjectDescriptor::decode(&[]).is_err());
    assert!(CosemObjectDescriptor::decode(&[0x31, 0x00]).is_err());
    let short_name = vec![0x30, 0x0C, 0x02, 0x01, 0x03, 0x04, 0x04, 1, 0, 1, 8, 0x02, 0x01, 0x00, 0, 0];
    assert!(CosemObjectDescriptor::decode(&short_name).is_err());
    let negative = vec![0x30, 0x0E, 0x02, 0x01, 0xFF, 0x04, 0x06, 1, 0, 1, 8, 0, 255, 0x02, 0x01, 0x00];
    assert_eq!(CosemObjectDescriptor::decode(&negative).unwrap().class_id, 0xFFFF);
}

#[test]
fn test_access_mode_values_round_trip() {
    for v in 0..=6u8 {
        assert_eq!(AccessMode::from_value(v).unwrap().value(), v);
    }
    assert!(AccessMode::from_value(7).is_err());
    assert!(SortMethod::from_value(3).is_err());
}

#[test]
fn test_method_and_capture_encodings_round_trip() {
    let obis = ObisCode::new(0, 0, 96, 1, 0, 255);
    let m = MethodDescriptor::new(0x1234, obis, 7);
    let bytes = m.encode().unwrap();
    assert_eq!(bytes, vec![0x12, 0x34, 0, 0, 96, 1, 0, 255, 7]);
    assert_eq!(MethodDescriptor::decode(&bytes).unwrap(), m);
    assert!(MethodDescriptor::decode(&bytes[..8]).is_err());

    let c = CaptureObjectDefinition::new(3, obis, 2).with_data_index(4);
    let bytes = c.encode().unwrap();
    assert_eq!(bytes.len(), 10);
    assert_eq!(CaptureObjectDefinition::decode(&bytes).unwrap(), c);
    let none = CaptureObjectDefinition::new(3, obis, 2);
    assert_eq!(none.encode().unwrap()[9], 0xFF);
    assert_eq!(CaptureObjectDefinition::decode(&none.encode().unwrap()).unwrap(), none);

    let a = AttributeDescriptor::new(8, obis, 2);
    assert_eq!(AttributeDescriptor::decode(&a.encode().unwrap()).unwrap(), a);
}

#[test]
fn test_access_right_first_entry_decides() {
    let mut rights = AccessRight::new(1);
    rights.add_attribute_right(2, AccessMode::ReadOnly);
    rights.add_attribute_right(2, AccessMode::ReadWrite);
    assert!(rights.can_access_attribute(2, AccessMode::ReadOnly));
    assert!(!rights.can_access_attribute(2, AccessMode::WriteOnly));
    assert!(!rights.can_access_attribute(3, AccessMode::ReadOnly));
    assert!(!rights.can_access_attribute(2, AccessMode::AuthReadOnly));
    rights.add_method_right(1, AccessMode::NoAccess);
    assert!(rights.can_access_method(1));
    assert!(!rights.can_access_method(2));
}

#[test]
fn test_obis_from_bytes() {
    assert_eq!(ObisCode::from_bytes(&[1, 2, 3, 4, 5, 6, 7]).unwrap(), ObisCode::new(1, 2, 3, 4, 5, 6));
    assert!(ObisCode::from_bytes(&[1, 2, 3, 4, 5]).is_err());
    assert!(UserInfo::new(17).validate_user_id().is_err());
    assert!(UserInfo::new(16).validate_user_id().is_ok());
}
