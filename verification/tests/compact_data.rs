use dlms_interface::compact_data::CompactData;
use dlms_interface::{CosemObject, DataObject, ObisCode};

#[test]
fn test_compact_data_class_id() {
    let cd = CompactData::with_default_obis();
    assert_eq!(cd.class_id(), 92);
}

#[test]
fn test_compact_data_obis_code() {
    let cd = CompactData::with_default_obis();
    assert_eq!(cd.obis_code(), CompactData::default_obis());
}

#[test]
fn test_compact_data_initial_state() {
    let cd = CompactData::with_default_obis();
    assert!(cd.is_empty());
    assert_eq!(cd.len(), 0);
    assert_eq!(cd.buffer_size(), 1024);
    assert_eq!(cd.capture_time(), None);
}

#[test]
fn test_compact_data_set_buffer() {
    let mut cd = CompactData::with_default_obis();
    let data = vec![1, 2, 3, 4, 5];
    cd.set_buffer(data.clone()).unwrap();
    assert_eq!(cd.buffer(), data);
    assert_eq!(cd.len(), 5);
}

#[test]
fn test_compact_data_set_buffer_too_large() {
    let mut cd = CompactData::with_buffer_size(ObisCode::new(0, 0, 92, 0, 0, 255), 10);
    let data = vec![1u8; 20];
    let result = cd.set_buffer(data);
    assert!(result.is_err());
}

#[test]
fn test_compact_data_clear() {
    let mut cd = CompactData::with_default_obis();
    cd.set_buffer(vec![1, 2, 3]).unwrap();
    assert!(!cd.is_empty());

    cd.clear();
    assert!(cd.is_empty());
}

#[test]
fn test_compact_data_append() {
    let mut cd = CompactData::with_default_obis();
    cd.set_buffer(vec![1, 2, 3]).unwrap();
    cd.append(&[4, 5]).unwrap();
    assert_eq!(cd.buffer(), vec![1, 2, 3, 4, 5]);
}

#[test]
fn test_compact_data_append_too_much() {
    let mut cd = CompactData::with_buffer_size(ObisCode::new(0, 0, 92, 0, 0, 255), 5);
    cd.set_buffer(vec![1, 2, 3]).unwrap();
    let result = cd.append(&[4, 5, 6]);
    assert!(result.is_err());
}

#[test]
fn test_compact_data_remaining_capacity() {
    let mut cd = CompactData::with_buffer_size(ObisCode::new(0, 0, 92, 0, 0, 255), 100);
    assert_eq!(cd.remaining_capacity(), 100);

    cd.set_buffer(vec![1u8; 30]).unwrap();
    assert_eq!(cd.remaining_capacity(), 70);
}

#[test]
fn test_compact_data_get() {
    let mut cd = CompactData::with_default_obis();
    cd.set_buffer(vec![10, 20, 30]).unwrap();
    assert_eq!(cd.get(0).unwrap(), 10);
    assert_eq!(cd.get(1).unwrap(), 20);
    assert_eq!(cd.get(2).unwrap(), 30);
}

#[test]
fn test_compact_data_get_out_of_bounds() {
    let mut cd = CompactData::with_default_obis();
    cd.set_buffer(vec![10, 20]).unwrap();
    let result = cd.get(5);
    assert!(result.is_err());
}

#[test]
fn test_compact_data_set() {
    let mut cd = CompactData::with_default_obis();
    cd.set_buffer(vec![10, 20, 30]).unwrap();
    cd.set(1, 99).unwrap();
    assert_eq!(cd.get(1).unwrap(), 99);
}

#[test]
fn test_compact_data_set_out_of_bounds() {
    let mut cd = CompactData::with_default_obis();
    cd.set_buffer(vec![10, 20]).unwrap();
    let result = cd.set(5, 99);
    assert!(result.is_err());
}

#[test]
fn test_compact_data_get_range() {
    let mut cd = CompactData::with_default_obis();
    cd.set_buffer(vec![1, 2, 3, 4, 5]).unwrap();
    assert_eq!(cd.get_range(1, 4).unwrap(), vec![2, 3, 4]);
}

#[test]
fn test_compact_data_get_range_invalid() {
    let mut cd = CompactData::with_default_obis();
    cd.set_buffer(vec![1, 2, 3]).unwrap();
    let result = cd.get_range(1, 10);
    assert!(result.is_err());
}

#[test]
fn test_compact_data_is_full() {
    let mut cd = CompactData::with_buffer_size(ObisCode::new(0, 0, 92, 0, 0, 255), 10);
    assert!(!cd.is_full());

    cd.set_buffer(vec![1u8; 10]).unwrap();
    assert!(cd.is_full());
}

#[test]
fn test_compact_data_to_hex_string() {
    let mut cd = CompactData::with_default_obis();
    cd.set_buffer(vec![0x01, 0x02, 0xAB, 0xFF]).unwrap();
    assert_eq!(cd.to_hex_string(), "0102abff");
}

#[test]
fn test_compact_data_from_hex_string() {
    let mut cd = CompactData::with_default_obis();
    cd.from_hex_string("0102ABFF").unwrap();
    assert_eq!(cd.buffer(), vec![0x01, 0x02, 0xAB, 0xFF]);
}

#[test]
fn test_compact_data_from_hex_string_with_prefix() {
    let mut cd = CompactData::with_default_obis();
    cd.from_hex_string("0x0102ABFF").unwrap();
    assert_eq!(cd.buffer(), vec![0x01, 0x02, 0xAB, 0xFF]);
}

#[test]
fn test_compact_data_from_hex_string_invalid_length() {
    let mut cd = CompactData::with_default_obis();
    let result = cd.from_hex_string("0102ABF");
    assert!(result.is_err());
}

#[test]
fn test_compact_data_compress_rle() {
    let mut cd = CompactData::with_default_obis();
    cd.set_buffer(vec![1, 1, 1, 2, 2, 3, 3, 3, 3]).unwrap();
    let compressed = cd.compress_rle();
    assert_eq!(compressed, vec![1, 3, 2, 2, 3, 4]);
}

#[test]
fn test_compact_data_decompress_rle() {
    let cd = CompactData::with_default_obis();
    let compressed = vec![1, 3, 2, 2, 3, 4];
    let decompressed = cd.decompress_rle(&compressed).unwrap();
    assert_eq!(decompressed, vec![1, 1, 1, 2, 2, 3, 3, 3, 3]);
}

#[test]
fn test_compact_data_decompress_rle_invalid_length() {
    let cd = CompactData::with_default_obis();
    let result = cd.decompress_rle(&[1, 2, 3]);
    assert!(result.is_err());
}

#[test]
fn test_compact_data_with_buffer_size() {
    let cd = CompactData::with_buffer_size(ObisCode::new(0, 0, 92, 0, 0, 255), 512);
    assert_eq!(cd.buffer_size(), 512);
}

#[test]
fn test_compact_data_get_attributes() {
    let cd = CompactData::with_default_obis();

    // Test buffer
    let result = cd.get_attribute(2, None).unwrap();
    match result {
        DataObject::OctetString(bytes) => assert!(bytes.is_empty()),
        _ => panic!("Expected OctetString"),
    }

    // Test buffer_size
    let result = cd.get_attribute(3, None).unwrap();
    match result {
        DataObject::Unsigned16(size) => assert_eq!(size, 1024),
        _ => panic!("Expected Unsigned16"),
    }
}

#[test]
fn test_compact_data_set_attributes() {
    let mut cd = CompactData::with_default_obis();

    cd.set_attribute(2, DataObject::OctetString(vec![10, 20, 30]), None).unwrap();
    assert_eq!(cd.buffer(), vec![10, 20, 30]);

    cd.set_attribute(3, DataObject::Unsigned16(512), None).unwrap();
    assert_eq!(cd.buffer_size(), 512);
}

#[test]
fn test_compact_data_set_capture_time() {
    let mut cd = CompactData::with_default_obis();
    cd.set_attribute(4, DataObject::Integer64(1609459200), None).unwrap();
    assert_eq!(cd.capture_time(), Some(1609459200));
}

#[test]
fn test_compact_data_read_only_logical_name() {
    let mut cd = CompactData::with_default_obis();
    let result = cd
        .set_attribute(1, DataObject::OctetString(vec![0, 0, 92, 0, 0, 1]), None);
    assert!(result.is_err());
}

#[test]
fn test_compact_data_invalid_attribute() {
    let cd = CompactData::with_default_obis();
    let result = cd.get_attribute(99, None);
    assert!(result.is_err());
}

#[test]
fn test_compact_data_invalid_method() {
    let mut cd = CompactData::with_default_obis();
    let result = cd.invoke_method(1, None, None);
    assert!(result.is_err());
}

#[test]
fn test_compact_data_with_custom_obis() {
    let obis = ObisCode::new(1, 1, 92, 0, 0, 1);
    let cd = CompactData::new(obis);
    assert_eq!(cd.obis_code(), obis);
}

#[test]
fn test_compact_data_set_buffer_size_u8() {
    let mut cd = CompactData::with_default_obis();
    cd.set_attribute(3, DataObject::Unsigned8(200), None).unwrap();
    assert_eq!(cd.buffer_size(), 200);
}

#[test]
fn test_rle_round_trip_with_long_runs() {
    let mut cd = CompactData::with_buffer_size(ObisCode::new(0, 0, 92, 0, 0, 255), 2048);
    let mut data = vec![7u8; 300];
    data.extend_from_slice(&[1, 1, 2]);
    cd.set_buffer(data.clone()).unwrap();
    let compressed = cd.compress_rle();
    assert_eq!(compressed, vec![7, 255, 7, 45, 1, 2, 2, 1]);
    assert_eq!(cd.decompress_rle(&compressed).unwrap(), data);
    let empty = CompactData::with_default_obis();
    assert!(empty.compress_rle().is_empty());
}

#[test]
fn test_hex_round_trip_and_plus_sign() {
    let mut cd = CompactData::with_default_obis();
    cd.set_buffer(vec![0x00, 0x0a, 0x78, 0xff]).unwrap();
    let text = cd.to_hex_string();
    assert_eq!(text, "000a78ff");
    cd.clear();
    cd.from_hex_string(&text).unwrap();
    assert_eq!(cd.buffer(), vec![0x00, 0x0a, 0x78, 0xff]);
    cd.from_hex_string("0x0x+a1F").unwrap();
    assert_eq!(cd.buffer(), vec![0x0a, 0x1f]);
    assert!(cd.from_hex_string("zz").is_err());
    assert_eq!(cd.buffer(), vec![0x0a, 0x1f]);
}

#[test]
fn test_append_and_range_bounds() {
    let mut cd = CompactData::with_buffer_size(ObisCode::new(0, 0, 92, 0, 0, 255), 4);
    cd.append(&[1, 2, 3]).unwrap();
    assert!(cd.append(&[4, 5]).is_err());
    assert_eq!(cd.buffer(), vec![1, 2, 3]);
    assert_eq!(cd.get_range(3, 3).unwrap(), Vec::<u8>::new());
    assert!(cd.get_range(2, 1).is_err());
    cd.update_capture_time_at(42);
    assert_eq!(cd.get_attribute(4, None).unwrap(), DataObject::Integer64(42));
}

/// The share of the buffer's capacity in use, 0.0 for a zero capacity.
fn fill_ratio(cd: &CompactData) -> f64 {
    let buffer_size = cd.buffer_size();
    if buffer_size == 0 {
        return 0.0;
    }
    (cd.len() as f64) / (buffer_size as f64)
}

#[test]
fn test_compact_data_fill_ratio() {
    let mut cd = CompactData::with_buffer_size(ObisCode::new(0, 0, 92, 0, 0, 255), 100);
    assert_eq!(fill_ratio(&cd), 0.0);

    cd.set_buffer(vec![1u8; 50]).unwrap();
    assert!((fill_ratio(&cd) - 0.5).abs() < 0.001);

    cd.set_buffer(vec![1u8; 100]).unwrap();
    assert_eq!(fill_ratio(&cd), 1.0);
}

#[test]
fn test_compact_data_error_messages() {
    let mut cd = CompactData::with_default_obis();
    cd.set_buffer(vec![1, 2, 3]).unwrap();
    assert_eq!(
        cd.get_range(2, 1),
        Err(dlms_interface::DlmsError::InvalidData("Invalid range [2, 1) for buffer of size 3".to_string()))
    );
    assert_eq!(
        cd.get(7),
        Err(dlms_interface::DlmsError::InvalidData("Index 7 out of bounds (size: 3)".to_string()))
    );
    assert_eq!(
        cd.from_hex_string("0A1G"),
        Err(dlms_interface::DlmsError::InvalidData("Invalid hex string: 1G".to_string()))
    );
}
