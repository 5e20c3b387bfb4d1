use dlms_interface::boolean_array::BooleanArray;
use dlms_interface::{CosemObject, DataObject, ObisCode};

#[test]
fn test_boolean_array_class_id() {
    let ba = BooleanArray::with_default_obis();
    assert_eq!(ba.class_id(), 91);
}

#[test]
fn test_boolean_array_obis_code() {
    let ba = BooleanArray::with_default_obis();
    assert_eq!(ba.obis_code(), BooleanArray::default_obis());
}

#[test]
fn test_boolean_array_initial_state() {
    let ba = BooleanArray::with_default_obis();
    assert!(ba.is_empty());
    assert_eq!(ba.len(), 0);
    assert_eq!(ba.max_size(), 255);
}

#[test]
fn test_boolean_array_set_value() {
    let mut ba = BooleanArray::with_default_obis();
    let data = vec![true, false, true, true, false];
    ba.set_value(data.clone()).unwrap();
    assert_eq!(ba.value(), data);
    assert_eq!(ba.len(), 5);
}

#[test]
fn test_boolean_array_set_value_too_large() {
    let mut ba = BooleanArray::with_max_size(ObisCode::new(0, 0, 91, 0, 0, 255), 5);
    let data = vec![true; 10];
    let result = ba.set_value(data);
    assert!(result.is_err());
}

#[test]
fn test_boolean_array_clear() {
    let mut ba = BooleanArray::with_default_obis();
    ba.set_value(vec![true, false, true]).unwrap();
    assert!(!ba.is_empty());

    ba.clear();
    assert!(ba.is_empty());
}

#[test]
fn test_boolean_array_get() {
    let mut ba = BooleanArray::with_default_obis();
    ba.set_value(vec![true, false, true]).unwrap();
    assert_eq!(ba.get(0).unwrap(), true);
    assert_eq!(ba.get(1).unwrap(), false);
    assert_eq!(ba.get(2).unwrap(), true);
}

#[test]
fn test_boolean_array_get_out_of_bounds() {
    let mut ba = BooleanArray::with_default_obis();
    ba.set_value(vec![true, false]).unwrap();
    let result = ba.get(5);
    assert!(result.is_err());
}

#[test]
fn test_boolean_array_set() {
    let mut ba = BooleanArray::with_default_obis();
    ba.set_value(vec![true, false, true]).unwrap();
    ba.set(1, true).unwrap();
    assert_eq!(ba.get(1).unwrap(), true);
}

#[test]
fn test_boolean_array_set_out_of_bounds() {
    let mut ba = BooleanArray::with_default_obis();
    ba.set_value(vec![true, false]).unwrap();
    let result = ba.set(5, true);
    assert!(result.is_err());
}

#[test]
fn test_boolean_array_push() {
    let mut ba = BooleanArray::with_default_obis();
    ba.push(true).unwrap();
    ba.push(false).unwrap();
    assert_eq!(ba.len(), 2);
    assert_eq!(ba.value(), vec![true, false]);
}

#[test]
fn test_boolean_array_push_too_much() {
    let mut ba = BooleanArray::with_max_size(ObisCode::new(0, 0, 91, 0, 0, 255), 3);
    ba.push(true).unwrap();
    ba.push(true).unwrap();
    ba.push(true).unwrap();
    let result = ba.push(true);
    assert!(result.is_err());
}

#[test]
fn test_boolean_array_pop() {
    let mut ba = BooleanArray::with_default_obis();
    ba.set_value(vec![true, false, true]).unwrap();
    assert_eq!(ba.pop().unwrap(), true);
    assert_eq!(ba.len(), 2);
}

#[test]
fn test_boolean_array_pop_empty() {
    let mut ba = BooleanArray::with_default_obis();
    let result = ba.pop();
    assert!(result.is_err());
}

#[test]
fn test_boolean_array_remaining_capacity() {
    let mut ba = BooleanArray::with_max_size(ObisCode::new(0, 0, 91, 0, 0, 255), 100);
    assert_eq!(ba.remaining_capacity(), 100);

    ba.set_value(vec![true; 30]).unwrap();
    assert_eq!(ba.remaining_capacity(), 70);
}

#[test]
fn test_boolean_array_count_true() {
    let mut ba = BooleanArray::with_default_obis();
    ba.set_value(vec![true, false, true, true, false]).unwrap();
    assert_eq!(ba.count_true(), 3);
}

#[test]
fn test_boolean_array_count_false() {
    let mut ba = BooleanArray::with_default_obis();
    ba.set_value(vec![true, false, true, true, false]).unwrap();
    assert_eq!(ba.count_false(), 2);
}

#[test]
fn test_boolean_array_all_true() {
    let mut ba = BooleanArray::with_default_obis();
    ba.set_value(vec![true, true, true]).unwrap();
    assert!(ba.all_true());
}

#[test]
fn test_boolean_array_all_true_not_all() {
    let mut ba = BooleanArray::with_default_obis();
    ba.set_value(vec![true, false, true]).unwrap();
    assert!(!ba.all_true());
}

#[test]
fn test_boolean_array_all_false() {
    let mut ba = BooleanArray::with_default_obis();
    ba.set_value(vec![false, false, false]).unwrap();
    assert!(ba.all_false());
}

#[test]
fn test_boolean_array_any_true() {
    let mut ba = BooleanArray::with_default_obis();
    ba.set_value(vec![false, true, false]).unwrap();
    assert!(ba.any_true());
}

#[test]
fn test_boolean_array_any_true_none() {
    let mut ba = BooleanArray::with_default_obis();
    ba.set_value(vec![false, false, false]).unwrap();
    assert!(!ba.any_true());
}

#[test]
fn test_boolean_array_toggle_all() {
    let mut ba = BooleanArray::with_default_obis();
    ba.set_value(vec![true, false, true]).unwrap();
    ba.toggle_all();
    assert_eq!(ba.value(), vec![false, true, false]);
}

#[test]
fn test_boolean_array_toggle() {
    let mut ba = BooleanArray::with_default_obis();
    ba.set_value(vec![true, false, true]).unwrap();
    ba.toggle(1).unwrap();
    assert_eq!(ba.get(1).unwrap(), true);
}

#[test]
fn test_boolean_array_toggle_out_of_bounds() {
    let mut ba = BooleanArray::with_default_obis();
    ba.set_value(vec![true, false]).unwrap();
    let result = ba.toggle(5);
    assert!(result.is_err());
}

#[test]
fn test_boolean_array_set_all_true() {
    let mut ba = BooleanArray::with_default_obis();
    ba.set_value(vec![true, false, true]).unwrap();
    ba.set_all_true();
    assert!(ba.all_true());
}

#[test]
fn test_boolean_array_set_all_false() {
    let mut ba = BooleanArray::with_default_obis();
    ba.set_value(vec![true, false, true]).unwrap();
    ba.set_all_false();
    assert!(ba.all_false());
}

#[test]
fn test_boolean_array_to_bytes() {
    let mut ba = BooleanArray::with_default_obis();
    ba.set_value(vec![true, false, true, true, false, true, false, true]).unwrap();
    let bytes = ba.to_bytes();
    // Index 0 = bit 0, Index 1 = bit 1, etc.
    // [true, false, true, true, false, true, false, true]
    // Bits: 0=1, 1=0, 2=1, 3=1, 4=0, 5=1, 6=0, 7=1
    // Byte: 10101101 = 0xAD
    assert_eq!(bytes[0], 0b10101101);
}

#[test]
fn test_boolean_array_from_bytes() {
    let mut ba = BooleanArray::with_max_size(ObisCode::new(0, 0, 91, 0, 0, 255), 16);
    // Byte 0xAB = 0b10101011
    // Bits: 0=1, 1=1, 2=0, 3=1, 4=0, 5=1, 6=0, 7=1
    ba.from_bytes(&[0xAB, 0x55], 16).unwrap();
    let value = ba.value();
    assert_eq!(value[0], true);   // bit 0 of 0xAB
    assert_eq!(value[1], true);   // bit 1 of 0xAB
    assert_eq!(value[2], false);  // bit 2 of 0xAB
    assert_eq!(value[3], true);   // bit 3 of 0xAB
}

#[test]
fn test_boolean_array_with_value() {
    let ba = BooleanArray::with_value(ObisCode::new(0, 0, 91, 0, 0, 255), vec![true, false, true]);
    assert_eq!(ba.value(), vec![true, false, true]);
}

#[test]
fn test_boolean_array_get_attributes() {
    let ba = BooleanArray::with_value(ObisCode::new(0, 0, 91, 0, 0, 255), vec![true, false]);

    // Test value
    let result = ba.get_attribute(2, None).unwrap();
    match result {
        DataObject::Array(items) => {
            assert_eq!(items.len(), 2);
            match &items[0] {
                DataObject::Boolean(b) => assert_eq!(*b, true),
                _ => panic!("Expected Boolean"),
            }
        }
        _ => panic!("Expected Array"),
    }

    // Test max_size
    let result = ba.get_attribute(3, None).unwrap();
    match result {
        DataObject::Unsigned16(max_size) => assert_eq!(max_size, 255),
        _ => panic!("Expected Unsigned16"),
    }
}

#[test]
fn test_boolean_array_set_attributes() {
    let mut ba = BooleanArray::with_default_obis();

    ba.set_attribute(2, DataObject::Array(vec![
        DataObject::Boolean(true),
        DataObject::Boolean(false),
        DataObject::Boolean(true),
    ]), None).unwrap();
    assert_eq!(ba.value(), vec![true, false, true]);

    ba.set_attribute(3, DataObject::Unsigned16(512), None).unwrap();
    assert_eq!(ba.max_size(), 512);
}

#[test]
fn test_boolean_array_set_max_size_u8() {
    let mut ba = BooleanArray::with_default_obis();
    ba.set_attribute(3, DataObject::Unsigned8(200), None).unwrap();
    assert_eq!(ba.max_size(), 200);
}

#[test]
fn test_boolean_array_read_only_logical_name() {
    let mut ba = BooleanArray::with_default_obis();
    let result = ba
        .set_attribute(1, DataObject::OctetString(vec![0, 0, 91, 0, 0, 1]), None);
    assert!(result.is_err());
}

#[test]
fn test_boolean_array_invalid_attribute() {
    let ba = BooleanArray::with_default_obis();
    let result = ba.get_attribute(99, None);
    assert!(result.is_err());
}

#[test]
fn test_boolean_array_invalid_method() {
    let mut ba = BooleanArray::with_default_obis();
    let result = ba.invoke_method(1, None, None);
    assert!(result.is_err());
}

#[test]
fn test_boolean_array_with_custom_obis() {
    let obis = ObisCode::new(1, 1, 91, 0, 0, 1);
    let ba = BooleanArray::new(obis);
    assert_eq!(ba.obis_code(), obis);
}

#[test]
fn test_boolean_array_with_max_size() {
    let ba = BooleanArray::with_max_size(ObisCode::new(0, 0, 91, 0, 0, 255), 100);
    assert_eq!(ba.max_size(), 100);
}

#[test]
fn test_boolean_array_set_max_size_direct() {
    let mut ba = BooleanArray::with_default_obis();
    ba.set_max_size(1024);
    assert_eq!(ba.max_size(), 1024);
}

#[test]
fn test_boolean_array_invalid_value_type() {
    let mut ba = BooleanArray::with_default_obis();
    let result = ba.set_attribute(2, DataObject::OctetString(vec![1, 2]), None);
    assert!(result.is_err());
}

#[test]
fn test_boolean_array_invalid_array_element() {
    let mut ba = BooleanArray::with_default_obis();
    let result = ba.set_attribute(2, DataObject::Array(vec![
        DataObject::Boolean(true),
        DataObject::Unsigned8(42),
    ]), None);
    assert!(result.is_err());
}

#[test]
fn test_pack_unpack_round_trip() {
    let flags = vec![true, false, false, true, true, false, true, false, true, true];
    let source = BooleanArray::with_value(ObisCode::new(0, 0, 91, 0, 0, 255), flags.clone());
    let bytes = source.to_bytes();
    assert_eq!(bytes, vec![0b0101_1001, 0b0000_0011]);
    let mut target = BooleanArray::with_default_obis();
    target.from_bytes(&bytes, flags.len()).unwrap();
    assert_eq!(target.value(), flags);
}

#[test]
fn test_from_bytes_pads_with_false_and_checks_maximum() {
    let mut ba = BooleanArray::with_max_size(ObisCode::new(0, 0, 91, 0, 0, 255), 12);
    ba.from_bytes(&[0xFF], 10).unwrap();
    assert_eq!(ba.value(), vec![true, true, true, true, true, true, true, true, false, false]);
    assert!(ba.from_bytes(&[0xFF], 13).is_err());
    assert_eq!(ba.len(), 10);
}

#[test]
fn test_counts_and_toggle_twice() {
    let mut ba = BooleanArray::with_value(ObisCode::new(0, 0, 91, 0, 0, 255), vec![true, false, true, true]);
    assert_eq!(ba.count_true() + ba.count_false(), ba.len());
    ba.toggle_all();
    assert_eq!(ba.count_true(), 1);
    ba.toggle_all();
    assert_eq!(ba.value(), vec![true, false, true, true]);
}

#[test]
fn test_value_attribute_rejects_non_boolean() {
    let mut ba = BooleanArray::with_default_obis();
    let r = ba.set_attribute(2, DataObject::Array(vec![DataObject::Boolean(true), DataObject::Unsigned8(1)]), None);
    assert!(r.is_err());
    assert!(ba.is_empty());
    ba.set_max_size(300);
    assert_eq!(ba.get_attribute(3, None).unwrap(), DataObject::Unsigned16(300));
    ba.set_max_size(70000);
    assert_eq!(ba.get_attribute(3, None).unwrap(), DataObject::Unsigned16(4464));
    assert_eq!(ba.remaining_capacity(), 70000);
}
