use dlms_interface::extended_register::ExtendedRegister;
use dlms_interface::{CosemObject, DataObject, DlmsError, ScalerUnit};

#[test]
fn test_extended_register_class_id() {
    let reg = ExtendedRegister::with_default_obis(100);
    assert_eq!(reg.class_id(), 4);
}

#[test]
fn test_extended_register_obis_code() {
    let reg = ExtendedRegister::with_default_obis(100);
    assert_eq!(reg.obis_code(), ExtendedRegister::default_obis());
}

#[test]
fn test_extended_register_value() {
    let mut reg = ExtendedRegister::with_default_obis(100);
    assert_eq!(reg.value(), 100);

    reg.set_attribute(2, DataObject::Integer64(200), None).unwrap();
    assert_eq!(reg.value(), 200);
}

#[test]
fn test_extended_register_scaler_unit() {
    let mut reg = ExtendedRegister::with_default_obis(100);
    assert_eq!(reg.get_attribute(3, None).unwrap(), DataObject::Null);

    let scaler_unit = ScalerUnit::new(-1, 30); // kW
    let value = scaler_unit.to_data_object();
    reg.set_attribute(3, value, None).unwrap();

    let result = reg.scaler_unit();
    assert!(result.is_some());
    let su = result.unwrap();
    assert_eq!(su.scaler(), -1);
    assert_eq!(su.unit(), 30);
}

#[test]
fn test_extended_register_status() {
    let mut reg = ExtendedRegister::with_default_obis(100);
    let status = vec![0x01, 0x02];

    reg.set_attribute(4, DataObject::OctetString(status.clone()), None).unwrap();

    let result = reg.status();
    assert_eq!(result, Some(status));
}

#[test]
fn test_extended_register_status_null() {
    let mut reg = ExtendedRegister::new(ExtendedRegister::default_obis(), 100, None, Some(vec![0x01]));

    reg.set_attribute(4, DataObject::Null, None).unwrap();

    let result = reg.status();
    assert!(result.is_none());
}

#[test]
fn test_extended_register_capture_time() {
    let mut reg = ExtendedRegister::with_default_obis(100);
    assert_eq!(reg.get_attribute(5, None).unwrap(), DataObject::Null);

    // Setting a value should update capture time
    reg.set_value(150);
    assert!(reg.capture_time().is_some());
}

#[test]
fn test_extended_register_get_logical_name() {
    let reg = ExtendedRegister::with_default_obis(100);
    let result = reg.get_attribute(1, None).unwrap();

    match result {
        DataObject::OctetString(bytes) => {
            assert_eq!(bytes.len(), 6);
        }
        _ => panic!("Expected OctetString"),
    }
}

#[test]
fn test_extended_register_invalid_attribute() {
    let reg = ExtendedRegister::with_default_obis(100);
    let result = reg.get_attribute(99, None);
    assert!(result.is_err());
}

#[test]
fn test_extended_register_read_only_logical_name() {
    let mut reg = ExtendedRegister::with_default_obis(100);
    let result = reg.set_attribute(1, DataObject::OctetString(vec![0, 0, 1, 0, 0, 1]), None);
    assert!(result.is_err());
}

#[test]
fn test_extended_register_update() {
    let mut reg = ExtendedRegister::with_default_obis(100);
    let new_status = vec![0xFF];

    reg.update(250, Some(new_status.clone()));

    assert_eq!(reg.value(), 250);
    assert_eq!(reg.status(), Some(new_status));
    assert!(reg.capture_time().is_some());
}

#[test]
fn test_extended_register_negative_value() {
    let mut reg = ExtendedRegister::with_default_obis(100);
    reg.set_attribute(2, DataObject::Integer64(-1000), None).unwrap();

    assert_eq!(reg.value(), -1000);
}

#[test]
fn test_extended_register_update_without_status_keeps_status() {
    let mut reg = ExtendedRegister::new(ExtendedRegister::default_obis(), 1, None, Some(vec![0x05]));
    reg.update(2, None);
    assert_eq!(reg.value(), 2);
    assert_eq!(reg.status(), Some(vec![0x05]));
}

#[test]
fn test_extended_register_bad_scaler_unit() {
    let mut reg = ExtendedRegister::with_default_obis(100);
    let result = reg.set_attribute(3, DataObject::Unsigned8(1), None);
    assert!(matches!(result, Err(DlmsError::InvalidData(_))));
    assert_eq!(reg.scaler_unit(), None);
}

#[test]
fn test_extended_register_capture_time_reads_back() {
    let mut reg = ExtendedRegister::with_default_obis(100);
    let bytes = vec![0x07, 0xE9, 12, 31, 3, 23, 59, 59, 99, 0x00, 0x3C, 0x01];
    reg.set_attribute(5, DataObject::OctetString(bytes.clone()), None).unwrap();
    assert_eq!(reg.get_attribute(5, None), Ok(DataObject::OctetString(bytes)));
    assert!(reg.invoke_method(1, None, None).is_err());
}
