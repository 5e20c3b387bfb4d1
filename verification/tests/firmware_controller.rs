use dlms_interface::firmware_controller::{FirmwareController, FirmwareUpdateStatus};
use dlms_interface::{CosemObject, DataObject, ObisCode};

#[test]
fn test_firmware_controller_class_id() {
    let fc = FirmwareController::with_default_obis();
    assert_eq!(fc.class_id(), 83);
}

#[test]
fn test_firmware_controller_obis_code() {
    let fc = FirmwareController::with_default_obis();
    assert_eq!(fc.obis_code(), FirmwareController::default_obis());
}

#[test]
fn test_firmware_update_status_from_u8() {
    assert_eq!(FirmwareUpdateStatus::from_u8(0), FirmwareUpdateStatus::NoUpdate);
    assert_eq!(FirmwareUpdateStatus::from_u8(1), FirmwareUpdateStatus::InProgress);
    assert_eq!(FirmwareUpdateStatus::from_u8(2), FirmwareUpdateStatus::Success);
    assert_eq!(FirmwareUpdateStatus::from_u8(3), FirmwareUpdateStatus::Failed);
    assert_eq!(FirmwareUpdateStatus::from_u8(4), FirmwareUpdateStatus::Scheduled);
}

#[test]
fn test_firmware_update_status_is_success() {
    assert!(FirmwareUpdateStatus::Success.is_success());
    assert!(!FirmwareUpdateStatus::Failed.is_success());
    assert!(!FirmwareUpdateStatus::InProgress.is_success());
}

#[test]
fn test_firmware_update_status_is_failure() {
    assert!(FirmwareUpdateStatus::Failed.is_failure());
    assert!(FirmwareUpdateStatus::VerificationFailed.is_failure());
    assert!(!FirmwareUpdateStatus::Success.is_failure());
    assert!(!FirmwareUpdateStatus::InProgress.is_failure());
}

#[test]
fn test_firmware_update_status_is_in_progress() {
    assert!(FirmwareUpdateStatus::InProgress.is_in_progress());
    assert!(!FirmwareUpdateStatus::Success.is_in_progress());
    assert!(!FirmwareUpdateStatus::Failed.is_in_progress());
}

#[test]
fn test_firmware_controller_initial_state() {
    let mut fc = FirmwareController::with_default_obis();
    assert_eq!(fc.firmware_version(), "1.0.0");
    assert_eq!(fc.update_status(), FirmwareUpdateStatus::NoUpdate);
    assert_eq!(fc.update_time(), None);
}

#[test]
fn test_firmware_controller_set_firmware_version() {
    let mut fc = FirmwareController::with_default_obis();
    fc.set_firmware_version(String::from("2.1.0"));
    assert_eq!(fc.firmware_version(), "2.1.0");
}

#[test]
fn test_firmware_controller_set_firmware_signature() {
    let mut fc = FirmwareController::with_default_obis();
    fc.set_firmware_signature(String::from("ABC123"));
    assert_eq!(fc.firmware_signature(), "ABC123");
}

#[test]
fn test_firmware_controller_set_update_status() {
    let mut fc = FirmwareController::with_default_obis();
    fc.set_update_status(FirmwareUpdateStatus::Success);
    assert!(fc.is_update_successful());
}

#[test]
fn test_firmware_controller_set_update_time() {
    let mut fc = FirmwareController::with_default_obis();
    fc.set_update_time(Some(1609459200));
    assert_eq!(fc.update_time(), Some(1609459200));
}

#[test]
fn test_firmware_controller_is_update_successful() {
    let mut fc = FirmwareController::with_default_obis();
    assert!(!fc.is_update_successful());

    fc.set_update_status(FirmwareUpdateStatus::Success);
    assert!(fc.is_update_successful());
}

#[test]
fn test_firmware_controller_is_update_failed() {
    let mut fc = FirmwareController::with_default_obis();
    assert!(!fc.is_update_failed());

    fc.set_update_status(FirmwareUpdateStatus::Failed);
    assert!(fc.is_update_failed());
}

#[test]
fn test_firmware_controller_is_update_in_progress() {
    let mut fc = FirmwareController::with_default_obis();
    assert!(!fc.is_update_in_progress());

    fc.set_update_status(FirmwareUpdateStatus::InProgress);
    assert!(fc.is_update_in_progress());
}

#[test]
fn test_firmware_controller_record_successful_update() {
    let mut fc = FirmwareController::with_default_obis();
    fc.record_successful_update(String::from("2.0.0"), String::from("NEW-SIG"));

    assert_eq!(fc.firmware_version(), "2.0.0");
    assert_eq!(fc.firmware_signature(), "NEW-SIG");
    assert!(fc.is_update_successful());
    assert!(fc.update_time().is_some());
}

#[test]
fn test_firmware_controller_record_failed_update() {
    let mut fc = FirmwareController::with_default_obis();
    fc.record_failed_update();
    assert!(fc.is_update_failed());
}

#[test]
fn test_firmware_controller_start_update() {
    let mut fc = FirmwareController::with_default_obis();
    fc.start_update();
    assert!(fc.is_update_in_progress());
}

#[test]
fn test_firmware_controller_version_tuple() {
    let fc = FirmwareController::with_version(ObisCode::new(0, 0, 83, 0, 0, 255), String::from("2.5.1"));
    assert_eq!(fc.version_tuple(), (2, 5, 1));
}

#[test]
fn test_firmware_controller_version_tuple_invalid() {
    let fc = FirmwareController::with_version(ObisCode::new(0, 0, 83, 0, 0, 255), String::from("invalid"));
    assert_eq!(fc.version_tuple(), (0, 0, 0));
}

#[test]
fn test_firmware_controller_compare_version_greater() {
    let fc = FirmwareController::with_version(ObisCode::new(0, 0, 83, 0, 0, 255), String::from("2.0.0"));
    assert_eq!(fc.compare_version("1.5.0"), 1);
    assert_eq!(fc.compare_version("2.0.0"), 0);
    assert_eq!(fc.compare_version("2.1.0"), -1);
}

#[test]
fn test_firmware_controller_get_attributes() {
    let fc = FirmwareController::with_default_obis();

    // Test firmware_version
    let result = fc.get_attribute(2, None).unwrap();
    match result {
        DataObject::OctetString(bytes) => {
            assert_eq!(String::from_utf8_lossy(&bytes), "1.0.0");
        }
        _ => panic!("Expected OctetString"),
    }

    // Test update_status
    let result = fc.get_attribute(4, None).unwrap();
    match result {
        DataObject::Enumerate(status) => assert_eq!(status, 0), // NoUpdate
        _ => panic!("Expected Enumerate"),
    }
}

#[test]
fn test_firmware_controller_set_attributes() {
    let mut fc = FirmwareController::with_default_obis();

    fc.set_attribute(2, DataObject::OctetString(b"3.0.0".to_vec()), None).unwrap();
    assert_eq!(fc.firmware_version(), "3.0.0");

    fc.set_attribute(4, DataObject::Enumerate(2), None) // Success
        .unwrap();
    assert!(fc.is_update_successful());
}

#[test]
fn test_firmware_controller_read_only_logical_name() {
    let mut fc = FirmwareController::with_default_obis();
    let result = fc
        .set_attribute(1, DataObject::OctetString(vec![0, 0, 83, 0, 0, 1]), None);
    assert!(result.is_err());
}

#[test]
fn test_firmware_controller_invalid_attribute() {
    let fc = FirmwareController::with_default_obis();
    let result = fc.get_attribute(99, None);
    assert!(result.is_err());
}

#[test]
fn test_firmware_controller_invalid_method() {
    let mut fc = FirmwareController::with_default_obis();
    let result = fc.invoke_method(1, None, None);
    assert!(result.is_err());
}

#[test]
fn test_firmware_controller_with_custom_obis() {
    let obis = ObisCode::new(1, 1, 83, 0, 0, 1);
    let fc = FirmwareController::new(obis);
    assert_eq!(fc.obis_code(), obis);
}

#[test]
fn test_firmware_controller_update_time_null() {
    let mut fc = FirmwareController::with_default_obis();
    fc.set_attribute(5, DataObject::Null, None).unwrap();
    assert_eq!(fc.update_time(), None);
}

#[test]
fn test_firmware_controller_compare_version_different_lengths() {
    let fc = FirmwareController::with_version(ObisCode::new(0, 0, 83, 0, 0, 255), String::from("2.0"));
    assert_eq!(fc.compare_version("2.0.0"), 0);
    assert_eq!(fc.compare_version("2.0.1"), -1);
    assert_eq!(fc.compare_version("1.9.9"), 1);
}
