use dlms_interface::image_transfer::{ImageInfo, ImageTransfer, ImageTransferStatus};
use dlms_interface::{CosemObject, DataObject};

#[test]
fn test_image_transfer_class_id() {
    let it = ImageTransfer::with_default_obis();
    assert_eq!(it.class_id(), 18);
}

#[test]
fn test_image_transfer_obis_code() {
    let it = ImageTransfer::with_default_obis();
    assert_eq!(it.obis_code(), ImageTransfer::default_obis());
}

#[test]
fn test_image_transfer_status_from_u8() {
    assert_eq!(ImageTransferStatus::from_u8(0), ImageTransferStatus::Initiated);
    assert_eq!(ImageTransferStatus::from_u8(1), ImageTransferStatus::InProgress);
    assert_eq!(ImageTransferStatus::from_u8(2), ImageTransferStatus::Verified);
    assert_eq!(ImageTransferStatus::from_u8(3), ImageTransferStatus::VerificationFailed);
    assert_eq!(ImageTransferStatus::from_u8(4), ImageTransferStatus::TransferFailed);
    assert_eq!(ImageTransferStatus::from_u8(99), ImageTransferStatus::Idle);
}

#[test]
fn test_image_transfer_status_to_u8() {
    assert_eq!(ImageTransferStatus::Initiated.to_u8(), 0);
    assert_eq!(ImageTransferStatus::InProgress.to_u8(), 1);
    assert_eq!(ImageTransferStatus::Verified.to_u8(), 2);
    assert_eq!(ImageTransferStatus::VerificationFailed.to_u8(), 3);
    assert_eq!(ImageTransferStatus::TransferFailed.to_u8(), 4);
    assert_eq!(ImageTransferStatus::Idle.to_u8(), 5);
}

#[test]
fn test_image_transfer_status_is_active() {
    assert!(ImageTransferStatus::Initiated.is_active());
    assert!(ImageTransferStatus::InProgress.is_active());
    assert!(ImageTransferStatus::Verified.is_active());
    assert!(!ImageTransferStatus::VerificationFailed.is_active());
    assert!(!ImageTransferStatus::TransferFailed.is_active());
    assert!(!ImageTransferStatus::Idle.is_active());
}

#[test]
fn test_image_transfer_status_is_failed() {
    assert!(ImageTransferStatus::VerificationFailed.is_failed());
    assert!(ImageTransferStatus::TransferFailed.is_failed());
    assert!(!ImageTransferStatus::Initiated.is_failed());
}

#[test]
fn test_image_transfer_status_is_verified() {
    assert!(ImageTransferStatus::Verified.is_verified());
    assert!(!ImageTransferStatus::InProgress.is_verified());
}

#[test]
fn test_image_transfer_initial_state() {
    let it = ImageTransfer::with_default_obis();
    assert_eq!(it.image_size(), 0);
    assert_eq!(it.image_transferred_blocks(), 0);
    assert_eq!(it.image_first_not_transferred_block(), 0);
    assert!(it.is_transfer_enabled());
    assert_eq!(it.transfer_status(), ImageTransferStatus::Idle);
}

#[test]
fn test_image_transfer_initiate() {
    let mut it = ImageTransfer::with_default_obis();
    let identification = vec![0x01, 0x02, 0x03, 0x04];

    it.initiate_transfer(1024, identification.clone()).unwrap();

    assert_eq!(it.image_size(), 1024);
    assert_eq!(it.transfer_status(), ImageTransferStatus::Initiated);
    assert_eq!(it.total_blocks(), 4); // 1024 / 256 = 4
}

#[test]
fn test_image_transfer_initiate_disabled() {
    let mut it = ImageTransfer::with_default_obis();
    it.set_transfer_enabled(false);

    let result = it.initiate_transfer(1024, vec![1, 2, 3]);
    assert!(result.is_err());
}

#[test]
fn test_image_transfer_initiate_already_in_progress() {
    let mut it = ImageTransfer::with_default_obis();

    it.initiate_transfer(1024, vec![1, 2, 3]).unwrap();

    let result = it.initiate_transfer(2048, vec![5, 6, 7]);
    assert!(result.is_err());
}

#[test]
fn test_image_transfer_block() {
    let mut it = ImageTransfer::with_default_obis();

    it.initiate_transfer(512, vec![1, 2, 3]).unwrap();

    let block1 = vec![0u8; 256];
    it.transfer_block(0, block1).unwrap();

    assert_eq!(it.image_transferred_blocks(), 1);
    assert_eq!(it.image_first_not_transferred_block(), 1);
    assert_eq!(it.transfer_status(), ImageTransferStatus::InProgress);
}

#[test]
fn test_image_transfer_block_wrong_number() {
    let mut it = ImageTransfer::with_default_obis();

    it.initiate_transfer(512, vec![1, 2, 3]).unwrap();

    let block = vec![0u8; 256];
    let result = it.transfer_block(5, block);
    assert!(result.is_err());
}

#[test]
fn test_image_transfer_complete() {
    let mut it = ImageTransfer::with_default_obis();
    it.set_block_size(128);

    it.initiate_transfer(256, vec![1, 2, 3]).unwrap();

    let block1 = vec![1u8; 128];
    let block2 = vec![2u8; 128];

    it.transfer_block(0, block1).unwrap();
    assert_eq!(it.transfer_status(), ImageTransferStatus::InProgress);

    it.transfer_block(1, block2).unwrap();

    // After receiving all blocks, should be verified
    assert_eq!(it.transfer_status(), ImageTransferStatus::Verified);
}

#[test]
fn test_image_transfer_verify() {
    let mut it = ImageTransfer::with_default_obis();
    it.set_block_size(128);

    it.initiate_transfer(256, vec![1, 2, 3]).unwrap();

    let block1 = vec![1u8; 128];
    let block2 = vec![2u8; 128];

    it.transfer_block(0, block1).unwrap();
    it.transfer_block(1, block2).unwrap();

    let verified = it.verify_image().unwrap();
    assert!(verified);
    assert_eq!(it.transfer_status(), ImageTransferStatus::Verified);
}

#[test]
fn test_image_transfer_activate() {
    let mut it = ImageTransfer::with_default_obis();
    it.set_block_size(128);

    it.initiate_transfer(256, vec![1, 2, 3]).unwrap();

    let block1 = vec![1u8; 128];
    let block2 = vec![2u8; 128];

    it.transfer_block(0, block1).unwrap();
    it.transfer_block(1, block2).unwrap();

    it.activate_image().unwrap();

    assert_eq!(it.transfer_status(), ImageTransferStatus::Idle);
    assert!(it.image_to_activate_info().is_some());
}

#[test]
fn test_image_transfer_activate_not_verified() {
    let mut it = ImageTransfer::with_default_obis();

    it.initiate_transfer(256, vec![1, 2, 3]).unwrap();

    let result = it.activate_image();
    assert!(result.is_err());
}

#[test]
fn test_image_transfer_progress() {
    let mut it = ImageTransfer::with_default_obis();

    it.initiate_transfer(1024, vec![1, 2, 3]).unwrap();
    assert_eq!(it.progress(), 0);

    let block1 = vec![0u8; 256];
    it.transfer_block(0, block1).unwrap();
    assert_eq!(it.progress(), 25); // 1/4 blocks

    let block2 = vec![0u8; 256];
    it.transfer_block(1, block2).unwrap();
    assert_eq!(it.progress(), 50); // 2/4 blocks
}

#[test]
fn test_image_transfer_reset() {
    let mut it = ImageTransfer::with_default_obis();

    it.initiate_transfer(1024, vec![1, 2, 3]).unwrap();
    it.reset();

    assert_eq!(it.transfer_status(), ImageTransferStatus::Idle);
    assert_eq!(it.image_transferred_blocks(), 0);
    assert_eq!(it.image_first_not_transferred_block(), 0);
}

#[test]
fn test_image_info_new() {
    let info = ImageInfo::new(vec![1, 2, 3], 1024);
    assert_eq!(info.image_size, 1024);
    assert_eq!(info.image_identification, vec![1, 2, 3]);
}

#[test]
fn test_image_info_with_checksum() {
    let info = ImageInfo::new(vec![1, 2, 3], 1024)
        .with_checksum(vec![0xAA, 0xBB]);
    assert_eq!(info.checksum, vec![0xAA, 0xBB]);
}

#[test]
fn test_image_info_to_data_object() {
    let info = ImageInfo::new(vec![1, 2, 3], 1024);
    let data = info.to_data_object();

    match data {
        DataObject::Array(arr) => {
            assert_eq!(arr.len(), 4);
        }
        _ => panic!("Expected Array"),
    }
}

#[test]
fn test_image_info_from_data_object() {
    let data = DataObject::Array(vec![
        DataObject::OctetString(vec![1, 2, 3]),
        DataObject::Unsigned32(1024),
        DataObject::OctetString(vec![0xAA, 0xBB]),
        DataObject::OctetString(vec![0xCC, 0xDD]),
    ]);

    let info = ImageInfo::from_data_object(&data).unwrap();
    assert_eq!(info.image_size, 1024);
    assert_eq!(info.checksum, vec![0xAA, 0xBB]);
    assert_eq!(info.signature, vec![0xCC, 0xDD]);
}

#[test]
fn test_image_transfer_get_attributes() {
    let it = ImageTransfer::with_default_obis();

    // Test logical_name
    let result = it.get_attribute(1, None).unwrap();
    match result {
        DataObject::OctetString(bytes) => assert_eq!(bytes.len(), 6),
        _ => panic!("Expected OctetString"),
    }

    // Test image_size
    let result = it.get_attribute(2, None).unwrap();
    match result {
        DataObject::Unsigned32(size) => assert_eq!(size, 0),
        _ => panic!("Expected Unsigned32"),
    }

    // Test image_transfer_enabled
    let result = it.get_attribute(5, None).unwrap();
    match result {
        DataObject::Boolean(enabled) => assert!(enabled),
        _ => panic!("Expected Boolean"),
    }

    // Test image_transfer_status
    let result = it.get_attribute(6, None).unwrap();
    match result {
        DataObject::Enumerate(status) => assert_eq!(status, 5), // Idle
        _ => panic!("Expected Enumerate"),
    }
}

#[test]
fn test_image_transfer_set_attributes() {
    let mut it = ImageTransfer::with_default_obis();

    it.set_attribute(2, DataObject::Unsigned32(2048), None).unwrap();
    assert_eq!(it.image_size(), 2048);

    it.set_attribute(5, DataObject::Boolean(false), None).unwrap();
    assert!(!it.is_transfer_enabled());

    it.set_attribute(6, DataObject::Enumerate(1), None).unwrap();
    assert_eq!(it.transfer_status(), ImageTransferStatus::InProgress);
}

#[test]
fn test_image_transfer_read_only_logical_name() {
    let mut it = ImageTransfer::with_default_obis();
    let result = it
        .set_attribute(1, DataObject::OctetString(vec![0, 0, 18, 0, 0, 1]), None);
    assert!(result.is_err());
}

#[test]
fn test_image_transfer_set_image_to_activate() {
    let mut it = ImageTransfer::with_default_obis();
    let info_data = DataObject::Array(vec![
        DataObject::OctetString(vec![1, 2, 3]),
        DataObject::Unsigned32(1024),
        DataObject::OctetString(vec![0xAA, 0xBB]),
    ]);

    it.set_attribute(7, info_data, None).unwrap();

    let info = it.image_to_activate_info();
    assert!(info.is_some());
    assert_eq!(info.unwrap().image_size, 1024);
}

#[test]
fn test_image_transfer_method_initiate() {
    let mut it = ImageTransfer::with_default_obis();
    let params = DataObject::Array(vec![
        DataObject::Unsigned32(1024),
        DataObject::OctetString(vec![1, 2, 3, 4]),
    ]);

    it.invoke_method(1, Some(params), None).unwrap();
    assert_eq!(it.image_size(), 1024);
    assert_eq!(it.transfer_status(), ImageTransferStatus::Initiated);
}

#[test]
fn test_image_transfer_method_block() {
    let mut it = ImageTransfer::with_default_obis();

    it.initiate_transfer(512, vec![1, 2, 3]).unwrap();

    let params = DataObject::Array(vec![
        DataObject::Unsigned32(0),
        DataObject::OctetString(vec![0u8; 256]),
    ]);

    it.invoke_method(2, Some(params), None).unwrap();
    assert_eq!(it.image_transferred_blocks(), 1);
}

#[test]
fn test_image_transfer_method_verify() {
    let mut it = ImageTransfer::with_default_obis();
    it.set_block_size(128);

    it.initiate_transfer(128, vec![1, 2, 3]).unwrap();

    let block = vec![1u8; 128];
    it.transfer_block(0, block).unwrap();

    let result = it.invoke_method(3, None, None).unwrap();
    match result {
        Some(DataObject::Boolean(verified)) => assert!(verified),
        _ => panic!("Expected Boolean result"),
    }
}

#[test]
fn test_image_transfer_method_activate() {
    let mut it = ImageTransfer::with_default_obis();
    it.set_block_size(128);

    it.initiate_transfer(128, vec![1, 2, 3]).unwrap();
    let block = vec![1u8; 128];
    it.transfer_block(0, block).unwrap();

    it.invoke_method(4, None, None).unwrap();
    assert_eq!(it.transfer_status(), ImageTransferStatus::Idle);
}

#[test]
fn test_image_transfer_invalid_attribute() {
    let it = ImageTransfer::with_default_obis();
    let result = it.get_attribute(99, None);
    assert!(result.is_err());
}

#[test]
fn test_image_transfer_invalid_method() {
    let mut it = ImageTransfer::with_default_obis();
    let result = it.invoke_method(99, None, None);
    assert!(result.is_err());
}

#[test]
fn test_blocks_accumulate_image_data_in_order() {
    let mut it = ImageTransfer::with_default_obis();
    it.set_block_size(2);
    it.initiate_transfer(5, vec![9]).unwrap();
    it.transfer_block(0, vec![1, 2]).unwrap();
    assert!(it.transfer_block(0, vec![1, 2]).is_err());
    it.transfer_block(1, vec![3, 4]).unwrap();
    assert_eq!(it.transfer_status(), ImageTransferStatus::InProgress);
    assert_eq!(it.verify_image().unwrap(), false);
    assert_eq!(it.transfer_status(), ImageTransferStatus::VerificationFailed);
    assert!(it.transfer_block(2, vec![5]).is_err());
    assert!(it.activate_image().is_err());
}

#[test]
fn test_activate_moves_current_image_and_allows_new_transfer() {
    let mut it = ImageTransfer::with_default_obis();
    it.set_block_size(4);
    it.initiate_transfer(4, vec![7, 7]).unwrap();
    assert!(it.initiate_transfer(4, vec![8]).is_err());
    it.transfer_block(0, vec![0, 0, 0, 0]).unwrap();
    assert_eq!(it.transfer_status(), ImageTransferStatus::Verified);
    it.activate_image().unwrap();
    let info = it.image_to_activate_info().unwrap();
    assert_eq!(info.image_identification, vec![7, 7]);
    assert_eq!(info.image_size, 4);
    assert_eq!(it.image_transferred_blocks(), 0);
    it.initiate_transfer(8, vec![8]).unwrap();
    assert_eq!(it.total_blocks(), 2);
    assert_eq!(it.progress(), 0);
}

#[test]
fn test_image_info_round_trip_and_unsigned16_size() {
    let info = ImageInfo::new(vec![1], 300).with_checksum(vec![2]).with_signature(vec![3]);
    assert_eq!(ImageInfo::from_data_object(&info.to_data_object()).unwrap(), info);
    let short = DataObject::Array(vec![DataObject::OctetString(vec![5]), DataObject::Unsigned16(12), DataObject::Boolean(true)]);
    let parsed = ImageInfo::from_data_object(&short).unwrap();
    assert_eq!(parsed.image_size, 12);
    assert!(parsed.checksum.is_empty());
    assert!(ImageInfo::from_data_object(&DataObject::Array(vec![DataObject::OctetString(vec![])])).is_err());
}

#[test]
fn test_image_transfer_out_of_order_message() {
    let mut it = ImageTransfer::with_default_obis();
    it.initiate_transfer(512, vec![1, 2, 3]).unwrap();
    assert_eq!(
        it.transfer_block(4, vec![0; 8]),
        Err(dlms_interface::DlmsError::InvalidData("Expected block 0, got 4".to_string()))
    );
}
