use dlms_interface::iec_hdlc_setup::{IecHdlcSetup, InformationLength};
use dlms_interface::{CosemObject, DataObject};

#[test]
fn test_iec_hdlc_setup_class_id() {
    let setup = IecHdlcSetup::with_default_obis();
    assert_eq!(setup.class_id(), 23);
}

#[test]
fn test_iec_hdlc_setup_obis_code() {
    let setup = IecHdlcSetup::with_default_obis();
    assert_eq!(setup.obis_code(), IecHdlcSetup::default_obis());
}

#[test]
fn test_iec_hdlc_setup_defaults() {
    let setup = IecHdlcSetup::with_default_obis();
    assert_eq!(setup.communication_speed(), 9600);
    assert_eq!(setup.window_size_transmission(), 1);
    assert_eq!(setup.window_size_reception(), 1);
    assert_eq!(
        setup.maximum_information_length(),
        InformationLength::L128
    );
    assert_eq!(setup.supported_communication_speeds().len(), 10);
}

#[test]
fn test_iec_hdlc_setup_set_communication_speed() {
    let mut setup = IecHdlcSetup::with_default_obis();
    setup.set_communication_speed(19200).unwrap();
    assert_eq!(setup.communication_speed(), 19200);
}

#[test]
fn test_iec_hdlc_setup_set_unsupported_speed() {
    let mut setup = IecHdlcSetup::with_default_obis();
    let result = setup.set_communication_speed(12345);
    assert!(result.is_err());
}

#[test]
fn test_iec_hdlc_setup_set_window_size_transmission() {
    let mut setup = IecHdlcSetup::with_default_obis();
    setup.set_window_size_transmission(3).unwrap();
    assert_eq!(setup.window_size_transmission(), 3);
}

#[test]
fn test_iec_hdlc_setup_set_invalid_window_size_transmission() {
    let mut setup = IecHdlcSetup::with_default_obis();
    let result = setup.set_window_size_transmission(8);
    assert!(result.is_err());
}

#[test]
fn test_iec_hdlc_setup_set_window_size_reception() {
    let mut setup = IecHdlcSetup::with_default_obis();
    setup.set_window_size_reception(2).unwrap();
    assert_eq!(setup.window_size_reception(), 2);
}

#[test]
fn test_iec_hdlc_setup_set_invalid_window_size_reception() {
    let mut setup = IecHdlcSetup::with_default_obis();
    let result = setup.set_window_size_reception(0);
    assert!(result.is_err());
}

#[test]
fn test_iec_hdlc_setup_set_maximum_information_length() {
    let mut setup = IecHdlcSetup::with_default_obis();
    setup
        .set_maximum_information_length(InformationLength::L512);
    assert_eq!(
        setup.maximum_information_length(),
        InformationLength::L512
    );
}

#[test]
fn test_iec_hdlc_setup_is_speed_supported() {
    let setup = IecHdlcSetup::with_default_obis();
    assert!(setup.is_speed_supported(9600));
    assert!(setup.is_speed_supported(115200));
    assert!(!setup.is_speed_supported(12345));
}

#[test]
fn test_iec_hdlc_setup_config() {
    let setup = IecHdlcSetup::with_default_obis();
    let (speed, tx_win, rx_win, info_len) = setup.config();
    assert_eq!(speed, 9600);
    assert_eq!(tx_win, 1);
    assert_eq!(rx_win, 1);
    assert_eq!(info_len, InformationLength::L128);
}

#[test]
fn test_iec_hdlc_setup_set_defaults() {
    let mut setup = IecHdlcSetup::new(
        IecHdlcSetup::default_obis(),
        19200,
        2,
        2,
        InformationLength::L512,
        vec![300, 9600, 19200],
    );

    setup.set_defaults().unwrap();

    assert_eq!(setup.communication_speed(), 9600);
    assert_eq!(setup.window_size_transmission(), 1);
    assert_eq!(setup.window_size_reception(), 1);
    assert_eq!(
        setup.maximum_information_length(),
        InformationLength::L128
    );
}

#[test]
fn test_iec_hdlc_setup_get_logical_name() {
    let setup = IecHdlcSetup::with_default_obis();
    let result = setup.get_attribute(1, None).unwrap();

    match result {
        DataObject::OctetString(bytes) => {
            assert_eq!(bytes.len(), 6);
        }
        _ => panic!("Expected OctetString"),
    }
}

#[test]
fn test_iec_hdlc_setup_get_communication_speed() {
    let setup = IecHdlcSetup::with_default_obis();
    let result = setup.get_attribute(2, None).unwrap();
    assert_eq!(result, DataObject::Unsigned32(9600));
}

#[test]
fn test_iec_hdlc_setup_set_communication_speed_via_attribute() {
    let mut setup = IecHdlcSetup::with_default_obis();
    setup
        .set_attribute(2, DataObject::Unsigned32(19200), None).unwrap();
    assert_eq!(setup.communication_speed(), 19200);
}

#[test]
fn test_iec_hdlc_setup_get_supported_speeds() {
    let setup = IecHdlcSetup::with_default_obis();
    let result = setup.get_attribute(6, None).unwrap();

    match result {
        DataObject::Array(speeds) => {
            assert_eq!(speeds.len(), 10);
        }
        _ => panic!("Expected Array"),
    }
}

#[test]
fn test_iec_hdlc_setup_read_only_logical_name() {
    let mut setup = IecHdlcSetup::with_default_obis();
    let result = setup
        .set_attribute(1, DataObject::OctetString(vec![0, 0, 24, 0, 0, 1]), None);
    assert!(result.is_err());
}

#[test]
fn test_iec_hdlc_setup_read_only_supported_speeds() {
    let mut setup = IecHdlcSetup::with_default_obis();
    let result = setup
        .set_attribute(
            6,
            DataObject::Array(vec![DataObject::Unsigned32(9600)]),
            None,
        );
    assert!(result.is_err());
}

#[test]
fn test_iec_hdlc_setup_invalid_attribute() {
    let setup = IecHdlcSetup::with_default_obis();
    let result = setup.get_attribute(99, None);
    assert!(result.is_err());
}

#[test]
fn test_iec_hdlc_setup_invalid_method() {
    let mut setup = IecHdlcSetup::with_default_obis();
    let result = setup.invoke_method(1, None, None);
    assert!(result.is_err());
}

#[test]
fn test_information_length_from_u16() {
    assert_eq!(
        InformationLength::from_u16(128),
        Some(InformationLength::L128)
    );
    assert_eq!(
        InformationLength::from_u16(512),
        Some(InformationLength::L512)
    );
    assert_eq!(InformationLength::from_u16(123), None);
}

#[test]
fn test_iec_hdlc_setup_set_defaults_needs_9600() {
    let mut setup = IecHdlcSetup::new(
        IecHdlcSetup::default_obis(),
        19200,
        2,
        3,
        InformationLength::L512,
        vec![19200, 38400],
    );
    assert!(setup.set_defaults().is_err());
    assert_eq!(setup.config(), (19200, 2, 3, InformationLength::L512));
}

#[test]
fn test_information_length_round_trip() {
    for l in [InformationLength::L128, InformationLength::L256, InformationLength::L512, InformationLength::L1024] {
        assert_eq!(InformationLength::from_u16(l.to_u16()), Some(l));
    }
    assert_eq!(InformationLength::L1024.to_u16(), 1024);
}

#[test]
fn test_iec_hdlc_setup_information_length_via_attribute() {
    let mut setup = IecHdlcSetup::with_default_obis();
    setup.set_attribute(5, DataObject::Unsigned16(1024), None).unwrap();
    assert_eq!(setup.get_attribute(5, None), Ok(DataObject::Unsigned16(1024)));
    assert!(setup.set_attribute(5, DataObject::Unsigned16(100), None).is_err());
    assert!(setup.set_attribute(3, DataObject::Unsigned8(0), None).is_err());
    assert!(setup.set_attribute(4, DataObject::Unsigned8(7), None).is_ok());
    assert_eq!(setup.window_size_reception(), 7);
    assert_eq!(
        setup.get_attribute(6, None).unwrap(),
        DataObject::Array(
            [300u32, 600, 1200, 2400, 4800, 9600, 19200, 38400, 57600, 115200]
                .iter()
                .map(|s| DataObject::Unsigned32(*s))
                .collect()
        )
    );
}
