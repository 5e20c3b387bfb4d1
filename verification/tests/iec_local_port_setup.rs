use dlms_interface::iec_local_port_setup::{BaudRate, IecLocalPortSetup, Parity, PortMode};
use dlms_interface::{CosemObject, DataObject};

#[test]
fn test_iec_local_port_setup_class_id() {
    let setup = IecLocalPortSetup::with_default_obis();
    assert_eq!(setup.class_id(), 19);
}

#[test]
fn test_iec_local_port_setup_obis_code() {
    let setup = IecLocalPortSetup::with_default_obis();
    assert_eq!(setup.obis_code(), IecLocalPortSetup::default_obis());
}

#[test]
fn test_iec_local_port_setup_defaults() {
    let setup = IecLocalPortSetup::with_default_obis();
    assert_eq!(setup.default_baud(), BaudRate::B9600);
    assert_eq!(setup.default_parity(), Parity::Even);
    assert_eq!(setup.default_stop_bits(), 1);
    assert_eq!(setup.data_bits(), 8);
    assert_eq!(setup.mode(), PortMode::ModeE);
}

#[test]
fn test_iec_local_port_setup_set_baud() {
    let mut setup = IecLocalPortSetup::with_default_obis();
    setup.set_default_baud(BaudRate::B115200);
    assert_eq!(setup.default_baud(), BaudRate::B115200);
}

#[test]
fn test_iec_local_port_setup_set_parity() {
    let mut setup = IecLocalPortSetup::with_default_obis();
    setup.set_default_parity(Parity::Odd);
    assert_eq!(setup.default_parity(), Parity::Odd);
}

#[test]
fn test_iec_local_port_setup_set_stop_bits() {
    let mut setup = IecLocalPortSetup::with_default_obis();
    setup.set_default_stop_bits(2).unwrap();
    assert_eq!(setup.default_stop_bits(), 2);
}

#[test]
fn test_iec_local_port_setup_invalid_stop_bits() {
    let mut setup = IecLocalPortSetup::with_default_obis();
    let result = setup.set_default_stop_bits(3);
    assert!(result.is_err());
}

#[test]
fn test_iec_local_port_setup_set_data_bits() {
    let mut setup = IecLocalPortSetup::with_default_obis();
    setup.set_data_bits(7).unwrap();
    assert_eq!(setup.data_bits(), 7);
}

#[test]
fn test_iec_local_port_setup_invalid_data_bits() {
    let mut setup = IecLocalPortSetup::with_default_obis();
    let result = setup.set_data_bits(9);
    assert!(result.is_err());
}

#[test]
fn test_iec_local_port_setup_set_mode() {
    let mut setup = IecLocalPortSetup::with_default_obis();
    setup.set_mode(PortMode::ModeB);
    assert_eq!(setup.mode(), PortMode::ModeB);
}

#[test]
fn test_iec_local_port_setup_config() {
    let setup = IecLocalPortSetup::with_default_obis();
    let (baud, parity, stop, data, mode) = setup.config();
    assert_eq!(baud, BaudRate::B9600);
    assert_eq!(parity, Parity::Even);
    assert_eq!(stop, 1);
    assert_eq!(data, 8);
    assert_eq!(mode, PortMode::ModeE);
}

#[test]
fn test_iec_local_port_setup_set_8n1() {
    let mut setup = IecLocalPortSetup::with_default_obis();
    setup.set_8n1(BaudRate::B115200);
    assert_eq!(setup.default_baud(), BaudRate::B115200);
    assert_eq!(setup.default_parity(), Parity::NoParity);
    assert_eq!(setup.default_stop_bits(), 1);
    assert_eq!(setup.data_bits(), 8);
}

#[test]
fn test_iec_local_port_setup_set_8e1() {
    let mut setup = IecLocalPortSetup::with_default_obis();
    setup.set_8e1(BaudRate::B19200);
    assert_eq!(setup.default_baud(), BaudRate::B19200);
    assert_eq!(setup.default_parity(), Parity::Even);
}

#[test]
fn test_iec_local_port_setup_set_8o1() {
    let mut setup = IecLocalPortSetup::with_default_obis();
    setup.set_8o1(BaudRate::B4800);
    assert_eq!(setup.default_baud(), BaudRate::B4800);
    assert_eq!(setup.default_parity(), Parity::Odd);
}

#[test]
fn test_iec_local_port_setup_get_logical_name() {
    let setup = IecLocalPortSetup::with_default_obis();
    let result = setup.get_attribute(1, None).unwrap();

    match result {
        DataObject::OctetString(bytes) => {
            assert_eq!(bytes.len(), 6);
        }
        _ => panic!("Expected OctetString"),
    }
}

#[test]
fn test_iec_local_port_setup_get_baud() {
    let setup = IecLocalPortSetup::with_default_obis();
    let result = setup.get_attribute(2, None).unwrap();
    assert_eq!(result, DataObject::Unsigned32(9600));
}

#[test]
fn test_iec_local_port_setup_set_baud_via_attribute() {
    let mut setup = IecLocalPortSetup::with_default_obis();
    setup
        .set_attribute(2, DataObject::Unsigned32(115200), None).unwrap();
    assert_eq!(setup.default_baud(), BaudRate::B115200);
}

#[test]
fn test_iec_local_port_setup_set_invalid_baud() {
    let mut setup = IecLocalPortSetup::with_default_obis();
    let result = setup
        .set_attribute(2, DataObject::Unsigned16(12345), None);
    assert!(result.is_err());
}

#[test]
fn test_iec_local_port_setup_read_only_logical_name() {
    let mut setup = IecLocalPortSetup::with_default_obis();
    let result = setup
        .set_attribute(1, DataObject::OctetString(vec![0, 0, 20, 0, 0, 1]), None);
    assert!(result.is_err());
}

#[test]
fn test_iec_local_port_setup_invalid_attribute() {
    let setup = IecLocalPortSetup::with_default_obis();
    let result = setup.get_attribute(99, None);
    assert!(result.is_err());
}

#[test]
fn test_iec_local_port_setup_invalid_method() {
    let mut setup = IecLocalPortSetup::with_default_obis();
    let result = setup.invoke_method(1, None, None);
    assert!(result.is_err());
}

#[test]
fn test_parity_from_u8() {
    assert_eq!(Parity::from_u8(0), Parity::NoParity);
    assert_eq!(Parity::from_u8(1), Parity::Odd);
    assert_eq!(Parity::from_u8(2), Parity::Even);
    assert_eq!(Parity::from_u8(3), Parity::Mark);
    assert_eq!(Parity::from_u8(4), Parity::Space);
    assert_eq!(Parity::from_u8(255), Parity::NoParity); // Invalid defaults to None
}

#[test]
fn test_baud_rate_from_u32() {
    assert_eq!(BaudRate::from_u32(9600), Some(BaudRate::B9600));
    assert_eq!(BaudRate::from_u32(115200), Some(BaudRate::B115200));
    assert_eq!(BaudRate::from_u32(12345), None);
}

#[test]
fn test_port_mode_from_u8() {
    assert_eq!(PortMode::from_u8(0), PortMode::ModeE);
    assert_eq!(PortMode::from_u8(1), PortMode::ModeB);
    assert_eq!(PortMode::from_u8(2), PortMode::ModeC);
    assert_eq!(PortMode::from_u8(3), PortMode::ModeE); // Invalid defaults to ModeE
}

#[test]
fn test_port_codes_round_trip() {
    for p in [Parity::NoParity, Parity::Odd, Parity::Even, Parity::Mark, Parity::Space] {
        assert_eq!(Parity::from_u8(p.to_u8()), p);
    }
    for m in [PortMode::ModeE, PortMode::ModeB, PortMode::ModeC] {
        assert_eq!(PortMode::from_u8(m.to_u8()), m);
    }
    assert_eq!(PortMode::from_u8(PortMode::Reserved.to_u8()), PortMode::ModeE);
    assert_eq!(BaudRate::from_u32(BaudRate::B57600.to_u32()), Some(BaudRate::B57600));
}

#[test]
fn test_iec_local_port_setup_attributes_by_code() {
    let mut setup = IecLocalPortSetup::with_default_obis();
    setup.set_attribute(3, DataObject::Unsigned8(3), None).unwrap();
    assert_eq!(setup.default_parity(), Parity::Mark);
    setup.set_attribute(3, DataObject::Enumerate(9), None).unwrap();
    assert_eq!(setup.default_parity(), Parity::NoParity);
    setup.set_attribute(6, DataObject::Enumerate(2), None).unwrap();
    assert_eq!(setup.get_attribute(6, None), Ok(DataObject::Enumerate(2)));
    assert!(setup.set_attribute(6, DataObject::Integer8(1), None).is_err());
    assert!(setup.set_attribute(2, DataObject::Unsigned32(1000), None).is_err());
    assert!(setup.set_attribute(5, DataObject::Unsigned8(4), None).is_err());
    setup.set_attribute(5, DataObject::Unsigned8(5), None).unwrap();
    assert_eq!(setup.config(), (BaudRate::B9600, Parity::NoParity, 1, 5, PortMode::ModeC));
}
