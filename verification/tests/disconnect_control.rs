use dlms_interface::disconnect_control::{DisconnectControl, OutputState};
use dlms_interface::{CosemObject, DataObject, DlmsError};

#[test]
fn test_disconnect_control_class_id() {
    let control = DisconnectControl::with_default_obis();
    assert_eq!(control.class_id(), 70);
}

#[test]
fn test_disconnect_control_obis_code() {
    let control = DisconnectControl::with_default_obis();
    assert_eq!(control.obis_code(), DisconnectControl::default_obis());
}

#[test]
fn test_disconnect_control_initial_state() {
    let control = DisconnectControl::with_default_obis();
    assert_eq!(control.output_state(), OutputState::Connected);
    assert!(control.is_connected());
}

#[test]
fn test_disconnect_control_remote_disconnect() {
    let mut control = DisconnectControl::with_default_obis();
    control.remote_disconnect().unwrap();
    assert_eq!(control.output_state(), OutputState::Disconnected);
    assert!(!control.is_connected());
}

#[test]
fn test_disconnect_control_remote_reconnect() {
    let mut control = DisconnectControl::new(
        DisconnectControl::default_obis(),
        OutputState::Disconnected,
    );
    control.remote_reconnect().unwrap();
    assert_eq!(control.output_state(), OutputState::Connected);
    assert!(control.is_connected());
}

#[test]
fn test_disconnect_control_double_disconnect() {
    let mut control = DisconnectControl::with_default_obis();
    control.remote_disconnect().unwrap();
    let result = control.remote_disconnect();
    assert!(result.is_err());
}

#[test]
fn test_disconnect_control_double_reconnect() {
    let mut control = DisconnectControl::with_default_obis();
    let result = control.remote_reconnect();
    assert!(result.is_err());
}

#[test]
fn test_disconnect_control_disconnect_disabled() {
    let mut control = DisconnectControl::with_default_obis();
    control.set_disconnect_enabled(false);
    let result = control.remote_disconnect();
    assert!(result.is_err());
    assert!(matches!(result, Err(DlmsError::AccessDenied(_))));
}

#[test]
fn test_disconnect_control_reconnect_disabled() {
    let mut control = DisconnectControl::new(
        DisconnectControl::default_obis(),
        OutputState::Disconnected,
    );
    control.set_reconnect_enabled(false);
    let result = control.remote_reconnect();
    assert!(result.is_err());
    assert!(matches!(result, Err(DlmsError::AccessDenied(_))));
}

#[test]
fn test_disconnect_control_disconnect_reconnect_cycle() {
    let mut control = DisconnectControl::with_default_obis();

    // Initially connected
    assert!(control.is_connected());

    // Disconnect
    control.remote_disconnect().unwrap();
    assert!(!control.is_connected());

    // Reconnect
    control.remote_reconnect().unwrap();
    assert!(control.is_connected());
}

#[test]
fn test_disconnect_control_get_logical_name() {
    let control = DisconnectControl::with_default_obis();
    let result = control.get_attribute(1, None).unwrap();

    match result {
        DataObject::OctetString(bytes) => {
            assert_eq!(bytes.len(), 6);
        }
        _ => panic!("Expected OctetString"),
    }
}

#[test]
fn test_disconnect_control_get_output_state() {
    let mut control = DisconnectControl::with_default_obis();
    let result = control.get_attribute(2, None).unwrap();
    assert_eq!(result, DataObject::Enumerate(1)); // Connected = 1

    control.set_output_state(OutputState::Disconnected);
    let result = control.get_attribute(2, None).unwrap();
    assert_eq!(result, DataObject::Enumerate(0)); // Disconnected = 0
}

#[test]
fn test_disconnect_control_set_output_state_via_attribute() {
    let mut control = DisconnectControl::with_default_obis();
    control
        .set_attribute(2, DataObject::Enumerate(0), None).unwrap();
    assert_eq!(control.output_state(), OutputState::Disconnected);
}

#[test]
fn test_disconnect_control_set_output_state_boolean() {
    let mut control = DisconnectControl::with_default_obis();
    control
        .set_attribute(2, DataObject::Boolean(false), None).unwrap();
    assert!(!control.is_connected());
}

#[test]
fn test_disconnect_control_read_only_logical_name() {
    let mut control = DisconnectControl::with_default_obis();
    let result = control
        .set_attribute(1, DataObject::OctetString(vec![0, 0, 96, 1, 0, 1]), None);
    assert!(result.is_err());
}

#[test]
fn test_disconnect_control_method_disconnect() {
    let mut control = DisconnectControl::with_default_obis();
    let result = control.invoke_method(1, None, None);
    assert!(result.is_ok());
    assert!(!control.is_connected());
}

#[test]
fn test_disconnect_control_method_reconnect() {
    let mut control = DisconnectControl::new(
        DisconnectControl::default_obis(),
        OutputState::Disconnected,
    );
    let result = control.invoke_method(2, None, None);
    assert!(result.is_ok());
    assert!(control.is_connected());
}

#[test]
fn test_disconnect_control_invalid_method() {
    let mut control = DisconnectControl::with_default_obis();
    let result = control.invoke_method(99, None, None);
    assert!(result.is_err());
}

#[test]
fn test_disconnect_control_invalid_attribute() {
    let control = DisconnectControl::with_default_obis();
    let result = control.get_attribute(99, None);
    assert!(result.is_err());
}

#[test]
fn test_output_state_from_u8() {
    assert_eq!(OutputState::from_u8(0), OutputState::Disconnected);
    assert_eq!(OutputState::from_u8(1), OutputState::Connected);
    assert_eq!(OutputState::from_u8(2), OutputState::ReadyForReconnect);
    assert_eq!(OutputState::from_u8(3), OutputState::DisconnectInProgress);
    assert_eq!(OutputState::from_u8(4), OutputState::ReconnectInProgress);
    assert_eq!(OutputState::from_u8(99), OutputState::Disconnected); // Invalid defaults to Disconnected
}

#[test]
fn test_output_state_is_connected() {
    assert!(OutputState::Connected.is_connected());
    assert!(!OutputState::Disconnected.is_connected());
    assert!(!OutputState::ReadyForReconnect.is_connected());
}

#[test]
fn test_output_state_is_disconnected() {
    assert!(OutputState::Disconnected.is_disconnected());
    assert!(OutputState::ReadyForReconnect.is_disconnected());
    assert!(!OutputState::Connected.is_disconnected());
}

#[test]
fn test_output_state_is_in_transition() {
    assert!(OutputState::DisconnectInProgress.is_in_transition());
    assert!(OutputState::ReconnectInProgress.is_in_transition());
    assert!(!OutputState::Connected.is_in_transition());
}

#[test]
fn test_disconnect_control_enabled_states() {
    let mut control = DisconnectControl::with_default_obis();
    let (disconnect, reconnect) = control.enabled_states();
    assert!(disconnect);
    assert!(reconnect);

    control.set_disconnect_enabled(false);
    let (disconnect, reconnect) = control.enabled_states();
    assert!(!disconnect);
    assert!(reconnect);
}
