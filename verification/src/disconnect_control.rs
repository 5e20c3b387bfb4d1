//! Disconnect Control interface class (class id 70): the supply switch.
use vstd::prelude::*;
use crate::cosem_object::{denied, invalid, yields, CosemObject};
use crate::data_object::{ok_octets, DataObject};
use crate::error::{access_denied, invalid_data, invalid_data_number, DlmsResult};
use crate::obis::ObisCode;
use crate::selective_access::SelectiveAccessDescriptor;

verus! {

/// State of the supply output.
#[derive(Debug, Clone, Copy, PartialEq, Eq, Structural)]
pub enum OutputState {
    Disconnected,
    Connected,
    ReadyForReconnect,
    DisconnectInProgress,
    ReconnectInProgress,
}

impl OutputState {
    pub open spec fn spec_to_u8(self) -> u8 {
        match self {
            OutputState::Disconnected => 0,
            OutputState::Connected => 1,
            OutputState::ReadyForReconnect => 2,
            OutputState::DisconnectInProgress => 3,
            OutputState::ReconnectInProgress => 4,
        }
    }

    /// The state of a wire code; unknown codes read as `Disconnected`.
    pub open spec fn spec_from_u8(value: u8) -> OutputState {
        match value {
            1 => OutputState::Connected,
            2 => OutputState::ReadyForReconnect,
            3 => OutputState::DisconnectInProgress,
            4 => OutputState::ReconnectInProgress,
            _ => OutputState::Disconnected,
        }
    }

    pub fn from_u8(value: u8) -> (r: OutputState)
        ensures
            r == OutputState::spec_from_u8(value),
    {
        match value {
            0 => OutputState::Disconnected,
            1 => OutputState::Connected,
            2 => OutputState::ReadyForReconnect,
            3 => OutputState::DisconnectInProgress,
            4 => OutputState::ReconnectInProgress,
            _ => OutputState::Disconnected,
        }
    }

    pub fn to_u8(self) -> (r: u8)
        ensures
            r == self.spec_to_u8(),
    {
        match self {
            OutputState::Disconnected => 0,
            OutputState::Connected => 1,
            OutputState::ReadyForReconnect => 2,
            OutputState::DisconnectInProgress => 3,
            OutputState::ReconnectInProgress => 4,
        }
    }

    pub fn is_connected(self) -> (r: bool)
        ensures
            r == (self == OutputState::Connected),
    {
        matches!(self, OutputState::Connected)
    }

    /// The output is off when disconnected or ready for reconnection.
    pub open spec fn spec_is_disconnected(self) -> bool {
        self == OutputState::Disconnected || self == OutputState::ReadyForReconnect
    }

    pub fn is_disconnected(self) -> (r: bool)
        ensures
            r == self.spec_is_disconnected(),
    {
        matches!(self, OutputState::Disconnected | OutputState::ReadyForReconnect)
    }

    pub fn is_in_transition(self) -> (r: bool)
        ensures
            r == (self == OutputState::DisconnectInProgress || self == OutputState::ReconnectInProgress),
    {
        matches!(self, OutputState::DisconnectInProgress | OutputState::ReconnectInProgress)
    }
}

/// Every output state survives the trip through its wire code.
pub proof fn lemma_output_state_code_roundtrip(s: OutputState)
    ensures
        OutputState::spec_from_u8(s.spec_to_u8()) == s,
{
}

/// The state of a [`DisconnectControl`].
pub struct DisconnectControlView {
    pub logical_name: ObisCode,
    pub output_state: OutputState,
    pub disconnect_enabled: bool,
    pub reconnect_enabled: bool,
}

/// Disconnect Control interface class (class id 70).
pub struct DisconnectControl {
    logical_name: ObisCode,
    output_state: OutputState,
    disconnect_enabled: bool,
    reconnect_enabled: bool,
}

impl View for DisconnectControl {
    type V = DisconnectControlView;

    closed spec fn view(&self) -> DisconnectControlView {
        DisconnectControlView {
            logical_name: self.logical_name,
            output_state: self.output_state,
            disconnect_enabled: self.disconnect_enabled,
            reconnect_enabled: self.reconnect_enabled,
        }
    }
}

impl DisconnectControl {
    pub const CLASS_ID: u16 = 70;
    pub const ATTR_LOGICAL_NAME: u8 = 1;
    pub const ATTR_OUTPUT_STATE: u8 = 2;
    pub const METHOD_REMOTE_DISCONNECT: u8 = 1;
    pub const METHOD_REMOTE_RECONNECT: u8 = 2;

    /// Default OBIS code 0-0:96.1.0.255.
    pub fn default_obis() -> (r: ObisCode)
        ensures
            r == (ObisCode { a: 0, b: 0, c: 96, d: 1, e: 0, f: 255 }),
    {
        ObisCode::new(0, 0, 96, 1, 0, 255)
    }

    /// A switch in the given state with remote disconnect and reconnect enabled.
    pub fn new(logical_name: ObisCode, output_state: OutputState) -> (r: DisconnectControl)
        ensures
            r@ == (DisconnectControlView { logical_name, output_state, disconnect_enabled: true, reconnect_enabled: true }),
    {
        DisconnectControl { logical_name, output_state, disconnect_enabled: true, reconnect_enabled: true }
    }

    /// A connected switch under the default OBIS code.
    pub fn with_default_obis() -> (r: DisconnectControl)
        ensures
            r@ == (DisconnectControlView {
                logical_name: ObisCode { a: 0, b: 0, c: 96, d: 1, e: 0, f: 255 },
                output_state: OutputState::Connected,
                disconnect_enabled: true,
                reconnect_enabled: true,
            }),
    {
        Self::new(Self::default_obis(), OutputState::Connected)
    }

    pub fn output_state(&self) -> (r: OutputState)
        ensures
            r == self@.output_state,
    {
        self.output_state
    }

    pub fn set_output_state(&mut self, state: OutputState)
        ensures
            final(self)@ == (DisconnectControlView { output_state: state, ..old(self)@ }),
    {
        self.output_state = state;
    }

    pub fn is_disconnect_enabled(&self) -> (r: bool)
        ensures
            r == self@.disconnect_enabled,
    {
        self.disconnect_enabled
    }

    pub fn set_disconnect_enabled(&mut self, enabled: bool)
        ensures
            final(self)@ == (DisconnectControlView { disconnect_enabled: enabled, ..old(self)@ }),
    {
        self.disconnect_enabled = enabled;
    }

    pub fn is_reconnect_enabled(&self) -> (r: bool)
        ensures
            r == self@.reconnect_enabled,
    {
        self.reconnect_enabled
    }

    pub fn set_reconnect_enabled(&mut self, enabled: bool)
        ensures
            final(self)@ == (DisconnectControlView { reconnect_enabled: enabled, ..old(self)@ }),
    {
        self.reconnect_enabled = enabled;
    }

    pub fn is_connected(&self) -> (r: bool)
        ensures
            r == (self@.output_state == OutputState::Connected),
    {
        self.output_state.is_connected()
    }

    /// Opens the switch: refused (access denied) when remote disconnect is
    /// disabled, refused (invalid) when the output is already off; otherwise
    /// the output ends `Disconnected`.
    pub fn remote_disconnect(&mut self) -> (r: DlmsResult<()>)
        ensures
            !old(self)@.disconnect_enabled ==> denied(r),
            old(self)@.disconnect_enabled && old(self)@.output_state.spec_is_disconnected() ==> invalid(r),
            r is Ok <==> old(self)@.disconnect_enabled && !old(self)@.output_state.spec_is_disconnected(),
            r is Ok ==> final(self)@ == (DisconnectControlView { output_state: OutputState::Disconnected, ..old(self)@ }),
            r is Err ==> final(self)@ == old(self)@,
    {
        if !self.disconnect_enabled {
            return Err(access_denied("Remote disconnect is disabled"));
        }
        if self.output_state.is_disconnected() {
            return Err(invalid_data("Already disconnected"));
        }
        self.output_state = OutputState::DisconnectInProgress;
        self.output_state = OutputState::Disconnected;
        Ok(())
    }

    /// Closes the switch: refused (access denied) when remote reconnect is
    /// disabled, refused (invalid) when the output is already connected;
    /// otherwise the output ends `Connected`.
    pub fn remote_reconnect(&mut self) -> (r: DlmsResult<()>)
        ensures
            !old(self)@.reconnect_enabled ==> denied(r),
            old(self)@.reconnect_enabled && old(self)@.output_state == OutputState::Connected ==> invalid(r),
            r is Ok <==> old(self)@.reconnect_enabled && old(self)@.output_state != OutputState::Connected,
            r is Ok ==> final(self)@ == (DisconnectControlView { output_state: OutputState::Connected, ..old(self)@ }),
            r is Err ==> final(self)@ == old(self)@,
    {
        if !self.reconnect_enabled {
            return Err(access_denied("Remote reconnect is disabled"));
        }
        if self.output_state.is_connected() {
            return Err(invalid_data("Already connected"));
        }
        self.output_state = OutputState::ReconnectInProgress;
        self.output_state = OutputState::Connected;
        Ok(())
    }

    /// Whether remote disconnect and remote reconnect are enabled.
    pub fn enabled_states(&self) -> (r: (bool, bool))
        ensures
            r == (self@.disconnect_enabled, self@.reconnect_enabled),
    {
        (self.disconnect_enabled, self.reconnect_enabled)
    }
}

impl CosemObject for DisconnectControl {
    fn class_id(&self) -> (r: u16)
        ensures
            r == 70,
    {
        Self::CLASS_ID
    }

    fn obis_code(&self) -> (r: ObisCode)
        ensures
            r == self@.logical_name,
    {
        self.logical_name
    }

    fn get_attribute(
        &self,
        attribute_id: u8,
        selective_access: Option<&SelectiveAccessDescriptor>,
    ) -> (r: DlmsResult<DataObject>)
        ensures
            match attribute_id {
                1 => ok_octets(r, self@.logical_name.spec_bytes()),
                2 => yields(r, DataObject::Enumerate(self@.output_state.spec_to_u8())),
                _ => invalid(r),
            },
    {
        match attribute_id {
            1 => Ok(DataObject::OctetString(self.logical_name.to_bytes())),
            2 => Ok(DataObject::Enumerate(self.output_state.to_u8())),
            _ => Err(invalid_data_number("Disconnect Control has no attribute ", attribute_id as u64)),
        }
    }

    fn set_attribute(
        &mut self,
        attribute_id: u8,
        value: DataObject,
        selective_access: Option<&SelectiveAccessDescriptor>,
    ) -> (r: DlmsResult<()>)
        ensures
            r is Err ==> final(self)@ == old(self)@,
            match attribute_id {
                1 => denied(r),
                2 => match value {
                    DataObject::Enumerate(v) => r is Ok && final(self)@ == (DisconnectControlView {
                        output_state: OutputState::spec_from_u8(v),
                        ..old(self)@
                    }),
                    DataObject::Unsigned8(v) => r is Ok && final(self)@ == (DisconnectControlView {
                        output_state: OutputState::spec_from_u8(v),
                        ..old(self)@
                    }),
                    DataObject::Boolean(b) => r is Ok && final(self)@ == (DisconnectControlView {
                        output_state: if b { OutputState::Connected } else { OutputState::Disconnected },
                        ..old(self)@
                    }),
                    _ => invalid(r),
                },
                _ => invalid(r),
            },
    {
        match attribute_id {
            1 => Err(access_denied("Attribute 1 (logical_name) is read-only")),
            2 => {
                let state = match value {
                    DataObject::Enumerate(s) => OutputState::from_u8(s),
                    DataObject::Unsigned8(s) => OutputState::from_u8(s),
                    DataObject::Boolean(b) => if b {
                        OutputState::Connected
                    } else {
                        OutputState::Disconnected
                    },
                    _ => {
                        return Err(invalid_data("Expected Enumerate, Unsigned8, or Boolean for output_state"));
                    },
                };
                self.output_state = state;
                Ok(())
            },
            _ => Err(invalid_data_number("Disconnect Control has no attribute ", attribute_id as u64)),
        }
    }

    fn invoke_method(
        &mut self,
        method_id: u8,
        parameters: Option<DataObject>,
        selective_access: Option<&SelectiveAccessDescriptor>,
    ) -> (r: DlmsResult<Option<DataObject>>)
        ensures
            r is Err ==> final(self)@ == old(self)@,
            r matches Ok(o) ==> o is None,
            match method_id {
                1 => (r is Ok <==> old(self)@.disconnect_enabled && !old(self)@.output_state.spec_is_disconnected())
                    && (!old(self)@.disconnect_enabled ==> denied(r))
                    && (old(self)@.disconnect_enabled && old(self)@.output_state.spec_is_disconnected() ==> invalid(r))
                    && (r is Ok ==> final(self)@ == (DisconnectControlView { output_state: OutputState::Disconnected, ..old(self)@ })),
                2 => (r is Ok <==> old(self)@.reconnect_enabled && old(self)@.output_state != OutputState::Connected)
                    && (!old(self)@.reconnect_enabled ==> denied(r))
                    && (old(self)@.reconnect_enabled && old(self)@.output_state == OutputState::Connected ==> invalid(r))
                    && (r is Ok ==> final(self)@ == (DisconnectControlView { output_state: OutputState::Connected, ..old(self)@ })),
                _ => invalid(r),
            },
    {
        match method_id {
            1 => match self.remote_disconnect() {
                Ok(()) => Ok(None),
                Err(e) => Err(e),
            },
            2 => match self.remote_reconnect() {
                Ok(()) => Ok(None),
                Err(e) => Err(e),
            },
            _ => Err(invalid_data_number("Disconnect Control has no method ", method_id as u64)),
        }
    }
}

/// A successful remote disconnect followed by a remote reconnect brings the
/// output back to `Connected`, and changes nothing else.
pub proof fn lemma_disconnect_then_reconnect(s: DisconnectControlView)
    requires
        s.disconnect_enabled,
        s.reconnect_enabled,
        !s.output_state.spec_is_disconnected(),
    ensures
        ({
            let after_disconnect = DisconnectControlView { output_state: OutputState::Disconnected, ..s };
            &&& after_disconnect.output_state != OutputState::Connected
            &&& (DisconnectControlView { output_state: OutputState::Connected, ..after_disconnect })
                == (DisconnectControlView { output_state: OutputState::Connected, ..s })
        }),
{
}

} // verus!
