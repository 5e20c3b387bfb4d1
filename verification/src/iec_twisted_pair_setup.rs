//! IEC Twisted Pair Setup interface class (class id 24): speed, mode and
//! protocol of a twisted-pair (M-Bus style) local connection.
use vstd::prelude::*;
use crate::cosem_object::{denied, invalid, yields, CosemObject};
use crate::data_object::{contains_u32, copy_vec, is_u32_array, ok_octets, u32_array, DataObject};
use crate::error::{access_denied, invalid_data, invalid_data_number, invalid_data_text, text_around, DlmsResult};
use crate::obis::ObisCode;
use crate::selective_access::SelectiveAccessDescriptor;

verus! {

/// Communication mode, codes 1 to 4.
#[derive(Debug, Clone, Copy, PartialEq, Eq, Structural)]
pub enum CommunicationMode {
    Mode1,
    Mode2,
    Mode3,
    Mode4,
}

impl CommunicationMode {
    /// The wire code.
    pub open spec fn spec_to_u8(self) -> u8 {
        match self {
            CommunicationMode::Mode1 => 1,
            CommunicationMode::Mode2 => 2,
            CommunicationMode::Mode3 => 3,
            CommunicationMode::Mode4 => 4,
        }
    }

    /// The mode of a wire code 1 to 4.
    pub open spec fn spec_from_u8(value: u8) -> Option<CommunicationMode> {
        match value {
            1 => Some(CommunicationMode::Mode1),
            2 => Some(CommunicationMode::Mode2),
            3 => Some(CommunicationMode::Mode3),
            4 => Some(CommunicationMode::Mode4),
            _ => None,
        }
    }

    pub fn from_u8(value: u8) -> (r: Option<CommunicationMode>)
        ensures
            r == CommunicationMode::spec_from_u8(value),
    {
        match value {
            1 => Some(CommunicationMode::Mode1),
            2 => Some(CommunicationMode::Mode2),
            3 => Some(CommunicationMode::Mode3),
            4 => Some(CommunicationMode::Mode4),
            _ => None,
        }
    }

    pub fn to_u8(self) -> (r: u8)
        ensures
            r == self.spec_to_u8(),
    {
        match self {
            CommunicationMode::Mode1 => 1,
            CommunicationMode::Mode2 => 2,
            CommunicationMode::Mode3 => 3,
            CommunicationMode::Mode4 => 4,
        }
    }
}

/// Protocol on the pair: HDLC (0), M-Bus (1) or reserved (2).
#[derive(Debug, Clone, Copy, PartialEq, Eq, Structural)]
pub enum ProtocolSelect {
    Hdlc,
    MBus,
    Reserved,
}

impl ProtocolSelect {
    /// The wire code.
    pub open spec fn spec_to_u8(self) -> u8 {
        match self {
            ProtocolSelect::Hdlc => 0,
            ProtocolSelect::MBus => 1,
            ProtocolSelect::Reserved => 2,
        }
    }

    /// The protocol of a wire code; every code above 1 reads as reserved.
    pub open spec fn spec_from_u8(value: u8) -> ProtocolSelect {
        match value {
            0 => ProtocolSelect::Hdlc,
            1 => ProtocolSelect::MBus,
            _ => ProtocolSelect::Reserved,
        }
    }

    /// Always a protocol: unknown codes read as reserved.
    pub fn from_u8(value: u8) -> (r: Option<ProtocolSelect>)
        ensures
            r == Some(ProtocolSelect::spec_from_u8(value)),
    {
        match value {
            0 => Some(ProtocolSelect::Hdlc),
            1 => Some(ProtocolSelect::MBus),
            _ => Some(ProtocolSelect::Reserved),
        }
    }

    pub fn to_u8(self) -> (r: u8)
        ensures
            r == self.spec_to_u8(),
    {
        match self {
            ProtocolSelect::Hdlc => 0,
            ProtocolSelect::MBus => 1,
            ProtocolSelect::Reserved => 2,
        }
    }
}

/// Every mode and every protocol reads back from its code, and a code that
/// reads as a mode is that mode's code.
pub proof fn lemma_twisted_pair_codes_roundtrip(m: CommunicationMode, p: ProtocolSelect, value: u8)
    ensures
        CommunicationMode::spec_from_u8(m.spec_to_u8()) == Some(m),
        CommunicationMode::spec_from_u8(value) == Some(m) ==> m.spec_to_u8() == value,
        ProtocolSelect::spec_from_u8(p.spec_to_u8()) == p,
{
}

/// The state of an [`IecTwistedPairSetup`].
pub struct IecTwistedPairSetupView {
    pub logical_name: ObisCode,
    pub communication_speed: u32,
    pub mode: CommunicationMode,
    pub protocol_select: ProtocolSelect,
    pub supported_communication_speeds: Seq<u32>,
}

/// The speeds offered by default: 300 to 38400 baud.
pub open spec fn standard_twisted_pair_speeds() -> Seq<u32> {
    seq![300u32, 600, 1200, 2400, 4800, 9600, 19200, 38400]
}

/// The code carried by an `Enumerate` or `Unsigned8` value.
pub open spec fn enum_code_of(d: DataObject) -> Option<u8> {
    match d {
        DataObject::Enumerate(c) => Some(c),
        DataObject::Unsigned8(c) => Some(c),
        _ => None,
    }
}

/// IEC Twisted Pair Setup interface class (class id 24).
pub struct IecTwistedPairSetup {
    logical_name: ObisCode,
    communication_speed: u32,
    mode: CommunicationMode,
    protocol_select: ProtocolSelect,
    supported_communication_speeds: Vec<u32>,
}

impl View for IecTwistedPairSetup {
    type V = IecTwistedPairSetupView;

    closed spec fn view(&self) -> IecTwistedPairSetupView {
        IecTwistedPairSetupView {
            logical_name: self.logical_name,
            communication_speed: self.communication_speed,
            mode: self.mode,
            protocol_select: self.protocol_select,
            supported_communication_speeds: self.supported_communication_speeds@,
        }
    }
}

impl IecTwistedPairSetup {
    pub const CLASS_ID: u16 = 24;
    pub const ATTR_LOGICAL_NAME: u8 = 1;
    pub const ATTR_COMMUNICATION_SPEED: u8 = 2;
    pub const ATTR_MODE: u8 = 3;
    pub const ATTR_PROTOCOL_SELECT: u8 = 4;
    pub const ATTR_SUPPORTED_COMMUNICATION_SPEEDS: u8 = 5;

    /// Default OBIS code 0-0:25.0.0.255.
    pub fn default_obis() -> (r: ObisCode)
        ensures
            r == (ObisCode { a: 0, b: 0, c: 25, d: 0, e: 0, f: 255 }),
    {
        ObisCode::new(0, 0, 25, 0, 0, 255)
    }

    /// A setup holding exactly the given values; nothing is checked.
    pub fn new(
        logical_name: ObisCode,
        communication_speed: u32,
        mode: CommunicationMode,
        protocol_select: ProtocolSelect,
        supported_communication_speeds: Vec<u32>,
    ) -> (r: IecTwistedPairSetup)
        ensures
            r@ == (IecTwistedPairSetupView {
                logical_name,
                communication_speed,
                mode,
                protocol_select,
                supported_communication_speeds: supported_communication_speeds@,
            }),
    {
        IecTwistedPairSetup { logical_name, communication_speed, mode, protocol_select, supported_communication_speeds }
    }

    /// The default OBIS code at 2400 baud, mode 1, M-Bus, offering 300 to
    /// 38400 baud.
    pub fn with_default_obis() -> (r: IecTwistedPairSetup)
        ensures
            r@ == (IecTwistedPairSetupView {
                logical_name: ObisCode { a: 0, b: 0, c: 25, d: 0, e: 0, f: 255 },
                communication_speed: 2400,
                mode: CommunicationMode::Mode1,
                protocol_select: ProtocolSelect::MBus,
                supported_communication_speeds: standard_twisted_pair_speeds(),
            }),
    {
        let speeds: Vec<u32> = vec![300, 600, 1200, 2400, 4800, 9600, 19200, 38400];
        assert(speeds@ =~= standard_twisted_pair_speeds());
        Self::new(Self::default_obis(), 2400, CommunicationMode::Mode1, ProtocolSelect::MBus, speeds)
    }

    pub fn communication_speed(&self) -> (r: u32)
        ensures
            r == self@.communication_speed,
    {
        self.communication_speed
    }

    /// Sets the speed if it is one of the supported speeds.
    pub fn set_communication_speed(&mut self, speed: u32) -> (r: DlmsResult<()>)
        ensures
            r is Ok <==> old(self)@.supported_communication_speeds.contains(speed),
            r is Ok ==> final(self)@ == (IecTwistedPairSetupView { communication_speed: speed, ..old(self)@ }),
            r is Err ==> invalid(r) && final(self)@ == old(self)@,
    {
        if !contains_u32(&self.supported_communication_speeds, speed) {
            return Err(invalid_data_text(text_around("Speed ", speed as u64, " not in supported list")));
        }
        self.communication_speed = speed;
        Ok(())
    }

    pub fn mode(&self) -> (r: CommunicationMode)
        ensures
            r == self@.mode,
    {
        self.mode
    }

    pub fn set_mode(&mut self, mode: CommunicationMode)
        ensures
            final(self)@ == (IecTwistedPairSetupView { mode, ..old(self)@ }),
    {
        self.mode = mode;
    }

    pub fn protocol_select(&self) -> (r: ProtocolSelect)
        ensures
            r == self@.protocol_select,
    {
        self.protocol_select
    }

    pub fn set_protocol_select(&mut self, protocol: ProtocolSelect)
        ensures
            final(self)@ == (IecTwistedPairSetupView { protocol_select: protocol, ..old(self)@ }),
    {
        self.protocol_select = protocol;
    }

    pub fn supported_communication_speeds(&self) -> (r: Vec<u32>)
        ensures
            r@ == self@.supported_communication_speeds,
    {
        copy_vec(&self.supported_communication_speeds)
    }

    pub fn is_speed_supported(&self, speed: u32) -> (r: bool)
        ensures
            r == self@.supported_communication_speeds.contains(speed),
    {
        contains_u32(&self.supported_communication_speeds, speed)
    }

    /// Speed, mode and protocol.
    pub fn config(&self) -> (r: (u32, CommunicationMode, ProtocolSelect))
        ensures
            r == (self@.communication_speed, self@.mode, self@.protocol_select),
    {
        (self.communication_speed, self.mode, self.protocol_select)
    }

    /// Returns to 2400 baud, mode 1 and M-Bus; fails, changing nothing,
    /// when 2400 baud is not supported.
    pub fn set_defaults(&mut self) -> (r: DlmsResult<()>)
        ensures
            r is Ok <==> old(self)@.supported_communication_speeds.contains(2400),
            r is Ok ==> final(self)@ == (IecTwistedPairSetupView {
                communication_speed: 2400,
                mode: CommunicationMode::Mode1,
                protocol_select: ProtocolSelect::MBus,
                ..old(self)@
            }),
            r is Err ==> invalid(r) && final(self)@ == old(self)@,
    {
        match self.set_communication_speed(2400) {
            Ok(()) => {},
            Err(e) => return Err(e),
        }
        self.set_mode(CommunicationMode::Mode1);
        self.set_protocol_select(ProtocolSelect::MBus);
        Ok(())
    }
}

impl CosemObject for IecTwistedPairSetup {
    fn class_id(&self) -> (r: u16)
        ensures
            r == 24,
    {
        Self::CLASS_ID
    }

    fn obis_code(&self) -> (r: ObisCode)
        ensures
            r == self@.logical_name,
    {
        self.logical_name
    }

    fn get_attribute(
        &self,
        attribute_id: u8,
        selective_access: Option<&SelectiveAccessDescriptor>,
    ) -> (r: DlmsResult<DataObject>)
        ensures
            match attribute_id {
                1 => ok_octets(r, self@.logical_name.spec_bytes()),
                2 => yields(r, DataObject::Unsigned32(self@.communication_speed)),
                3 => yields(r, DataObject::Enumerate(self@.mode.spec_to_u8())),
                4 => yields(r, DataObject::Enumerate(self@.protocol_select.spec_to_u8())),
                5 => r matches Ok(d) && is_u32_array(d, self@.supported_communication_speeds),
                _ => invalid(r),
            },
    {
        match attribute_id {
            1 => Ok(DataObject::OctetString(self.logical_name.to_bytes())),
            2 => Ok(DataObject::Unsigned32(self.communication_speed)),
            3 => Ok(DataObject::Enumerate(self.mode.to_u8())),
            4 => Ok(DataObject::Enumerate(self.protocol_select.to_u8())),
            5 => Ok(u32_array(&self.supported_communication_speeds)),
            _ => Err(invalid_data_number("IEC Twisted Pair Setup has no attribute ", attribute_id as u64)),
        }
    }

    /// The speed must be a supported one and the mode code 1 to 4; the
    /// protocol takes any code, codes above 1 reading as reserved; the
    /// logical name and the list of speeds are read-only.
    fn set_attribute(
        &mut self,
        attribute_id: u8,
        value: DataObject,
        selective_access: Option<&SelectiveAccessDescriptor>,
    ) -> (r: DlmsResult<()>)
        ensures
            r is Err ==> final(self)@ == old(self)@,
            match attribute_id {
                1 => denied(r),
                2 => match value {
                    DataObject::Unsigned32(s) if old(self)@.supported_communication_speeds.contains(s) => r is Ok
                        && final(self)@ == (IecTwistedPairSetupView { communication_speed: s, ..old(self)@ }),
                    _ => invalid(r),
                },
                3 => match enum_code_of(value) {
                    Some(c) => match CommunicationMode::spec_from_u8(c) {
                        Some(m) => r is Ok && final(self)@ == (IecTwistedPairSetupView { mode: m, ..old(self)@ }),
                        None => invalid(r),
                    },
                    None => invalid(r),
                },
                4 => match enum_code_of(value) {
                    Some(c) => r is Ok && final(self)@ == (IecTwistedPairSetupView {
                        protocol_select: ProtocolSelect::spec_from_u8(c),
                        ..old(self)@
                    }),
                    None => invalid(r),
                },
                5 => denied(r),
                _ => invalid(r),
            },
    {
        match attribute_id {
            1 => Err(access_denied("Attribute 1 (logical_name) is read-only")),
            2 => match value {
                DataObject::Unsigned32(speed) => self.set_communication_speed(speed),
                _ => Err(invalid_data("Expected Unsigned32 for communication_speed")),
            },
            3 => {
                let mode = match value {
                    DataObject::Enumerate(m) => CommunicationMode::from_u8(m),
                    DataObject::Unsigned8(m) => CommunicationMode::from_u8(m),
                    _ => return Err(invalid_data("Expected Enumerate for mode")),
                };
                match mode {
                    Some(m) => {
                        self.mode = m;
                        Ok(())
                    },
                    None => Err(invalid_data("Invalid mode value")),
                }
            },
            4 => {
                let protocol = match value {
                    DataObject::Enumerate(p) => ProtocolSelect::from_u8(p),
                    DataObject::Unsigned8(p) => ProtocolSelect::from_u8(p),
                    _ => return Err(invalid_data("Expected Enumerate for protocol_select")),
                };
                self.protocol_select = match protocol {
                    Some(p) => p,
                    None => ProtocolSelect::Reserved,
                };
                Ok(())
            },
            5 => Err(access_denied("Attribute 5 (supported_communication_speeds) is read-only")),
            _ => Err(invalid_data_number("IEC Twisted Pair Setup has no attribute ", attribute_id as u64)),
        }
    }

    /// The class has no methods.
    fn invoke_method(
        &mut self,
        method_id: u8,
        parameters: Option<DataObject>,
        selective_access: Option<&SelectiveAccessDescriptor>,
    ) -> (r: DlmsResult<Option<DataObject>>)
        ensures
            invalid(r),
            final(self)@ == old(self)@,
    {
        Err(invalid_data_number("IEC Twisted Pair Setup has no method ", method_id as u64))
    }
}

} // verus!
