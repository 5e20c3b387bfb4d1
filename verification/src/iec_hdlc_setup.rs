//! IEC HDLC Setup interface class (class id 23): the HDLC parameters of a
//! local port — speed, window sizes and maximum information field length.
use vstd::prelude::*;
use crate::cosem_object::{denied, invalid, yields, CosemObject};
use crate::data_object::{contains_u32, copy_vec, is_u32_array, ok_octets, u32_array, DataObject};
use crate::error::{access_denied, invalid_data, invalid_data_number, invalid_data_text, text_around, DlmsResult};
use crate::obis::ObisCode;
use crate::selective_access::SelectiveAccessDescriptor;

verus! {

/// Maximum length of the HDLC information field: 128, 256, 512 or 1024
/// bytes.
#[derive(Debug, Clone, Copy, PartialEq, Eq, Structural)]
pub enum InformationLength {
    L128,
    L256,
    L512,
    L1024,
}

impl InformationLength {
    /// The length in bytes.
    pub open spec fn spec_to_u16(self) -> u16 {
        match self {
            InformationLength::L128 => 128,
            InformationLength::L256 => 256,
            InformationLength::L512 => 512,
            InformationLength::L1024 => 1024,
        }
    }

    /// The length of `value` bytes, if it is one of the four.
    pub open spec fn spec_from_u16(value: u16) -> Option<InformationLength> {
        match value {
            128 => Some(InformationLength::L128),
            256 => Some(InformationLength::L256),
            512 => Some(InformationLength::L512),
            1024 => Some(InformationLength::L1024),
            _ => None,
        }
    }

    pub fn from_u16(value: u16) -> (r: Option<InformationLength>)
        ensures
            r == InformationLength::spec_from_u16(value),
    {
        match value {
            128 => Some(InformationLength::L128),
            256 => Some(InformationLength::L256),
            512 => Some(InformationLength::L512),
            1024 => Some(InformationLength::L1024),
            _ => None,
        }
    }

    pub fn to_u16(self) -> (r: u16)
        ensures
            r == self.spec_to_u16(),
    {
        match self {
            InformationLength::L128 => 128,
            InformationLength::L256 => 256,
            InformationLength::L512 => 512,
            InformationLength::L1024 => 1024,
        }
    }
}

/// A length read back from its byte count is the same length, and a byte
/// count that reads as a length is that length's byte count.
pub proof fn lemma_information_length_roundtrip(l: InformationLength, value: u16)
    ensures
        InformationLength::spec_from_u16(l.spec_to_u16()) == Some(l),
        InformationLength::spec_from_u16(value) == Some(l) ==> l.spec_to_u16() == value,
{
}

/// The state of an [`IecHdlcSetup`].
pub struct IecHdlcSetupView {
    pub logical_name: ObisCode,
    pub communication_speed: u32,
    pub window_size_transmission: u8,
    pub window_size_reception: u8,
    pub maximum_information_length: InformationLength,
    pub supported_communication_speeds: Seq<u32>,
}

/// An HDLC window size is 1 to 7.
pub open spec fn valid_window_size(size: u8) -> bool {
    1 <= size <= 7
}

/// The settings 9600 baud, window sizes 1 and 128-byte information field.
pub open spec fn hdlc_defaults(v: IecHdlcSetupView) -> IecHdlcSetupView {
    IecHdlcSetupView {
        communication_speed: 9600,
        window_size_transmission: 1,
        window_size_reception: 1,
        maximum_information_length: InformationLength::L128,
        ..v
    }
}

/// The speeds offered by default: 300 to 115200 baud.
pub open spec fn standard_hdlc_speeds() -> Seq<u32> {
    seq![300u32, 600, 1200, 2400, 4800, 9600, 19200, 38400, 57600, 115200]
}

/// IEC HDLC Setup interface class (class id 23).
pub struct IecHdlcSetup {
    logical_name: ObisCode,
    communication_speed: u32,
    window_size_transmission: u8,
    window_size_reception: u8,
    maximum_information_length: InformationLength,
    supported_communication_speeds: Vec<u32>,
}

impl View for IecHdlcSetup {
    type V = IecHdlcSetupView;

    closed spec fn view(&self) -> IecHdlcSetupView {
        IecHdlcSetupView {
            logical_name: self.logical_name,
            communication_speed: self.communication_speed,
            window_size_transmission: self.window_size_transmission,
            window_size_reception: self.window_size_reception,
            maximum_information_length: self.maximum_information_length,
            supported_communication_speeds: self.supported_communication_speeds@,
        }
    }
}

impl IecHdlcSetup {
    pub const CLASS_ID: u16 = 23;
    pub const ATTR_LOGICAL_NAME: u8 = 1;
    pub const ATTR_COMMUNICATION_SPEED: u8 = 2;
    pub const ATTR_WINDOW_SIZE_TRANSMISSION: u8 = 3;
    pub const ATTR_WINDOW_SIZE_RECEPTION: u8 = 4;
    pub const ATTR_MAXIMUM_INFORMATION_LENGTH: u8 = 5;
    pub const ATTR_SUPPORTED_COMMUNICATION_SPEEDS: u8 = 6;

    /// Default OBIS code 0-0:24.0.0.255.
    pub fn default_obis() -> (r: ObisCode)
        ensures
            r == (ObisCode { a: 0, b: 0, c: 24, d: 0, e: 0, f: 255 }),
    {
        ObisCode::new(0, 0, 24, 0, 0, 255)
    }

    /// A setup holding exactly the given values; nothing is checked.
    pub fn new(
        logical_name: ObisCode,
        communication_speed: u32,
        window_size_transmission: u8,
        window_size_reception: u8,
        maximum_information_length: InformationLength,
        supported_communication_speeds: Vec<u32>,
    ) -> (r: IecHdlcSetup)
        ensures
            r@ == (IecHdlcSetupView {
                logical_name,
                communication_speed,
                window_size_transmission,
                window_size_reception,
                maximum_information_length,
                supported_communication_speeds: supported_communication_speeds@,
            }),
    {
        IecHdlcSetup {
            logical_name,
            communication_speed,
            window_size_transmission,
            window_size_reception,
            maximum_information_length,
            supported_communication_speeds,
        }
    }

    /// The default OBIS code at 9600 baud, window sizes 1, a 128-byte
    /// information field and the speeds 300 to 115200 baud.
    pub fn with_default_obis() -> (r: IecHdlcSetup)
        ensures
            r@ == (IecHdlcSetupView {
                logical_name: ObisCode { a: 0, b: 0, c: 24, d: 0, e: 0, f: 255 },
                communication_speed: 9600,
                window_size_transmission: 1,
                window_size_reception: 1,
                maximum_information_length: InformationLength::L128,
                supported_communication_speeds: standard_hdlc_speeds(),
            }),
    {
        let speeds: Vec<u32> = vec![300, 600, 1200, 2400, 4800, 9600, 19200, 38400, 57600, 115200];
        assert(speeds@ =~= standard_hdlc_speeds());
        Self::new(Self::default_obis(), 9600, 1, 1, InformationLength::L128, speeds)
    }

    pub fn communication_speed(&self) -> (r: u32)
        ensures
            r == self@.communication_speed,
    {
        self.communication_speed
    }

    /// Sets the speed if it is one of the supported speeds.
    pub fn set_communication_speed(&mut self, speed: u32) -> (r: DlmsResult<()>)
        ensures
            r is Ok <==> old(self)@.supported_communication_speeds.contains(speed),
            r is Ok ==> final(self)@ == (IecHdlcSetupView { communication_speed: speed, ..old(self)@ }),
            r is Err ==> invalid(r) && final(self)@ == old(self)@,
    {
        if !contains_u32(&self.supported_communication_speeds, speed) {
            return Err(invalid_data_text(text_around("Speed ", speed as u64, " not in supported list")));
        }
        self.communication_speed = speed;
        Ok(())
    }

    pub fn window_size_transmission(&self) -> (r: u8)
        ensures
            r == self@.window_size_transmission,
    {
        self.window_size_transmission
    }

    /// Sets the transmit window size if it is 1 to 7.
    pub fn set_window_size_transmission(&mut self, size: u8) -> (r: DlmsResult<()>)
        ensures
            r is Ok <==> valid_window_size(size),
            r is Ok ==> final(self)@ == (IecHdlcSetupView { window_size_transmission: size, ..old(self)@ }),
            r is Err ==> invalid(r) && final(self)@ == old(self)@,
    {
        if size < 1 || size > 7 {
            return Err(invalid_data("Window size must be between 1 and 7"));
        }
        self.window_size_transmission = size;
        Ok(())
    }

    pub fn window_size_reception(&self) -> (r: u8)
        ensures
            r == self@.window_size_reception,
    {
        self.window_size_reception
    }

    /// Sets the receive window size if it is 1 to 7.
    pub fn set_window_size_reception(&mut self, size: u8) -> (r: DlmsResult<()>)
        ensures
            r is Ok <==> valid_window_size(size),
            r is Ok ==> final(self)@ == (IecHdlcSetupView { window_size_reception: size, ..old(self)@ }),
            r is Err ==> invalid(r) && final(self)@ == old(self)@,
    {
        if size < 1 || size > 7 {
            return Err(invalid_data("Window size must be between 1 and 7"));
        }
        self.window_size_reception = size;
        Ok(())
    }

    pub fn maximum_information_length(&self) -> (r: InformationLength)
        ensures
            r == self@.maximum_information_length,
    {
        self.maximum_information_length
    }

    pub fn set_maximum_information_length(&mut self, length: InformationLength)
        ensures
            final(self)@ == (IecHdlcSetupView { maximum_information_length: length, ..old(self)@ }),
    {
        self.maximum_information_length = length;
    }

    pub fn supported_communication_speeds(&self) -> (r: Vec<u32>)
        ensures
            r@ == self@.supported_communication_speeds,
    {
        copy_vec(&self.supported_communication_speeds)
    }

    pub fn is_speed_supported(&self, speed: u32) -> (r: bool)
        ensures
            r == self@.supported_communication_speeds.contains(speed),
    {
        contains_u32(&self.supported_communication_speeds, speed)
    }

    /// Speed, transmit window, receive window and information length.
    pub fn config(&self) -> (r: (u32, u8, u8, InformationLength))
        ensures
            r == (
                self@.communication_speed,
                self@.window_size_transmission,
                self@.window_size_reception,
                self@.maximum_information_length,
            ),
    {
        (
            self.communication_speed,
            self.window_size_transmission,
            self.window_size_reception,
            self.maximum_information_length,
        )
    }

    /// Returns to 9600 baud, window sizes 1 and a 128-byte information
    /// field; fails, changing nothing, when 9600 baud is not supported.
    pub fn set_defaults(&mut self) -> (r: DlmsResult<()>)
        ensures
            r is Ok <==> old(self)@.supported_communication_speeds.contains(9600),
            r is Ok ==> final(self)@ == hdlc_defaults(old(self)@),
            r is Err ==> invalid(r) && final(self)@ == old(self)@,
    {
        match self.set_communication_speed(9600) {
            Ok(()) => {},
            Err(e) => return Err(e),
        }
        let _ = self.set_window_size_transmission(1);
        let _ = self.set_window_size_reception(1);
        self.set_maximum_information_length(InformationLength::L128);
        Ok(())
    }
}

impl CosemObject for IecHdlcSetup {
    fn class_id(&self) -> (r: u16)
        ensures
            r == 23,
    {
        Self::CLASS_ID
    }

    fn obis_code(&self) -> (r: ObisCode)
        ensures
            r == self@.logical_name,
    {
        self.logical_name
    }

    fn get_attribute(
        &self,
        attribute_id: u8,
        selective_access: Option<&SelectiveAccessDescriptor>,
    ) -> (r: DlmsResult<DataObject>)
        ensures
            match attribute_id {
                1 => ok_octets(r, self@.logical_name.spec_bytes()),
                2 => yields(r, DataObject::Unsigned32(self@.communication_speed)),
                3 => yields(r, DataObject::Unsigned8(self@.window_size_transmission)),
                4 => yields(r, DataObject::Unsigned8(self@.window_size_reception)),
                5 => yields(r, DataObject::Unsigned16(self@.maximum_information_length.spec_to_u16())),
                6 => r matches Ok(d) && is_u32_array(d, self@.supported_communication_speeds),
                _ => invalid(r),
            },
    {
        match attribute_id {
            1 => Ok(DataObject::OctetString(self.logical_name.to_bytes())),
            2 => Ok(DataObject::Unsigned32(self.communication_speed)),
            3 => Ok(DataObject::Unsigned8(self.window_size_transmission)),
            4 => Ok(DataObject::Unsigned8(self.window_size_reception)),
            5 => Ok(DataObject::Unsigned16(self.maximum_information_length.to_u16())),
            6 => Ok(u32_array(&self.supported_communication_speeds)),
            _ => Err(invalid_data_number("IEC HDLC Setup has no attribute ", attribute_id as u64)),
        }
    }

    /// The speed must be a supported one, the window sizes 1 to 7 and the
    /// information length 128, 256, 512 or 1024; the logical name and the
    /// list of speeds are read-only.
    fn set_attribute(
        &mut self,
        attribute_id: u8,
        value: DataObject,
        selective_access: Option<&SelectiveAccessDescriptor>,
    ) -> (r: DlmsResult<()>)
        ensures
            r is Err ==> final(self)@ == old(self)@,
            match attribute_id {
                1 => denied(r),
                2 => match value {
                    DataObject::Unsigned32(s) if old(self)@.supported_communication_speeds.contains(s) => r is Ok
                        && final(self)@ == (IecHdlcSetupView { communication_speed: s, ..old(self)@ }),
                    _ => invalid(r),
                },
                3 => match value {
                    DataObject::Unsigned8(w) if valid_window_size(w) => r is Ok
                        && final(self)@ == (IecHdlcSetupView { window_size_transmission: w, ..old(self)@ }),
                    _ => invalid(r),
                },
                4 => match value {
                    DataObject::Unsigned8(w) if valid_window_size(w) => r is Ok
                        && final(self)@ == (IecHdlcSetupView { window_size_reception: w, ..old(self)@ }),
                    _ => invalid(r),
                },
                5 => match value {
                    DataObject::Unsigned16(n) => match InformationLength::spec_from_u16(n) {
                        Some(l) => r is Ok && final(self)@ == (IecHdlcSetupView {
                            maximum_information_length: l,
                            ..old(self)@
                        }),
                        None => invalid(r),
                    },
                    _ => invalid(r),
                },
                6 => denied(r),
                _ => invalid(r),
            },
    {
        match attribute_id {
            1 => Err(access_denied("Attribute 1 (logical_name) is read-only")),
            2 => match value {
                DataObject::Unsigned32(speed) => self.set_communication_speed(speed),
                _ => Err(invalid_data("Expected Unsigned32 for communication_speed")),
            },
            3 => match value {
                DataObject::Unsigned8(size) => self.set_window_size_transmission(size),
                _ => Err(invalid_data("Expected Unsigned8 for window_size_transmission")),
            },
            4 => match value {
                DataObject::Unsigned8(size) => self.set_window_size_reception(size),
                _ => Err(invalid_data("Expected Unsigned8 for window_size_reception")),
            },
            5 => match value {
                DataObject::Unsigned16(length) => match InformationLength::from_u16(length) {
                    Some(l) => {
                        self.maximum_information_length = l;
                        Ok(())
                    },
                    None => Err(invalid_data_number("Invalid information length: ", length as u64)),
                },
                _ => Err(invalid_data("Expected Unsigned16 for maximum_information_length")),
            },
            6 => Err(access_denied("Attribute 6 (supported_communication_speeds) is read-only")),
            _ => Err(invalid_data_number("IEC HDLC Setup has no attribute ", attribute_id as u64)),
        }
    }

    /// The class has no methods.
    fn invoke_method(
        &mut self,
        method_id: u8,
        parameters: Option<DataObject>,
        selective_access: Option<&SelectiveAccessDescriptor>,
    ) -> (r: DlmsResult<Option<DataObject>>)
        ensures
            invalid(r),
            final(self)@ == old(self)@,
    {
        Err(invalid_data_number("IEC HDLC Setup has no method ", method_id as u64))
    }
}

} // verus!
