//! IEC Local Port Setup interface class (class id 19): baud rate, parity,
//! stop bits, data bits and mode of the optical or electrical local port.
use vstd::prelude::*;
use crate::cosem_object::{denied, invalid, yields, CosemObject};
use crate::data_object::{ok_octets, DataObject};
use crate::error::{access_denied, invalid_data, invalid_data_number, DlmsResult};
use crate::obis::ObisCode;
use crate::selective_access::SelectiveAccessDescriptor;

verus! {

/// Parity of the local port; codes 0 (none) to 4.
#[derive(Debug, Clone, Copy, PartialEq, Eq, Structural)]
pub enum Parity {
    NoParity,
    Odd,
    Even,
    Mark,
    Space,
}

impl Parity {
    /// The wire code.
    pub open spec fn spec_to_u8(self) -> u8 {
        match self {
            Parity::NoParity => 0,
            Parity::Odd => 1,
            Parity::Even => 2,
            Parity::Mark => 3,
            Parity::Space => 4,
        }
    }

    /// The parity of a wire code; unknown codes read as no parity.
    pub open spec fn spec_from_u8(value: u8) -> Parity {
        match value {
            1 => Parity::Odd,
            2 => Parity::Even,
            3 => Parity::Mark,
            4 => Parity::Space,
            _ => Parity::NoParity,
        }
    }

    pub fn from_u8(value: u8) -> (r: Parity)
        ensures
            r == Parity::spec_from_u8(value),
    {
        match value {
            1 => Parity::Odd,
            2 => Parity::Even,
            3 => Parity::Mark,
            4 => Parity::Space,
            _ => Parity::NoParity,
        }
    }

    pub fn to_u8(self) -> (r: u8)
        ensures
            r == self.spec_to_u8(),
    {
        match self {
            Parity::NoParity => 0,
            Parity::Odd => 1,
            Parity::Even => 2,
            Parity::Mark => 3,
            Parity::Space => 4,
        }
    }
}

/// Mode of the local port: IEC 62056-21 mode E, B or C, or reserved.
#[derive(Debug, Clone, Copy, PartialEq, Eq, Structural)]
pub enum PortMode {
    ModeE,
    ModeB,
    ModeC,
    Reserved,
}

impl PortMode {
    /// The wire code.
    pub open spec fn spec_to_u8(self) -> u8 {
        match self {
            PortMode::ModeE => 0,
            PortMode::ModeB => 1,
            PortMode::ModeC => 2,
            PortMode::Reserved => 3,
        }
    }

    /// The mode of a wire code; every code but 1 and 2 reads as mode E.
    pub open spec fn spec_from_u8(value: u8) -> PortMode {
        match value {
            1 => PortMode::ModeB,
            2 => PortMode::ModeC,
            _ => PortMode::ModeE,
        }
    }

    pub fn from_u8(value: u8) -> (r: PortMode)
        ensures
            r == PortMode::spec_from_u8(value),
    {
        match value {
            1 => PortMode::ModeB,
            2 => PortMode::ModeC,
            _ => PortMode::ModeE,
        }
    }

    pub fn to_u8(self) -> (r: u8)
        ensures
            r == self.spec_to_u8(),
    {
        match self {
            PortMode::ModeE => 0,
            PortMode::ModeB => 1,
            PortMode::ModeC => 2,
            PortMode::Reserved => 3,
        }
    }
}

/// The standard baud rates from 300 to 115200.
#[derive(Debug, Clone, Copy, PartialEq, Eq, Structural)]
pub enum BaudRate {
    B300,
    B600,
    B1200,
    B2400,
    B4800,
    B9600,
    B19200,
    B38400,
    B57600,
    B115200,
}

impl BaudRate {
    /// The rate in baud.
    pub open spec fn spec_to_u32(self) -> u32 {
        match self {
            BaudRate::B300 => 300,
            BaudRate::B600 => 600,
            BaudRate::B1200 => 1200,
            BaudRate::B2400 => 2400,
            BaudRate::B4800 => 4800,
            BaudRate::B9600 => 9600,
            BaudRate::B19200 => 19200,
            BaudRate::B38400 => 38400,
            BaudRate::B57600 => 57600,
            BaudRate::B115200 => 115200,
        }
    }

    /// The standard rate of `value` baud, if it is one.
    pub open spec fn spec_from_u32(value: u32) -> Option<BaudRate> {
        match value {
            300 => Some(BaudRate::B300),
            600 => Some(BaudRate::B600),
            1200 => Some(BaudRate::B1200),
            2400 => Some(BaudRate::B2400),
            4800 => Some(BaudRate::B4800),
            9600 => Some(BaudRate::B9600),
            19200 => Some(BaudRate::B19200),
            38400 => Some(BaudRate::B38400),
            57600 => Some(BaudRate::B57600),
            115200 => Some(BaudRate::B115200),
            _ => None,
        }
    }

    pub fn from_u32(value: u32) -> (r: Option<BaudRate>)
        ensures
            r == BaudRate::spec_from_u32(value),
    {
        match value {
            300 => Some(BaudRate::B300),
            600 => Some(BaudRate::B600),
            1200 => Some(BaudRate::B1200),
            2400 => Some(BaudRate::B2400),
            4800 => Some(BaudRate::B4800),
            9600 => Some(BaudRate::B9600),
            19200 => Some(BaudRate::B19200),
            38400 => Some(BaudRate::B38400),
            57600 => Some(BaudRate::B57600),
            115200 => Some(BaudRate::B115200),
            _ => None,
        }
    }

    pub fn to_u32(self) -> (r: u32)
        ensures
            r == self.spec_to_u32(),
    {
        match self {
            BaudRate::B300 => 300,
            BaudRate::B600 => 600,
            BaudRate::B1200 => 1200,
            BaudRate::B2400 => 2400,
            BaudRate::B4800 => 4800,
            BaudRate::B9600 => 9600,
            BaudRate::B19200 => 19200,
            BaudRate::B38400 => 38400,
            BaudRate::B57600 => 57600,
            BaudRate::B115200 => 115200,
        }
    }
}

/// Every parity reads back from its code; every mode but `Reserved` reads
/// back from its code; every baud rate reads back from its value, and a
/// value that reads as a rate is that rate's value.
pub proof fn lemma_port_codes_roundtrip(p: Parity, m: PortMode, b: BaudRate, value: u32)
    ensures
        Parity::spec_from_u8(p.spec_to_u8()) == p,
        m != PortMode::Reserved ==> PortMode::spec_from_u8(m.spec_to_u8()) == m,
        BaudRate::spec_from_u32(b.spec_to_u32()) == Some(b),
        BaudRate::spec_from_u32(value) == Some(b) ==> b.spec_to_u32() == value,
{
}

/// The state of an [`IecLocalPortSetup`].
pub struct IecLocalPortSetupView {
    pub logical_name: ObisCode,
    pub default_baud: BaudRate,
    pub default_parity: Parity,
    pub default_stop_bits: u8,
    pub data_bits: u8,
    pub mode: PortMode,
}

/// Stop bits are 1 or 2.
pub open spec fn valid_stop_bits(bits: u8) -> bool {
    bits == 1 || bits == 2
}

/// Data bits are 5 to 8.
pub open spec fn valid_data_bits(bits: u8) -> bool {
    5 <= bits <= 8
}

/// The state after choosing 8 data bits, 1 stop bit, the given rate and
/// parity.
pub open spec fn framed_8_1(v: IecLocalPortSetupView, baud: BaudRate, parity: Parity) -> IecLocalPortSetupView {
    IecLocalPortSetupView { default_baud: baud, default_parity: parity, default_stop_bits: 1, data_bits: 8, ..v }
}

/// The parity written by an `Enumerate` or `Unsigned8` value.
pub open spec fn parity_of(d: DataObject) -> Option<Parity> {
    match d {
        DataObject::Enumerate(p) => Some(Parity::spec_from_u8(p)),
        DataObject::Unsigned8(p) => Some(Parity::spec_from_u8(p)),
        _ => None,
    }
}

/// The mode written by an `Enumerate` or `Unsigned8` value.
pub open spec fn port_mode_of(d: DataObject) -> Option<PortMode> {
    match d {
        DataObject::Enumerate(m) => Some(PortMode::spec_from_u8(m)),
        DataObject::Unsigned8(m) => Some(PortMode::spec_from_u8(m)),
        _ => None,
    }
}

/// IEC Local Port Setup interface class (class id 19).
pub struct IecLocalPortSetup {
    logical_name: ObisCode,
    default_baud: BaudRate,
    default_parity: Parity,
    default_stop_bits: u8,
    data_bits: u8,
    mode: PortMode,
}

impl View for IecLocalPortSetup {
    type V = IecLocalPortSetupView;

    closed spec fn view(&self) -> IecLocalPortSetupView {
        IecLocalPortSetupView {
            logical_name: self.logical_name,
            default_baud: self.default_baud,
            default_parity: self.default_parity,
            default_stop_bits: self.default_stop_bits,
            data_bits: self.data_bits,
            mode: self.mode,
        }
    }
}

impl IecLocalPortSetup {
    pub const CLASS_ID: u16 = 19;
    pub const ATTR_LOGICAL_NAME: u8 = 1;
    pub const ATTR_DEFAULT_BAUD: u8 = 2;
    pub const ATTR_DEFAULT_PARITY: u8 = 3;
    pub const ATTR_DEFAULT_STOP_BITS: u8 = 4;
    pub const ATTR_DATA_BITS: u8 = 5;
    pub const ATTR_MODE: u8 = 6;

    /// Default OBIS code 0-0:20.0.0.255.
    pub fn default_obis() -> (r: ObisCode)
        ensures
            r == (ObisCode { a: 0, b: 0, c: 20, d: 0, e: 0, f: 255 }),
    {
        ObisCode::new(0, 0, 20, 0, 0, 255)
    }

    /// A setup holding exactly the given values; nothing is checked.
    pub fn new(
        logical_name: ObisCode,
        default_baud: BaudRate,
        default_parity: Parity,
        default_stop_bits: u8,
        data_bits: u8,
        mode: PortMode,
    ) -> (r: IecLocalPortSetup)
        ensures
            r@ == (IecLocalPortSetupView { logical_name, default_baud, default_parity, default_stop_bits, data_bits, mode }),
    {
        IecLocalPortSetup { logical_name, default_baud, default_parity, default_stop_bits, data_bits, mode }
    }

    /// The default OBIS code at 9600 baud, 8E1, mode E.
    pub fn with_default_obis() -> (r: IecLocalPortSetup)
        ensures
            r@ == (IecLocalPortSetupView {
                logical_name: ObisCode { a: 0, b: 0, c: 20, d: 0, e: 0, f: 255 },
                default_baud: BaudRate::B9600,
                default_parity: Parity::Even,
                default_stop_bits: 1,
                data_bits: 8,
                mode: PortMode::ModeE,
            }),
    {
        Self::new(Self::default_obis(), BaudRate::B9600, Parity::Even, 1, 8, PortMode::ModeE)
    }

    pub fn default_baud(&self) -> (r: BaudRate)
        ensures
            r == self@.default_baud,
    {
        self.default_baud
    }

    pub fn set_default_baud(&mut self, baud: BaudRate)
        ensures
            final(self)@ == (IecLocalPortSetupView { default_baud: baud, ..old(self)@ }),
    {
        self.default_baud = baud;
    }

    pub fn default_parity(&self) -> (r: Parity)
        ensures
            r == self@.default_parity,
    {
        self.default_parity
    }

    pub fn set_default_parity(&mut self, parity: Parity)
        ensures
            final(self)@ == (IecLocalPortSetupView { default_parity: parity, ..old(self)@ }),
    {
        self.default_parity = parity;
    }

    pub fn default_stop_bits(&self) -> (r: u8)
        ensures
            r == self@.default_stop_bits,
    {
        self.default_stop_bits
    }

    /// Sets the stop bits if they are 1 or 2.
    pub fn set_default_stop_bits(&mut self, stop_bits: u8) -> (r: DlmsResult<()>)
        ensures
            r is Ok <==> valid_stop_bits(stop_bits),
            r is Ok ==> final(self)@ == (IecLocalPortSetupView { default_stop_bits: stop_bits, ..old(self)@ }),
            r is Err ==> invalid(r) && final(self)@ == old(self)@,
    {
        if stop_bits != 1 && stop_bits != 2 {
            return Err(invalid_data("Stop bits must be 1 or 2"));
        }
        self.default_stop_bits = stop_bits;
        Ok(())
    }

    pub fn data_bits(&self) -> (r: u8)
        ensures
            r == self@.data_bits,
    {
        self.data_bits
    }

    /// Sets the data bits if they are 5 to 8.
    pub fn set_data_bits(&mut self, bits: u8) -> (r: DlmsResult<()>)
        ensures
            r is Ok <==> valid_data_bits(bits),
            r is Ok ==> final(self)@ == (IecLocalPortSetupView { data_bits: bits, ..old(self)@ }),
            r is Err ==> invalid(r) && final(self)@ == old(self)@,
    {
        if bits < 5 || bits > 8 {
            return Err(invalid_data("Data bits must be between 5 and 8"));
        }
        self.data_bits = bits;
        Ok(())
    }

    pub fn mode(&self) -> (r: PortMode)
        ensures
            r == self@.mode,
    {
        self.mode
    }

    pub fn set_mode(&mut self, mode: PortMode)
        ensures
            final(self)@ == (IecLocalPortSetupView { mode, ..old(self)@ }),
    {
        self.mode = mode;
    }

    /// Baud rate, parity, stop bits, data bits and mode.
    pub fn config(&self) -> (r: (BaudRate, Parity, u8, u8, PortMode))
        ensures
            r == (self@.default_baud, self@.default_parity, self@.default_stop_bits, self@.data_bits, self@.mode),
    {
        (self.default_baud, self.default_parity, self.default_stop_bits, self.data_bits, self.mode)
    }

    fn set_framing(&mut self, baud: BaudRate, parity: Parity)
        ensures
            final(self)@ == framed_8_1(old(self)@, baud, parity),
    {
        self.default_baud = baud;
        self.default_parity = parity;
        self.default_stop_bits = 1;
        self.data_bits = 8;
    }

    /// 8 data bits, no parity, 1 stop bit at `baud`.
    pub fn set_8n1(&mut self, baud: BaudRate)
        ensures
            final(self)@ == framed_8_1(old(self)@, baud, Parity::NoParity),
    {
        self.set_framing(baud, Parity::NoParity);
    }

    /// 8 data bits, even parity, 1 stop bit at `baud`.
    pub fn set_8e1(&mut self, baud: BaudRate)
        ensures
            final(self)@ == framed_8_1(old(self)@, baud, Parity::Even),
    {
        self.set_framing(baud, Parity::Even);
    }

    /// 8 data bits, odd parity, 1 stop bit at `baud`.
    pub fn set_8o1(&mut self, baud: BaudRate)
        ensures
            final(self)@ == framed_8_1(old(self)@, baud, Parity::Odd),
    {
        self.set_framing(baud, Parity::Odd);
    }
}

impl CosemObject for IecLocalPortSetup {
    fn class_id(&self) -> (r: u16)
        ensures
            r == 19,
    {
        Self::CLASS_ID
    }

    fn obis_code(&self) -> (r: ObisCode)
        ensures
            r == self@.logical_name,
    {
        self.logical_name
    }

    fn get_attribute(
        &self,
        attribute_id: u8,
        selective_access: Option<&SelectiveAccessDescriptor>,
    ) -> (r: DlmsResult<DataObject>)
        ensures
            match attribute_id {
                1 => ok_octets(r, self@.logical_name.spec_bytes()),
                2 => yields(r, DataObject::Unsigned32(self@.default_baud.spec_to_u32())),
                3 => yields(r, DataObject::Enumerate(self@.default_parity.spec_to_u8())),
                4 => yields(r, DataObject::Unsigned8(self@.default_stop_bits)),
                5 => yields(r, DataObject::Unsigned8(self@.data_bits)),
                6 => yields(r, DataObject::Enumerate(self@.mode.spec_to_u8())),
                _ => invalid(r),
            },
    {
        match attribute_id {
            1 => Ok(DataObject::OctetString(self.logical_name.to_bytes())),
            2 => Ok(DataObject::Unsigned32(self.default_baud.to_u32())),
            3 => Ok(DataObject::Enumerate(self.default_parity.to_u8())),
            4 => Ok(DataObject::Unsigned8(self.default_stop_bits)),
            5 => Ok(DataObject::Unsigned8(self.data_bits)),
            6 => Ok(DataObject::Enumerate(self.mode.to_u8())),
            _ => Err(invalid_data_number("IEC Local Port Setup has no attribute ", attribute_id as u64)),
        }
    }

    /// The baud rate must be a standard one, the stop bits 1 or 2 and the
    /// data bits 5 to 8; parity and mode take any `Enumerate` or `Unsigned8`
    /// code, unknown codes reading as no parity and mode E.
    fn set_attribute(
        &mut self,
        attribute_id: u8,
        value: DataObject,
        selective_access: Option<&SelectiveAccessDescriptor>,
    ) -> (r: DlmsResult<()>)
        ensures
            r is Err ==> final(self)@ == old(self)@,
            match attribute_id {
                1 => denied(r),
                2 => match value {
                    DataObject::Unsigned32(b) => match BaudRate::spec_from_u32(b) {
                        Some(rate) => r is Ok && final(self)@ == (IecLocalPortSetupView { default_baud: rate, ..old(self)@ }),
                        None => invalid(r),
                    },
                    _ => invalid(r),
                },
                3 => match parity_of(value) {
                    Some(p) => r is Ok && final(self)@ == (IecLocalPortSetupView { default_parity: p, ..old(self)@ }),
                    None => invalid(r),
                },
                4 => match value {
                    DataObject::Unsigned8(b) if valid_stop_bits(b) => r is Ok
                        && final(self)@ == (IecLocalPortSetupView { default_stop_bits: b, ..old(self)@ }),
                    _ => invalid(r),
                },
                5 => match value {
                    DataObject::Unsigned8(b) if valid_data_bits(b) => r is Ok
                        && final(self)@ == (IecLocalPortSetupView { data_bits: b, ..old(self)@ }),
                    _ => invalid(r),
                },
                6 => match port_mode_of(value) {
                    Some(m) => r is Ok && final(self)@ == (IecLocalPortSetupView { mode: m, ..old(self)@ }),
                    None => invalid(r),
                },
                _ => invalid(r),
            },
    {
        match attribute_id {
            1 => Err(access_denied("Attribute 1 (logical_name) is read-only")),
            2 => match value {
                DataObject::Unsigned32(baud) => match BaudRate::from_u32(baud) {
                    Some(rate) => {
                        self.default_baud = rate;
                        Ok(())
                    },
                    None => Err(invalid_data_number("Invalid baud rate: ", baud as u64)),
                },
                _ => Err(invalid_data("Expected Unsigned32 for default_baud")),
            },
            3 => {
                let parity = match value {
                    DataObject::Enumerate(p) => Parity::from_u8(p),
                    DataObject::Unsigned8(p) => Parity::from_u8(p),
                    _ => return Err(invalid_data("Expected Enum for default_parity")),
                };
                self.default_parity = parity;
                Ok(())
            },
            4 => match value {
                DataObject::Unsigned8(bits) => self.set_default_stop_bits(bits),
                _ => Err(invalid_data("Expected Unsigned8 for default_stop_bits")),
            },
            5 => match value {
                DataObject::Unsigned8(bits) => self.set_data_bits(bits),
                _ => Err(invalid_data("Expected Unsigned8 for data_bits")),
            },
            6 => {
                let mode = match value {
                    DataObject::Enumerate(m) => PortMode::from_u8(m),
                    DataObject::Unsigned8(m) => PortMode::from_u8(m),
                    _ => return Err(invalid_data("Expected Enum for mode")),
                };
                self.mode = mode;
                Ok(())
            },
            _ => Err(invalid_data_number("IEC Local Port Setup has no attribute ", attribute_id as u64)),
        }
    }

    /// The class has no methods.
    fn invoke_method(
        &mut self,
        method_id: u8,
        parameters: Option<DataObject>,
        selective_access: Option<&SelectiveAccessDescriptor>,
    ) -> (r: DlmsResult<Option<DataObject>>)
        ensures
            invalid(r),
            final(self)@ == old(self)@,
    {
        Err(invalid_data_number("IEC Local Port Setup has no method ", method_id as u64))
    }
}

} // verus!
