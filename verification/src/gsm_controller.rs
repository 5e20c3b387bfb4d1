//! GSM Controller interface class (class id 28): GSM modem state.
use vstd::prelude::*;
use vstd::utf8::{is_ascii_chars, is_ascii_chars_encode_utf8};
use vstd::utf8::encode_utf8;
use crate::cosem_object::{denied, invalid, yields, CosemObject};
use crate::data_object::{ok_octets, DataObject};
use crate::error::{access_denied, invalid_data, invalid_data_number, DlmsResult};
use crate::obis::ObisCode;
use crate::selective_access::SelectiveAccessDescriptor;
use crate::text::{
    all_ascii_digits, copy_string, is_ascii_digit_char, spec_utf8_lossy, string_bytes,
    string_from_bytes_lossy,
};

verus! {

/// Connection status of the GSM modem.
#[derive(Debug, Clone, Copy, PartialEq, Eq, Structural)]
pub enum GsmConnectionStatus {
    Disconnected,
    Connecting,
    Connected,
    ConnectionFailed,
    Roaming,
    Searching,
}

impl GsmConnectionStatus {
    pub open spec fn spec_to_u8(self) -> u8 {
        match self {
            GsmConnectionStatus::Disconnected => 0,
            GsmConnectionStatus::Connecting => 1,
            GsmConnectionStatus::Connected => 2,
            GsmConnectionStatus::ConnectionFailed => 3,
            GsmConnectionStatus::Roaming => 4,
            GsmConnectionStatus::Searching => 5,
        }
    }

    /// The status of a wire code; unknown codes read as `Disconnected`.
    pub open spec fn spec_from_u8(value: u8) -> GsmConnectionStatus {
        match value {
            1 => GsmConnectionStatus::Connecting,
            2 => GsmConnectionStatus::Connected,
            3 => GsmConnectionStatus::ConnectionFailed,
            4 => GsmConnectionStatus::Roaming,
            5 => GsmConnectionStatus::Searching,
            _ => GsmConnectionStatus::Disconnected,
        }
    }

    pub fn from_u8(value: u8) -> (r: GsmConnectionStatus)
        ensures
            r == GsmConnectionStatus::spec_from_u8(value),
    {
        match value {
            0 => GsmConnectionStatus::Disconnected,
            1 => GsmConnectionStatus::Connecting,
            2 => GsmConnectionStatus::Connected,
            3 => GsmConnectionStatus::ConnectionFailed,
            4 => GsmConnectionStatus::Roaming,
            5 => GsmConnectionStatus::Searching,
            _ => GsmConnectionStatus::Disconnected,
        }
    }

    pub fn to_u8(self) -> (r: u8)
        ensures
            r == self.spec_to_u8(),
    {
        match self {
            GsmConnectionStatus::Disconnected => 0,
            GsmConnectionStatus::Connecting => 1,
            GsmConnectionStatus::Connected => 2,
            GsmConnectionStatus::ConnectionFailed => 3,
            GsmConnectionStatus::Roaming => 4,
            GsmConnectionStatus::Searching => 5,
        }
    }

    /// Connected or roaming.
    pub fn is_connected(self) -> (r: bool)
        ensures
            r == (self == GsmConnectionStatus::Connected || self == GsmConnectionStatus::Roaming),
    {
        matches!(self, GsmConnectionStatus::Connected | GsmConnectionStatus::Roaming)
    }

    /// Connecting or searching for a network.
    pub fn is_connecting(self) -> (r: bool)
        ensures
            r == (self == GsmConnectionStatus::Connecting || self == GsmConnectionStatus::Searching),
    {
        matches!(self, GsmConnectionStatus::Connecting | GsmConnectionStatus::Searching)
    }
}

/// Signal strength bands.
#[derive(Debug, Clone, Copy, PartialEq, Eq, Structural)]
pub enum SignalStrength {
    NoSignal,
    VeryWeak,
    Weak,
    Moderate,
    Good,
    Excellent,
    Unknown,
}

impl SignalStrength {
    /// The wire code (`Unknown` is 255).
    pub open spec fn spec_to_u8(self) -> u8 {
        match self {
            SignalStrength::NoSignal => 0,
            SignalStrength::VeryWeak => 1,
            SignalStrength::Weak => 2,
            SignalStrength::Moderate => 3,
            SignalStrength::Good => 4,
            SignalStrength::Excellent => 5,
            SignalStrength::Unknown => 255,
        }
    }

    /// The band of a wire code; codes above 5 read as `Unknown`.
    pub open spec fn spec_from_u8(value: u8) -> SignalStrength {
        match value {
            0 => SignalStrength::NoSignal,
            1 => SignalStrength::VeryWeak,
            2 => SignalStrength::Weak,
            3 => SignalStrength::Moderate,
            4 => SignalStrength::Good,
            5 => SignalStrength::Excellent,
            _ => SignalStrength::Unknown,
        }
    }

    pub fn from_u8(value: u8) -> (r: SignalStrength)
        ensures
            r == SignalStrength::spec_from_u8(value),
    {
        match value {
            0 => SignalStrength::NoSignal,
            1 => SignalStrength::VeryWeak,
            2 => SignalStrength::Weak,
            3 => SignalStrength::Moderate,
            4 => SignalStrength::Good,
            5 => SignalStrength::Excellent,
            255 => SignalStrength::Unknown,
            _ => SignalStrength::Unknown,
        }
    }

    pub fn to_u8(self) -> (r: u8)
        ensures
            r == self.spec_to_u8(),
    {
        match self {
            SignalStrength::NoSignal => 0,
            SignalStrength::VeryWeak => 1,
            SignalStrength::Weak => 2,
            SignalStrength::Moderate => 3,
            SignalStrength::Good => 4,
            SignalStrength::Excellent => 5,
            SignalStrength::Unknown => 255,
        }
    }

    /// Moderate, good and excellent signals are usable.
    pub fn is_usable(self) -> (r: bool)
        ensures
            r == (self == SignalStrength::Moderate || self == SignalStrength::Good || self
                == SignalStrength::Excellent),
    {
        matches!(self, SignalStrength::Moderate | SignalStrength::Good | SignalStrength::Excellent)
    }
}

/// Every status and band survives the trip through its wire code.
pub proof fn lemma_gsm_codes_roundtrip(c: GsmConnectionStatus, s: SignalStrength)
    ensures
        GsmConnectionStatus::spec_from_u8(c.spec_to_u8()) == c,
        SignalStrength::spec_from_u8(s.spec_to_u8()) == s,
{
}

/// An IMEI is exactly fifteen bytes, all ASCII digits.
pub open spec fn valid_imei(s: Seq<char>) -> bool {
    encode_utf8(s).len() == 15 && forall|i: int| 0 <= i < s.len() ==> is_ascii_digit_char(#[trigger] s[i])
}

/// An IMSI is one to fifteen bytes, all ASCII digits.
pub open spec fn valid_imsi(s: Seq<char>) -> bool {
    s.len() > 0 && encode_utf8(s).len() <= 15 && forall|i: int|
        0 <= i < s.len() ==> is_ascii_digit_char(#[trigger] s[i])
}

/// The state of a [`GsmController`].
pub struct GsmControllerView {
    pub logical_name: ObisCode,
    pub gsm_enabled: bool,
    pub signal_strength: SignalStrength,
    pub operator_name: Seq<char>,
    pub apn: Seq<char>,
    pub connection_status: GsmConnectionStatus,
    pub imei: Seq<char>,
    pub imsi: Seq<char>,
}

/// GSM Controller interface class (class id 28).
pub struct GsmController {
    logical_name: ObisCode,
    gsm_enabled: bool,
    signal_strength: SignalStrength,
    operator_name: String,
    apn: String,
    connection_status: GsmConnectionStatus,
    imei: String,
    imsi: String,
}

impl View for GsmController {
    type V = GsmControllerView;

    closed spec fn view(&self) -> GsmControllerView {
        GsmControllerView {
            logical_name: self.logical_name,
            gsm_enabled: self.gsm_enabled,
            signal_strength: self.signal_strength,
            operator_name: self.operator_name@,
            apn: self.apn@,
            connection_status: self.connection_status,
            imei: self.imei@,
            imsi: self.imsi@,
        }
    }
}

impl GsmController {
    pub const CLASS_ID: u16 = 28;
    pub const ATTR_LOGICAL_NAME: u8 = 1;
    pub const ATTR_GSM_ENABLED: u8 = 2;
    pub const ATTR_SIGNAL_STRENGTH: u8 = 3;
    pub const ATTR_OPERATOR_NAME: u8 = 4;
    pub const ATTR_APN: u8 = 5;
    pub const ATTR_CONNECTION_STATUS: u8 = 6;
    pub const ATTR_IMEI: u8 = 7;
    pub const ATTR_IMSI: u8 = 8;

    /// Default OBIS code 0-0:28.0.0.255.
    pub fn default_obis() -> (r: ObisCode)
        ensures
            r == (ObisCode { a: 0, b: 0, c: 28, d: 0, e: 0, f: 255 }),
    {
        ObisCode::new(0, 0, 28, 0, 0, 255)
    }

    /// A disabled, disconnected modem of unknown signal strength.
    pub fn new(logical_name: ObisCode) -> (r: GsmController)
        ensures
            r@ == (GsmControllerView {
                logical_name,
                gsm_enabled: false,
                signal_strength: SignalStrength::Unknown,
                operator_name: Seq::empty(),
                apn: Seq::empty(),
                connection_status: GsmConnectionStatus::Disconnected,
                imei: Seq::empty(),
                imsi: Seq::empty(),
            }),
    {
        GsmController {
            logical_name,
            gsm_enabled: false,
            signal_strength: SignalStrength::Unknown,
            operator_name: String::new(),
            apn: String::new(),
            connection_status: GsmConnectionStatus::Disconnected,
            imei: String::new(),
            imsi: String::new(),
        }
    }

    pub fn with_default_obis() -> (r: GsmController)
        ensures
            r@ == (GsmControllerView {
                logical_name: ObisCode { a: 0, b: 0, c: 28, d: 0, e: 0, f: 255 },
                gsm_enabled: false,
                signal_strength: SignalStrength::Unknown,
                operator_name: Seq::empty(),
                apn: Seq::empty(),
                connection_status: GsmConnectionStatus::Disconnected,
                imei: Seq::empty(),
                imsi: Seq::empty(),
            }),
    {
        Self::new(Self::default_obis())
    }

    pub fn gsm_enabled(&self) -> (r: bool)
        ensures
            r == self@.gsm_enabled,
    {
        self.gsm_enabled
    }

    pub fn set_gsm_enabled(&mut self, enabled: bool)
        ensures
            final(self)@ == (GsmControllerView { gsm_enabled: enabled, ..old(self)@ }),
    {
        self.gsm_enabled = enabled;
    }

    pub fn signal_strength(&self) -> (r: SignalStrength)
        ensures
            r == self@.signal_strength,
    {
        self.signal_strength
    }

    pub fn set_signal_strength(&mut self, strength: SignalStrength)
        ensures
            final(self)@ == (GsmControllerView { signal_strength: strength, ..old(self)@ }),
    {
        self.signal_strength = strength;
    }

    pub fn operator_name(&self) -> (r: String)
        ensures
            r@ == self@.operator_name,
    {
        copy_string(&self.operator_name)
    }

    pub fn set_operator_name(&mut self, name: String)
        ensures
            final(self)@ == (GsmControllerView { operator_name: name@, ..old(self)@ }),
    {
        self.operator_name = name;
    }

    pub fn apn(&self) -> (r: String)
        ensures
            r@ == self@.apn,
    {
        copy_string(&self.apn)
    }

    pub fn set_apn(&mut self, apn: String)
        ensures
            final(self)@ == (GsmControllerView { apn: apn@, ..old(self)@ }),
    {
        self.apn = apn;
    }

    pub fn connection_status(&self) -> (r: GsmConnectionStatus)
        ensures
            r == self@.connection_status,
    {
        self.connection_status
    }

    pub fn set_connection_status(&mut self, status: GsmConnectionStatus)
        ensures
            final(self)@ == (GsmControllerView { connection_status: status, ..old(self)@ }),
    {
        self.connection_status = status;
    }

    pub fn imei(&self) -> (r: String)
        ensures
            r@ == self@.imei,
    {
        copy_string(&self.imei)
    }

    pub fn set_imei(&mut self, imei: String)
        ensures
            final(self)@ == (GsmControllerView { imei: imei@, ..old(self)@ }),
    {
        self.imei = imei;
    }

    pub fn imsi(&self) -> (r: String)
        ensures
            r@ == self@.imsi,
    {
        copy_string(&self.imsi)
    }

    pub fn set_imsi(&mut self, imsi: String)
        ensures
            final(self)@ == (GsmControllerView { imsi: imsi@, ..old(self)@ }),
    {
        self.imsi = imsi;
    }

    pub fn is_enabled(&self) -> (r: bool)
        ensures
            r == self@.gsm_enabled,
    {
        self.gsm_enabled
    }

    pub fn is_connected(&self) -> (r: bool)
        ensures
            r == (self@.connection_status == GsmConnectionStatus::Connected || self@.connection_status
                == GsmConnectionStatus::Roaming),
    {
        self.connection_status.is_connected()
    }

    pub fn is_signal_usable(&self) -> (r: bool)
        ensures
            r == (self@.signal_strength == SignalStrength::Moderate || self@.signal_strength
                == SignalStrength::Good || self@.signal_strength == SignalStrength::Excellent),
    {
        self.signal_strength.is_usable()
    }

    pub fn is_connecting(&self) -> (r: bool)
        ensures
            r == (self@.connection_status == GsmConnectionStatus::Connecting || self@.connection_status
                == GsmConnectionStatus::Searching),
    {
        self.connection_status.is_connecting()
    }

    pub fn connect(&mut self)
        ensures
            final(self)@ == (GsmControllerView { connection_status: GsmConnectionStatus::Connecting, ..old(self)@ }),
    {
        self.connection_status = GsmConnectionStatus::Connecting;
    }

    pub fn disconnect(&mut self)
        ensures
            final(self)@ == (GsmControllerView { connection_status: GsmConnectionStatus::Disconnected, ..old(self)@ }),
    {
        self.connection_status = GsmConnectionStatus::Disconnected;
    }

    pub fn mark_connected(&mut self)
        ensures
            final(self)@ == (GsmControllerView { connection_status: GsmConnectionStatus::Connected, ..old(self)@ }),
    {
        self.connection_status = GsmConnectionStatus::Connected;
    }

    pub fn mark_roaming(&mut self)
        ensures
            final(self)@ == (GsmControllerView { connection_status: GsmConnectionStatus::Roaming, ..old(self)@ }),
    {
        self.connection_status = GsmConnectionStatus::Roaming;
    }

    pub fn mark_connection_failed(&mut self)
        ensures
            final(self)@ == (GsmControllerView {
                connection_status: GsmConnectionStatus::ConnectionFailed,
                ..old(self)@
            }),
    {
        self.connection_status = GsmConnectionStatus::ConnectionFailed;
    }

    pub fn search_network(&mut self)
        ensures
            final(self)@ == (GsmControllerView { connection_status: GsmConnectionStatus::Searching, ..old(self)@ }),
    {
        self.connection_status = GsmConnectionStatus::Searching;
    }

    /// The IMEI is fifteen ASCII digits.
    pub fn validate_imei(&self) -> (r: bool)
        ensures
            r == valid_imei(self@.imei),
    {
        let text = self.imei.as_str();
        text.as_bytes().len() == 15 && all_ascii_digits(text)
    }

    /// The IMSI is one to fifteen ASCII digits.
    pub fn validate_imsi(&self) -> (r: bool)
        ensures
            r == valid_imsi(self@.imsi),
    {
        let text = self.imsi.as_str();
        !text.is_empty() && text.as_bytes().len() <= 15 && all_ascii_digits(text)
    }
}

impl CosemObject for GsmController {
    fn class_id(&self) -> (r: u16)
        ensures
            r == 28,
    {
        Self::CLASS_ID
    }

    fn obis_code(&self) -> (r: ObisCode)
        ensures
            r == self@.logical_name,
    {
        self.logical_name
    }

    fn get_attribute(
        &self,
        attribute_id: u8,
        selective_access: Option<&SelectiveAccessDescriptor>,
    ) -> (r: DlmsResult<DataObject>)
        ensures
            match attribute_id {
                1 => ok_octets(r, self@.logical_name.spec_bytes()),
                2 => yields(r, DataObject::Boolean(self@.gsm_enabled)),
                3 => yields(r, DataObject::Enumerate(self@.signal_strength.spec_to_u8())),
                4 => ok_octets(r, encode_utf8(self@.operator_name)),
                5 => ok_octets(r, encode_utf8(self@.apn)),
                6 => yields(r, DataObject::Enumerate(self@.connection_status.spec_to_u8())),
                7 => ok_octets(r, encode_utf8(self@.imei)),
                8 => ok_octets(r, encode_utf8(self@.imsi)),
                _ => invalid(r),
            },
    {
        match attribute_id {
            1 => Ok(DataObject::OctetString(self.logical_name.to_bytes())),
            2 => Ok(DataObject::Boolean(self.gsm_enabled)),
            3 => Ok(DataObject::Enumerate(self.signal_strength.to_u8())),
            4 => Ok(DataObject::OctetString(string_bytes(&self.operator_name))),
            5 => Ok(DataObject::OctetString(string_bytes(&self.apn))),
            6 => Ok(DataObject::Enumerate(self.connection_status.to_u8())),
            7 => Ok(DataObject::OctetString(string_bytes(&self.imei))),
            8 => Ok(DataObject::OctetString(string_bytes(&self.imsi))),
            _ => Err(invalid_data_number("GsmController has no attribute ", attribute_id as u64)),
        }
    }

    fn set_attribute(
        &mut self,
        attribute_id: u8,
        value: DataObject,
        selective_access: Option<&SelectiveAccessDescriptor>,
    ) -> (r: DlmsResult<()>)
        ensures
            r is Err ==> final(self)@ == old(self)@,
            match attribute_id {
                1 => denied(r),
                2 => match value {
                    DataObject::Boolean(v) => r is Ok && final(self)@ == (GsmControllerView { gsm_enabled: v, ..old(self)@ }),
                    _ => invalid(r),
                },
                3 => match value {
                    DataObject::Enumerate(v) => r is Ok && final(self)@ == (GsmControllerView {
                        signal_strength: SignalStrength::spec_from_u8(v),
                        ..old(self)@
                    }),
                    _ => invalid(r),
                },
                4 => match value {
                    DataObject::OctetString(b) => r is Ok && final(self)@ == (GsmControllerView {
                        operator_name: spec_utf8_lossy(b@),
                        ..old(self)@
                    }),
                    _ => invalid(r),
                },
                5 => match value {
                    DataObject::OctetString(b) => r is Ok && final(self)@ == (GsmControllerView { apn: spec_utf8_lossy(b@), ..old(self)@ }),
                    _ => invalid(r),
                },
                6 => match value {
                    DataObject::Enumerate(v) => r is Ok && final(self)@ == (GsmControllerView {
                        connection_status: GsmConnectionStatus::spec_from_u8(v),
                        ..old(self)@
                    }),
                    _ => invalid(r),
                },
                7 => match value {
                    DataObject::OctetString(b) => r is Ok && final(self)@ == (GsmControllerView { imei: spec_utf8_lossy(b@), ..old(self)@ }),
                    _ => invalid(r),
                },
                8 => match value {
                    DataObject::OctetString(b) => r is Ok && final(self)@ == (GsmControllerView { imsi: spec_utf8_lossy(b@), ..old(self)@ }),
                    _ => invalid(r),
                },
                _ => invalid(r),
            },
    {
        match attribute_id {
            1 => Err(access_denied("Attribute 1 (logical_name) is read-only")),
            2 => match value {
                DataObject::Boolean(v) => {
                    self.gsm_enabled = v;
                    Ok(())
                }
                _ => Err(invalid_data("Expected Boolean for gsm_enabled")),
            },
            3 => match value {
                DataObject::Enumerate(v) => {
                    self.signal_strength = SignalStrength::from_u8(v);
                    Ok(())
                }
                _ => Err(invalid_data("Expected Enumerate for signal_strength")),
            },
            4 => match value {
                DataObject::OctetString(bytes) => {
                    self.operator_name = string_from_bytes_lossy(bytes.as_slice());
                    Ok(())
                }
                _ => Err(invalid_data("Expected OctetString for operator_name")),
            },
            5 => match value {
                DataObject::OctetString(bytes) => {
                    self.apn = string_from_bytes_lossy(bytes.as_slice());
                    Ok(())
                }
                _ => Err(invalid_data("Expected OctetString for apn")),
            },
            6 => match value {
                DataObject::Enumerate(v) => {
                    self.connection_status = GsmConnectionStatus::from_u8(v);
                    Ok(())
                }
                _ => Err(invalid_data("Expected Enumerate for connection_status")),
            },
            7 => match value {
                DataObject::OctetString(bytes) => {
                    self.imei = string_from_bytes_lossy(bytes.as_slice());
                    Ok(())
                }
                _ => Err(invalid_data("Expected OctetString for imei")),
            },
            8 => match value {
                DataObject::OctetString(bytes) => {
                    self.imsi = string_from_bytes_lossy(bytes.as_slice());
                    Ok(())
                }
                _ => Err(invalid_data("Expected OctetString for imsi")),
            },
            _ => Err(invalid_data_number("GsmController has no attribute ", attribute_id as u64)),
        }
    }

    fn invoke_method(
        &mut self,
        method_id: u8,
        parameters: Option<DataObject>,
        selective_access: Option<&SelectiveAccessDescriptor>,
    ) -> (r: DlmsResult<Option<DataObject>>)
        ensures
            invalid(r),
            final(self)@ == old(self)@,
    {
        Err(invalid_data_number("GsmController has no method ", method_id as u64))
    }
}


/// For text made of ASCII digits the byte count is the character count.
proof fn lemma_digit_text_bytes(s: Seq<char>)
    requires
        forall|i: int| 0 <= i < s.len() ==> is_ascii_digit_char(#[trigger] s[i]),
    ensures
        encode_utf8(s).len() == s.len(),
{
    assert(is_ascii_chars(s)) by {
        assert forall|i: int| 0 <= i < s.len() implies '\0' <= #[trigger] s[i] <= '\u{7f}' by {
            assert(is_ascii_digit_char(s[i]));
        }
    }
    is_ascii_chars_encode_utf8(s);
}

/// An IMSI that validates has one to fifteen digits, so any longer text is
/// refused; text of digits validates exactly when it has one to fifteen of
/// them. An IMEI that validates has exactly fifteen digits, and text of
/// digits validates as an IMEI exactly when it has fifteen.
pub proof fn lemma_identity_lengths(s: Seq<char>)
    ensures
        valid_imsi(s) ==> 1 <= s.len() <= 15,
        valid_imei(s) ==> s.len() == 15,
        (forall|i: int| 0 <= i < s.len() ==> '0' <= #[trigger] s[i] <= '9') ==> (valid_imsi(s) <==> 1 <= s.len()
            <= 15) && (valid_imei(s) <==> s.len() == 15),
        s.len() > 15 ==> !valid_imsi(s) && !valid_imei(s),
{
    if forall|i: int| 0 <= i < s.len() ==> is_ascii_digit_char(#[trigger] s[i]) {
        lemma_digit_text_bytes(s);
    }
}

} // verus!
