//! GPRS Setup interface class (class id 63): GPRS modem configuration.
use vstd::prelude::*;
use vstd::utf8::encode_utf8;
use crate::cosem_object::{denied, invalid, yields, CosemObject};
use crate::data_object::{ok_octets, DataObject};
use crate::error::{access_denied, invalid_data, invalid_data_number, DlmsResult};
use crate::obis::ObisCode;
use crate::selective_access::SelectiveAccessDescriptor;
use crate::text::{copy_opt_string, copy_string, opt_chars, spec_utf8_lossy, string_bytes, string_from_bytes_lossy};

verus! {

/// Quality of service of the GPRS connection.
#[derive(Debug, Clone, Copy, PartialEq, Eq, Structural)]
pub enum QualityOfService {
    BestEffort,
    Low,
    Normal,
    High,
}

impl QualityOfService {
    pub open spec fn spec_to_u8(self) -> u8 {
        match self {
            QualityOfService::BestEffort => 0,
            QualityOfService::Low => 1,
            QualityOfService::Normal => 2,
            QualityOfService::High => 3,
        }
    }

    /// The quality of a wire code; unknown codes read as `BestEffort`.
    pub open spec fn spec_from_u8(value: u8) -> QualityOfService {
        match value {
            1 => QualityOfService::Low,
            2 => QualityOfService::Normal,
            3 => QualityOfService::High,
            _ => QualityOfService::BestEffort,
        }
    }

    pub fn from_u8(value: u8) -> (r: QualityOfService)
        ensures
            r == QualityOfService::spec_from_u8(value),
    {
        match value {
            0 => QualityOfService::BestEffort,
            1 => QualityOfService::Low,
            2 => QualityOfService::Normal,
            3 => QualityOfService::High,
            _ => QualityOfService::BestEffort,
        }
    }

    pub fn to_u8(self) -> (r: u8)
        ensures
            r == self.spec_to_u8(),
    {
        match self {
            QualityOfService::BestEffort => 0,
            QualityOfService::Low => 1,
            QualityOfService::Normal => 2,
            QualityOfService::High => 3,
        }
    }
}

/// Every quality of service survives the trip through its wire code.
pub proof fn lemma_quality_of_service_code_roundtrip(q: QualityOfService)
    ensures
        QualityOfService::spec_from_u8(q.spec_to_u8()) == q,
{
}

/// The state of a [`GprsSetup`].
pub struct GprsSetupView {
    pub logical_name: ObisCode,
    pub apn: Seq<char>,
    pub pin: Option<Seq<char>>,
    pub allowed_connections: u8,
    pub quality_of_service: QualityOfService,
    pub enabled: bool,
    pub connection_count: u8,
    pub username: Option<Seq<char>>,
    pub password: Option<Seq<char>>,
}

/// A disabled setup with the given APN, one allowed connection and normal quality.
pub open spec fn gprs_setup_initial(logical_name: ObisCode, apn: Seq<char>) -> GprsSetupView {
    GprsSetupView {
        logical_name,
        apn,
        pin: None,
        allowed_connections: 1,
        quality_of_service: QualityOfService::Normal,
        enabled: false,
        connection_count: 0,
        username: None,
        password: None,
    }
}

/// GPRS Setup interface class (class id 63).
pub struct GprsSetup {
    logical_name: ObisCode,
    apn: String,
    pin: Option<String>,
    allowed_connections: u8,
    quality_of_service: QualityOfService,
    enabled: bool,
    connection_count: u8,
    username: Option<String>,
    password: Option<String>,
}

impl View for GprsSetup {
    type V = GprsSetupView;

    closed spec fn view(&self) -> GprsSetupView {
        GprsSetupView {
            logical_name: self.logical_name,
            apn: self.apn@,
            pin: opt_chars(self.pin),
            allowed_connections: self.allowed_connections,
            quality_of_service: self.quality_of_service,
            enabled: self.enabled,
            connection_count: self.connection_count,
            username: opt_chars(self.username),
            password: opt_chars(self.password),
        }
    }
}

impl GprsSetup {
    pub const CLASS_ID: u16 = 63;
    pub const ATTR_LOGICAL_NAME: u8 = 1;
    pub const ATTR_APN: u8 = 2;
    pub const ATTR_PIN: u8 = 3;
    pub const ATTR_ALLOWED_CONNECTIONS: u8 = 4;
    pub const ATTR_QUALITY_OF_SERVICE: u8 = 5;
    pub const ATTR_ENABLED: u8 = 6;

    /// Default OBIS code 0-0:63.0.0.255.
    pub fn default_obis() -> (r: ObisCode)
        ensures
            r == (ObisCode { a: 0, b: 0, c: 63, d: 0, e: 0, f: 255 }),
    {
        ObisCode::new(0, 0, 63, 0, 0, 255)
    }

    pub fn new(logical_name: ObisCode) -> (r: GprsSetup)
        ensures
            r@ == gprs_setup_initial(logical_name, Seq::empty()),
    {
        Self::with_apn(logical_name, String::new())
    }

    pub fn with_default_obis() -> (r: GprsSetup)
        ensures
            r@ == gprs_setup_initial(ObisCode { a: 0, b: 0, c: 63, d: 0, e: 0, f: 255 }, Seq::empty()),
    {
        Self::new(Self::default_obis())
    }

    pub fn with_apn(logical_name: ObisCode, apn: String) -> (r: GprsSetup)
        ensures
            r@ == gprs_setup_initial(logical_name, apn@),
    {
        GprsSetup {
            logical_name,
            apn,
            pin: None,
            allowed_connections: 1,
            quality_of_service: QualityOfService::Normal,
            enabled: false,
            connection_count: 0,
            username: None,
            password: None,
        }
    }

    pub fn apn(&self) -> (r: String)
        ensures
            r@ == self@.apn,
    {
        copy_string(&self.apn)
    }

    pub fn set_apn(&mut self, apn: String)
        ensures
            final(self)@ == (GprsSetupView { apn: apn@, ..old(self)@ }),
    {
        self.apn = apn;
    }

    pub fn pin(&self) -> (r: Option<String>)
        ensures
            opt_chars(r) == self@.pin,
    {
        copy_opt_string(&self.pin)
    }

    pub fn set_pin(&mut self, pin: String)
        ensures
            final(self)@ == (GprsSetupView { pin: Some(pin@), ..old(self)@ }),
    {
        self.pin = Some(pin);
    }

    pub fn clear_pin(&mut self)
        ensures
            final(self)@ == (GprsSetupView { pin: None, ..old(self)@ }),
    {
        self.pin = None;
    }

    pub fn allowed_connections(&self) -> (r: u8)
        ensures
            r == self@.allowed_connections,
    {
        self.allowed_connections
    }

    pub fn set_allowed_connections(&mut self, count: u8)
        ensures
            final(self)@ == (GprsSetupView { allowed_connections: count, ..old(self)@ }),
    {
        self.allowed_connections = count;
    }

    pub fn quality_of_service(&self) -> (r: QualityOfService)
        ensures
            r == self@.quality_of_service,
    {
        self.quality_of_service
    }

    pub fn set_quality_of_service(&mut self, qos: QualityOfService)
        ensures
            final(self)@ == (GprsSetupView { quality_of_service: qos, ..old(self)@ }),
    {
        self.quality_of_service = qos;
    }

    pub fn enabled(&self) -> (r: bool)
        ensures
            r == self@.enabled,
    {
        self.enabled
    }

    pub fn set_enabled(&mut self, enabled: bool)
        ensures
            final(self)@ == (GprsSetupView { enabled, ..old(self)@ }),
    {
        self.enabled = enabled;
    }

    pub fn enable(&mut self)
        ensures
            final(self)@ == (GprsSetupView { enabled: true, ..old(self)@ }),
    {
        self.enabled = true;
    }

    pub fn disable(&mut self)
        ensures
            final(self)@ == (GprsSetupView { enabled: false, ..old(self)@ }),
    {
        self.enabled = false;
    }

    pub fn connection_count(&self) -> (r: u8)
        ensures
            r == self@.connection_count,
    {
        self.connection_count
    }

    /// Counts one more open connection.
    pub fn increment_connection_count(&mut self)
        requires
            old(self)@.connection_count < u8::MAX,
        ensures
            final(self)@ == (GprsSetupView { connection_count: (old(self)@.connection_count + 1) as u8, ..old(self)@ }),
    {
        self.connection_count = self.connection_count + 1;
    }

    /// Counts one connection fewer, never below zero.
    pub fn decrement_connection_count(&mut self)
        ensures
            final(self)@ == (GprsSetupView {
                connection_count: if old(self)@.connection_count > 0 {
                    (old(self)@.connection_count - 1) as u8
                } else {
                    0
                },
                ..old(self)@
            }),
    {
        if self.connection_count > 0 {
            self.connection_count = self.connection_count - 1;
        }
    }

    pub fn username(&self) -> (r: Option<String>)
        ensures
            opt_chars(r) == self@.username,
    {
        copy_opt_string(&self.username)
    }

    pub fn set_username(&mut self, username: String)
        ensures
            final(self)@ == (GprsSetupView { username: Some(username@), ..old(self)@ }),
    {
        self.username = Some(username);
    }

    pub fn clear_username(&mut self)
        ensures
            final(self)@ == (GprsSetupView { username: None, ..old(self)@ }),
    {
        self.username = None;
    }

    pub fn password(&self) -> (r: Option<String>)
        ensures
            opt_chars(r) == self@.password,
    {
        copy_opt_string(&self.password)
    }

    pub fn set_password(&mut self, password: String)
        ensures
            final(self)@ == (GprsSetupView { password: Some(password@), ..old(self)@ }),
    {
        self.password = Some(password);
    }

    pub fn clear_password(&mut self)
        ensures
            final(self)@ == (GprsSetupView { password: None, ..old(self)@ }),
    {
        self.password = None;
    }

    /// A connection may open while enabled and below the allowed count.
    pub fn can_connect(&self) -> (r: bool)
        ensures
            r == (self@.enabled && self@.connection_count < self@.allowed_connections),
    {
        self.enabled && self.connection_count < self.allowed_connections
    }

    /// An APN is configured.
    pub fn has_credentials(&self) -> (r: bool)
        ensures
            r == (self@.apn.len() > 0),
    {
        !self.apn.as_str().is_empty()
    }

    /// Both a username and a password are configured.
    pub fn has_auth(&self) -> (r: bool)
        ensures
            r == (self@.username is Some && self@.password is Some),
    {
        self.username.is_some() && self.password.is_some()
    }

    pub fn max_connections(&self) -> (r: u8)
        ensures
            r == self@.allowed_connections,
    {
        self.allowed_connections
    }

    pub fn is_at_max_connections(&self) -> (r: bool)
        ensures
            r == (self@.connection_count >= self@.allowed_connections),
    {
        self.connection_count >= self.allowed_connections
    }

    /// The allowed count less the open count, or 0.
    pub fn available_connections(&self) -> (r: u8)
        ensures
            r == (if self@.allowed_connections >= self@.connection_count {
                (self@.allowed_connections - self@.connection_count) as u8
            } else {
                0u8
            }),
    {
        self.allowed_connections.saturating_sub(self.connection_count)
    }
}

impl CosemObject for GprsSetup {
    fn class_id(&self) -> (r: u16)
        ensures
            r == 63,
    {
        Self::CLASS_ID
    }

    fn obis_code(&self) -> (r: ObisCode)
        ensures
            r == self@.logical_name,
    {
        self.logical_name
    }

    fn get_attribute(
        &self,
        attribute_id: u8,
        selective_access: Option<&SelectiveAccessDescriptor>,
    ) -> (r: DlmsResult<DataObject>)
        ensures
            match attribute_id {
                1 => ok_octets(r, self@.logical_name.spec_bytes()),
                2 => ok_octets(r, encode_utf8(self@.apn)),
                3 => match self@.pin {
                    Some(p) => ok_octets(r, encode_utf8(p)),
                    None => ok_octets(r, Seq::empty()),
                },
                4 => yields(r, DataObject::Unsigned8(self@.allowed_connections)),
                5 => yields(r, DataObject::Enumerate(self@.quality_of_service.spec_to_u8())),
                6 => yields(r, DataObject::Boolean(self@.enabled)),
                _ => invalid(r),
            },
    {
        match attribute_id {
            1 => Ok(DataObject::OctetString(self.logical_name.to_bytes())),
            2 => Ok(DataObject::OctetString(string_bytes(&self.apn))),
            3 => match &self.pin {
                Some(p) => Ok(DataObject::OctetString(string_bytes(p))),
                None => Ok(DataObject::OctetString(Vec::new())),
            },
            4 => Ok(DataObject::Unsigned8(self.allowed_connections)),
            5 => Ok(DataObject::Enumerate(self.quality_of_service.to_u8())),
            6 => Ok(DataObject::Boolean(self.enabled)),
            _ => Err(invalid_data_number("GprsSetup has no attribute ", attribute_id as u64)),
        }
    }

    fn set_attribute(
        &mut self,
        attribute_id: u8,
        value: DataObject,
        selective_access: Option<&SelectiveAccessDescriptor>,
    ) -> (r: DlmsResult<()>)
        ensures
            r is Err ==> final(self)@ == old(self)@,
            match attribute_id {
                1 => denied(r),
                2 => match value {
                    DataObject::OctetString(b) => r is Ok && final(self)@ == (GprsSetupView { apn: spec_utf8_lossy(b@), ..old(self)@ }),
                    _ => invalid(r),
                },
                3 => match value {
                    DataObject::OctetString(b) => r is Ok && final(self)@ == (GprsSetupView {
                        pin: if b@.len() == 0 { None } else { Some(spec_utf8_lossy(b@)) },
                        ..old(self)@
                    }),
                    _ => invalid(r),
                },
                4 => match value {
                    DataObject::Unsigned8(v) => r is Ok && final(self)@ == (GprsSetupView { allowed_connections: v, ..old(self)@ }),
                    _ => invalid(r),
                },
                5 => match value {
                    DataObject::Enumerate(v) => r is Ok && final(self)@ == (GprsSetupView {
                        quality_of_service: QualityOfService::spec_from_u8(v),
                        ..old(self)@
                    }),
                    _ => invalid(r),
                },
                6 => match value {
                    DataObject::Boolean(v) => r is Ok && final(self)@ == (GprsSetupView { enabled: v, ..old(self)@ }),
                    _ => invalid(r),
                },
                _ => invalid(r),
            },
    {
        match attribute_id {
            1 => Err(access_denied("Attribute 1 (logical_name) is read-only")),
            2 => match value {
                DataObject::OctetString(bytes) => {
                    self.apn = string_from_bytes_lossy(bytes.as_slice());
                    Ok(())
                }
                _ => Err(invalid_data("Expected OctetString for apn")),
            },
            3 => match value {
                DataObject::OctetString(bytes) => {
                    if bytes.len() == 0 {
                        self.pin = None;
                    } else {
                        self.pin = Some(string_from_bytes_lossy(bytes.as_slice()));
                    }
                    Ok(())
                }
                _ => Err(invalid_data("Expected OctetString for pin")),
            },
            4 => match value {
                DataObject::Unsigned8(v) => {
                    self.allowed_connections = v;
                    Ok(())
                }
                _ => Err(invalid_data("Expected Unsigned8 for allowed_connections")),
            },
            5 => match value {
                DataObject::Enumerate(v) => {
                    self.quality_of_service = QualityOfService::from_u8(v);
                    Ok(())
                }
                _ => Err(invalid_data("Expected Enumerate for quality_of_service")),
            },
            6 => match value {
                DataObject::Boolean(v) => {
                    self.enabled = v;
                    Ok(())
                }
                _ => Err(invalid_data("Expected Boolean for enabled")),
            },
            _ => Err(invalid_data_number("GprsSetup has no attribute ", attribute_id as u64)),
        }
    }

    fn invoke_method(
        &mut self,
        method_id: u8,
        parameters: Option<DataObject>,
        selective_access: Option<&SelectiveAccessDescriptor>,
    ) -> (r: DlmsResult<Option<DataObject>>)
        ensures
            invalid(r),
            final(self)@ == old(self)@,
    {
        Err(invalid_data_number("GprsSetup has no method ", method_id as u64))
    }
}

} // verus!
