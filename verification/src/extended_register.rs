//! Extended Register interface class (class id 4): a register value with
//! scaler-unit, status and capture time.
use vstd::prelude::*;
use crate::clock::{start_of_2024, start_of_2024_stamp};
use crate::cosem_object::{denied, invalid, yields, CosemObject};
use crate::data_object::{copy_opt_bytes, is_optional_octets, ok_octets, opt_bytes, DataObject};
use crate::datetime::{encode_optional_date_time, is_optional_date_time, CosemDateTime};
use crate::error::{access_denied, invalid_data, invalid_data_number, DlmsResult};
use crate::obis::ObisCode;
use crate::scaler_unit::{encode_optional_scaler_unit, is_optional_scaler_unit, ScalerUnit};
use crate::selective_access::SelectiveAccessDescriptor;

verus! {

/// The state of an [`ExtendedRegister`].
pub struct ExtendedRegisterView {
    pub logical_name: ObisCode,
    pub value: i64,
    pub scaler_unit: Option<ScalerUnit>,
    pub status: Option<Seq<u8>>,
    pub capture_time: Option<CosemDateTime>,
}

/// Extended Register interface class (class id 4).
pub struct ExtendedRegister {
    logical_name: ObisCode,
    value: i64,
    scaler_unit: Option<ScalerUnit>,
    status: Option<Vec<u8>>,
    capture_time: Option<CosemDateTime>,
}

impl View for ExtendedRegister {
    type V = ExtendedRegisterView;

    closed spec fn view(&self) -> ExtendedRegisterView {
        ExtendedRegisterView {
            logical_name: self.logical_name,
            value: self.value,
            scaler_unit: self.scaler_unit,
            status: opt_bytes(self.status),
            capture_time: self.capture_time,
        }
    }
}

impl ExtendedRegister {
    pub const CLASS_ID: u16 = 4;
    pub const ATTR_LOGICAL_NAME: u8 = 1;
    pub const ATTR_VALUE: u8 = 2;
    pub const ATTR_SCALER_UNIT: u8 = 3;
    pub const ATTR_STATUS: u8 = 4;
    pub const ATTR_CAPTURE_TIME: u8 = 5;

    /// Default OBIS code 1-0:21.0.0.255.
    pub fn default_obis() -> (r: ObisCode)
        ensures
            r == (ObisCode { a: 1, b: 0, c: 21, d: 0, e: 0, f: 255 }),
    {
        ObisCode::new(1, 0, 21, 0, 0, 255)
    }

    /// A register with the given value, scaler-unit and status and no
    /// capture time.
    pub fn new(logical_name: ObisCode, value: i64, scaler_unit: Option<ScalerUnit>, status: Option<Vec<u8>>) -> (r: ExtendedRegister)
        ensures
            r@ == (ExtendedRegisterView {
                logical_name,
                value,
                scaler_unit,
                status: opt_bytes(status),
                capture_time: None,
            }),
    {
        ExtendedRegister { logical_name, value, scaler_unit, status, capture_time: None }
    }

    /// The default OBIS code with no scaler-unit and no status.
    pub fn with_default_obis(value: i64) -> (r: ExtendedRegister)
        ensures
            r@ == (ExtendedRegisterView {
                logical_name: ObisCode { a: 1, b: 0, c: 21, d: 0, e: 0, f: 255 },
                value,
                scaler_unit: None,
                status: None,
                capture_time: None,
            }),
    {
        Self::new(Self::default_obis(), value, None, None)
    }

    pub fn value(&self) -> (r: i64)
        ensures
            r == self@.value,
    {
        self.value
    }

    /// Sets the value and stamps the capture time.
    pub fn set_value(&mut self, value: i64)
        ensures
            final(self)@ == (ExtendedRegisterView { value, capture_time: Some(start_of_2024()), ..old(self)@ }),
    {
        self.value = value;
        self.capture_time = Some(start_of_2024_stamp());
    }

    pub fn scaler_unit(&self) -> (r: Option<ScalerUnit>)
        ensures
            r == self@.scaler_unit,
    {
        self.scaler_unit
    }

    pub fn set_scaler_unit(&mut self, scaler_unit: Option<ScalerUnit>)
        ensures
            final(self)@ == (ExtendedRegisterView { scaler_unit, ..old(self)@ }),
    {
        self.scaler_unit = scaler_unit;
    }

    pub fn status(&self) -> (r: Option<Vec<u8>>)
        ensures
            opt_bytes(r) == self@.status,
    {
        copy_opt_bytes(&self.status)
    }

    pub fn set_status(&mut self, status: Option<Vec<u8>>)
        ensures
            final(self)@ == (ExtendedRegisterView { status: opt_bytes(status), ..old(self)@ }),
    {
        self.status = status;
    }

    pub fn capture_time(&self) -> (r: Option<CosemDateTime>)
        ensures
            r == self@.capture_time,
    {
        self.capture_time
    }

    pub fn set_capture_time(&mut self, time: Option<CosemDateTime>)
        ensures
            final(self)@ == (ExtendedRegisterView { capture_time: time, ..old(self)@ }),
    {
        self.capture_time = time;
    }

    /// Sets the value (stamping the capture time) and, when a status is
    /// given, the status; without one the status stays.
    pub fn update(&mut self, new_value: i64, new_status: Option<Vec<u8>>)
        ensures
            final(self)@ == (ExtendedRegisterView {
                value: new_value,
                capture_time: Some(start_of_2024()),
                status: if new_status is Some { opt_bytes(new_status) } else { old(self)@.status },
                ..old(self)@
            }),
    {
        self.set_value(new_value);
        if let Some(status) = new_status {
            self.status = Some(status);
        }
    }
}

impl CosemObject for ExtendedRegister {
    fn class_id(&self) -> (r: u16)
        ensures
            r == 4,
    {
        Self::CLASS_ID
    }

    fn obis_code(&self) -> (r: ObisCode)
        ensures
            r == self@.logical_name,
    {
        self.logical_name
    }

    fn get_attribute(
        &self,
        attribute_id: u8,
        selective_access: Option<&SelectiveAccessDescriptor>,
    ) -> (r: DlmsResult<DataObject>)
        ensures
            match attribute_id {
                1 => ok_octets(r, self@.logical_name.spec_bytes()),
                2 => yields(r, DataObject::Integer64(self@.value)),
                3 => r matches Ok(d) && is_optional_scaler_unit(d, self@.scaler_unit),
                4 => r matches Ok(d) && is_optional_octets(d, self@.status),
                5 => r matches Ok(d) && is_optional_date_time(d, self@.capture_time),
                _ => invalid(r),
            },
    {
        match attribute_id {
            1 => Ok(DataObject::OctetString(self.logical_name.to_bytes())),
            2 => Ok(DataObject::Integer64(self.value)),
            3 => Ok(encode_optional_scaler_unit(&self.scaler_unit)),
            4 => match self.status() {
                Some(bytes) => Ok(DataObject::OctetString(bytes)),
                None => Ok(DataObject::Null),
            },
            5 => Ok(encode_optional_date_time(&self.capture_time)),
            _ => Err(invalid_data_number("Extended Register has no attribute ", attribute_id as u64)),
        }
    }

    /// Writing the value stamps the capture time (see `set_value`); the
    /// scaler-unit, status and capture time may be cleared with `Null`; the
    /// capture time is read from an octet string of at least twelve bytes.
    fn set_attribute(
        &mut self,
        attribute_id: u8,
        value: DataObject,
        selective_access: Option<&SelectiveAccessDescriptor>,
    ) -> (r: DlmsResult<()>)
        ensures
            r is Err ==> final(self)@ == old(self)@,
            match attribute_id {
                1 => denied(r),
                2 => match value {
                    DataObject::Integer64(v) => r is Ok && final(self)@ == (ExtendedRegisterView {
                        value: v,
                        capture_time: Some(start_of_2024()),
                        ..old(self)@
                    }),
                    _ => invalid(r),
                },
                3 => match value {
                    DataObject::Null => r is Ok && final(self)@ == (ExtendedRegisterView { scaler_unit: None, ..old(self)@ }),
                    _ => match ScalerUnit::spec_from_data_object(value) {
                        Some(su) => r is Ok && final(self)@ == (ExtendedRegisterView { scaler_unit: Some(su), ..old(self)@ }),
                        None => invalid(r),
                    },
                },
                4 => match value {
                    DataObject::OctetString(b) => r is Ok && final(self)@ == (ExtendedRegisterView { status: Some(b@), ..old(self)@ }),
                    DataObject::Null => r is Ok && final(self)@ == (ExtendedRegisterView { status: None, ..old(self)@ }),
                    _ => invalid(r),
                },
                5 => match value {
                    DataObject::OctetString(b) if b@.len() >= 12 => r is Ok && final(self)@ == (ExtendedRegisterView {
                        capture_time: Some(CosemDateTime::spec_decode(b@)),
                        ..old(self)@
                    }),
                    DataObject::Null => r is Ok && final(self)@ == (ExtendedRegisterView { capture_time: None, ..old(self)@ }),
                    _ => invalid(r),
                },
                _ => invalid(r),
            },
    {
        match attribute_id {
            1 => Err(access_denied("Attribute 1 (logical_name) is read-only")),
            2 => match value {
                DataObject::Integer64(v) => {
                    self.set_value(v);
                    Ok(())
                },
                _ => Err(invalid_data("Expected Integer64 for value")),
            },
            3 => match value {
                DataObject::Null => {
                    self.scaler_unit = None;
                    Ok(())
                },
                v => match ScalerUnit::from_data_object(&v) {
                    Ok(su) => {
                        self.scaler_unit = Some(su);
                        Ok(())
                    },
                    Err(e) => Err(e),
                },
            },
            4 => match value {
                DataObject::OctetString(bytes) => {
                    self.status = Some(bytes);
                    Ok(())
                },
                DataObject::Null => {
                    self.status = None;
                    Ok(())
                },
                _ => Err(invalid_data("Expected octet string or Null for status")),
            },
            5 => match value {
                DataObject::OctetString(bytes) => {
                    if bytes.len() < 12 {
                        return Err(invalid_data("Expected octet string or Null for capture_time"));
                    }
                    match CosemDateTime::decode(bytes.as_slice()) {
                        Ok(dt) => {
                            self.capture_time = Some(dt);
                            Ok(())
                        },
                        Err(e) => Err(e),
                    }
                },
                DataObject::Null => {
                    self.capture_time = None;
                    Ok(())
                },
                _ => Err(invalid_data("Expected octet string or Null for capture_time")),
            },
            _ => Err(invalid_data_number("Extended Register has no attribute ", attribute_id as u64)),
        }
    }

    /// The class has no methods.
    fn invoke_method(
        &mut self,
        method_id: u8,
        parameters: Option<DataObject>,
        selective_access: Option<&SelectiveAccessDescriptor>,
    ) -> (r: DlmsResult<Option<DataObject>>)
        ensures
            invalid(r),
            final(self)@ == old(self)@,
    {
        Err(invalid_data_number("Extended Register has no method ", method_id as u64))
    }
}

} // verus!
