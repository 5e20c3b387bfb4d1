//! Demand Register interface class (class id 5): a register that follows a
//! demand value over periods of a given length.
use vstd::prelude::*;
use crate::clock::{start_of_2024, start_of_2024_stamp};
use crate::cosem_object::{denied, invalid, yields, CosemObject};
use crate::data_object::{copy_opt_bytes, is_optional_octets, ok_octets, opt_bytes, DataObject};
use crate::datetime::{encode_optional_date_time, is_optional_date_time, CosemDateTime};
use crate::error::{access_denied, invalid_data, invalid_data_number, DlmsResult};
use crate::obis::ObisCode;
use crate::scaler_unit::{encode_optional_scaler_unit, is_optional_scaler_unit, ScalerUnit};
use crate::selective_access::SelectiveAccessDescriptor;

verus! {

/// The state of a [`DemandRegister`].
pub struct DemandRegisterView {
    pub logical_name: ObisCode,
    pub current_value: i64,
    pub scaler_unit: Option<ScalerUnit>,
    pub status: Option<Seq<u8>>,
    pub capture_time: Option<CosemDateTime>,
    pub start_time: Option<CosemDateTime>,
    pub period: u32,
    pub number_of_periods: Option<u32>,
}

/// The state after the value `value` was captured: the value and the capture
/// time are set, and the status becomes `[0x01]` when the value changed.
pub open spec fn after_capture(v: DemandRegisterView, value: i64) -> DemandRegisterView {
    DemandRegisterView {
        current_value: value,
        capture_time: Some(start_of_2024()),
        status: if value != v.current_value { Some(seq![1u8]) } else { v.status },
        ..v
    }
}

/// `d` is `Null` for no count and `Unsigned32` of it otherwise.
pub open spec fn is_optional_count(d: DataObject, o: Option<u32>) -> bool {
    match o {
        None => d == DataObject::Null,
        Some(n) => d == DataObject::Unsigned32(n),
    }
}

/// Demand Register interface class (class id 5).
pub struct DemandRegister {
    logical_name: ObisCode,
    current_value: i64,
    scaler_unit: Option<ScalerUnit>,
    status: Option<Vec<u8>>,
    capture_time: Option<CosemDateTime>,
    start_time: Option<CosemDateTime>,
    period: u32,
    number_of_periods: Option<u32>,
}

impl View for DemandRegister {
    type V = DemandRegisterView;

    closed spec fn view(&self) -> DemandRegisterView {
        DemandRegisterView {
            logical_name: self.logical_name,
            current_value: self.current_value,
            scaler_unit: self.scaler_unit,
            status: opt_bytes(self.status),
            capture_time: self.capture_time,
            start_time: self.start_time,
            period: self.period,
            number_of_periods: self.number_of_periods,
        }
    }
}

impl DemandRegister {
    pub const CLASS_ID: u16 = 5;
    pub const ATTR_LOGICAL_NAME: u8 = 1;
    pub const ATTR_CURRENT_VALUE: u8 = 2;
    pub const ATTR_SCALER_UNIT: u8 = 3;
    pub const ATTR_STATUS: u8 = 4;
    pub const ATTR_CAPTURE_TIME: u8 = 5;
    pub const ATTR_START_TIME: u8 = 6;
    pub const ATTR_PERIOD: u8 = 7;
    pub const ATTR_NUMBER_OF_PERIODS: u8 = 8;

    /// Default OBIS code 1-0:14.0.0.255.
    pub fn default_obis() -> (r: ObisCode)
        ensures
            r == (ObisCode { a: 1, b: 0, c: 14, d: 0, e: 0, f: 255 }),
    {
        ObisCode::new(1, 0, 14, 0, 0, 255)
    }

    /// A register with the given value, period and scaler-unit, and no
    /// status, capture time, start time or period count.
    pub fn new(logical_name: ObisCode, current_value: i64, period: u32, scaler_unit: Option<ScalerUnit>) -> (r: DemandRegister)
        ensures
            r@ == (DemandRegisterView {
                logical_name,
                current_value,
                scaler_unit,
                status: None,
                capture_time: None,
                start_time: None,
                period,
                number_of_periods: None,
            }),
    {
        DemandRegister {
            logical_name,
            current_value,
            scaler_unit,
            status: None,
            capture_time: None,
            start_time: None,
            period,
            number_of_periods: None,
        }
    }

    /// The default OBIS code, value 0 and no scaler-unit.
    pub fn with_default_obis(period: u32) -> (r: DemandRegister)
        ensures
            r@ == (DemandRegisterView {
                logical_name: ObisCode { a: 1, b: 0, c: 14, d: 0, e: 0, f: 255 },
                current_value: 0,
                scaler_unit: None,
                status: None,
                capture_time: None,
                start_time: None,
                period,
                number_of_periods: None,
            }),
    {
        Self::new(Self::default_obis(), 0, period, None)
    }

    pub fn current_value(&self) -> (r: i64)
        ensures
            r == self@.current_value,
    {
        self.current_value
    }

    /// Captures `value`: stamps the capture time and marks the status
    /// `[0x01]` when the value changed.
    pub fn set_current_value(&mut self, value: i64)
        ensures
            final(self)@ == after_capture(old(self)@, value),
    {
        let previous = self.current_value;
        self.current_value = value;
        self.capture_time = Some(start_of_2024_stamp());
        if value != previous {
            let mut status: Vec<u8> = Vec::new();
            status.push(0x01);
            self.status = Some(status);
        }
        proof {
            if value != previous {
                assert(opt_bytes(self.status) == Some(seq![1u8]));
            }
        }
    }

    pub fn scaler_unit(&self) -> (r: Option<ScalerUnit>)
        ensures
            r == self@.scaler_unit,
    {
        self.scaler_unit
    }

    pub fn set_scaler_unit(&mut self, scaler_unit: Option<ScalerUnit>)
        ensures
            final(self)@ == (DemandRegisterView { scaler_unit, ..old(self)@ }),
    {
        self.scaler_unit = scaler_unit;
    }

    pub fn status(&self) -> (r: Option<Vec<u8>>)
        ensures
            opt_bytes(r) == self@.status,
    {
        copy_opt_bytes(&self.status)
    }

    pub fn set_status(&mut self, status: Option<Vec<u8>>)
        ensures
            final(self)@ == (DemandRegisterView { status: opt_bytes(status), ..old(self)@ }),
    {
        self.status = status;
    }

    pub fn capture_time(&self) -> (r: Option<CosemDateTime>)
        ensures
            r == self@.capture_time,
    {
        self.capture_time
    }

    pub fn set_capture_time(&mut self, time: Option<CosemDateTime>)
        ensures
            final(self)@ == (DemandRegisterView { capture_time: time, ..old(self)@ }),
    {
        self.capture_time = time;
    }

    pub fn start_time(&self) -> (r: Option<CosemDateTime>)
        ensures
            r == self@.start_time,
    {
        self.start_time
    }

    pub fn set_start_time(&mut self, time: Option<CosemDateTime>)
        ensures
            final(self)@ == (DemandRegisterView { start_time: time, ..old(self)@ }),
    {
        self.start_time = time;
    }

    pub fn period(&self) -> (r: u32)
        ensures
            r == self@.period,
    {
        self.period
    }

    pub fn set_period(&mut self, period: u32)
        ensures
            final(self)@ == (DemandRegisterView { period, ..old(self)@ }),
    {
        self.period = period;
    }

    pub fn number_of_periods(&self) -> (r: Option<u32>)
        ensures
            r == self@.number_of_periods,
    {
        self.number_of_periods
    }

    pub fn set_number_of_periods(&mut self, count: Option<u32>)
        ensures
            final(self)@ == (DemandRegisterView { number_of_periods: count, ..old(self)@ }),
    {
        self.number_of_periods = count;
    }

    /// Starts a new demand period: the start time is stamped and the value
    /// returns to 0.
    pub fn start_period(&mut self) -> (r: DlmsResult<()>)
        ensures
            r is Ok,
            final(self)@ == (DemandRegisterView {
                start_time: Some(start_of_2024()),
                current_value: 0,
                ..old(self)@
            }),
    {
        self.start_time = Some(start_of_2024_stamp());
        self.current_value = 0;
        Ok(())
    }

    /// Clears the value, the start and capture times and the status.
    pub fn reset(&mut self) -> (r: DlmsResult<()>)
        ensures
            r is Ok,
            final(self)@ == (DemandRegisterView {
                current_value: 0,
                start_time: None,
                status: None,
                capture_time: None,
                ..old(self)@
            }),
    {
        self.current_value = 0;
        self.start_time = None;
        self.status = None;
        self.capture_time = None;
        Ok(())
    }
}

impl CosemObject for DemandRegister {
    fn class_id(&self) -> (r: u16)
        ensures
            r == 5,
    {
        Self::CLASS_ID
    }

    fn obis_code(&self) -> (r: ObisCode)
        ensures
            r == self@.logical_name,
    {
        self.logical_name
    }

    fn get_attribute(
        &self,
        attribute_id: u8,
        selective_access: Option<&SelectiveAccessDescriptor>,
    ) -> (r: DlmsResult<DataObject>)
        ensures
            match attribute_id {
                1 => ok_octets(r, self@.logical_name.spec_bytes()),
                2 => yields(r, DataObject::Integer64(self@.current_value)),
                3 => r matches Ok(d) && is_optional_scaler_unit(d, self@.scaler_unit),
                4 => r matches Ok(d) && is_optional_octets(d, self@.status),
                5 => r matches Ok(d) && is_optional_date_time(d, self@.capture_time),
                6 => r matches Ok(d) && is_optional_date_time(d, self@.start_time),
                7 => yields(r, DataObject::Unsigned32(self@.period)),
                8 => r matches Ok(d) && is_optional_count(d, self@.number_of_periods),
                _ => invalid(r),
            },
    {
        match attribute_id {
            1 => Ok(DataObject::OctetString(self.logical_name.to_bytes())),
            2 => Ok(DataObject::Integer64(self.current_value)),
            3 => Ok(encode_optional_scaler_unit(&self.scaler_unit)),
            4 => match self.status() {
                Some(bytes) => Ok(DataObject::OctetString(bytes)),
                None => Ok(DataObject::Null),
            },
            5 => Ok(encode_optional_date_time(&self.capture_time)),
            6 => Ok(encode_optional_date_time(&self.start_time)),
            7 => Ok(DataObject::Unsigned32(self.period)),
            8 => match self.number_of_periods {
                Some(count) => Ok(DataObject::Unsigned32(count)),
                None => Ok(DataObject::Null),
            },
            _ => Err(invalid_data_number("Demand Register has no attribute ", attribute_id as u64)),
        }
    }

    /// Writing the value is a capture (see `set_current_value`); the
    /// scaler-unit, status, times and period count may also be cleared with
    /// `Null`; a time is read from an octet string of at least twelve bytes.
    fn set_attribute(
        &mut self,
        attribute_id: u8,
        value: DataObject,
        selective_access: Option<&SelectiveAccessDescriptor>,
    ) -> (r: DlmsResult<()>)
        ensures
            r is Err ==> final(self)@ == old(self)@,
            match attribute_id {
                1 => denied(r),
                2 => match value {
                    DataObject::Integer64(v) => r is Ok && final(self)@ == after_capture(old(self)@, v),
                    _ => invalid(r),
                },
                3 => match value {
                    DataObject::Null => r is Ok && final(self)@ == (DemandRegisterView { scaler_unit: None, ..old(self)@ }),
                    _ => match ScalerUnit::spec_from_data_object(value) {
                        Some(su) => r is Ok && final(self)@ == (DemandRegisterView { scaler_unit: Some(su), ..old(self)@ }),
                        None => invalid(r),
                    },
                },
                4 => match value {
                    DataObject::OctetString(b) => r is Ok && final(self)@ == (DemandRegisterView { status: Some(b@), ..old(self)@ }),
                    DataObject::Null => r is Ok && final(self)@ == (DemandRegisterView { status: None, ..old(self)@ }),
                    _ => invalid(r),
                },
                5 => match value {
                    DataObject::OctetString(b) if b@.len() >= 12 => r is Ok && final(self)@ == (DemandRegisterView {
                        capture_time: Some(CosemDateTime::spec_decode(b@)),
                        ..old(self)@
                    }),
                    DataObject::Null => r is Ok && final(self)@ == (DemandRegisterView { capture_time: None, ..old(self)@ }),
                    _ => invalid(r),
                },
                6 => match value {
                    DataObject::OctetString(b) if b@.len() >= 12 => r is Ok && final(self)@ == (DemandRegisterView {
                        start_time: Some(CosemDateTime::spec_decode(b@)),
                        ..old(self)@
                    }),
                    DataObject::Null => r is Ok && final(self)@ == (DemandRegisterView { start_time: None, ..old(self)@ }),
                    _ => invalid(r),
                },
                7 => match value {
                    DataObject::Unsigned32(p) => r is Ok && final(self)@ == (DemandRegisterView { period: p, ..old(self)@ }),
                    _ => invalid(r),
                },
                8 => match value {
                    DataObject::Unsigned32(n) => r is Ok && final(self)@ == (DemandRegisterView {
                        number_of_periods: Some(n),
                        ..old(self)@
                    }),
                    DataObject::Null => r is Ok && final(self)@ == (DemandRegisterView {
                        number_of_periods: None,
                        ..old(self)@
                    }),
                    _ => invalid(r),
                },
                _ => invalid(r),
            },
    {
        match attribute_id {
            1 => Err(access_denied("Attribute 1 (logical_name) is read-only")),
            2 => match value {
                DataObject::Integer64(v) => {
                    self.set_current_value(v);
                    Ok(())
                },
                _ => Err(invalid_data("Expected Integer64 for current_value")),
            },
            3 => match value {
                DataObject::Null => {
                    self.scaler_unit = None;
                    Ok(())
                },
                v => match ScalerUnit::from_data_object(&v) {
                    Ok(su) => {
                        self.scaler_unit = Some(su);
                        Ok(())
                    },
                    Err(e) => Err(e),
                },
            },
            4 => match value {
                DataObject::OctetString(bytes) => {
                    self.status = Some(bytes);
                    Ok(())
                },
                DataObject::Null => {
                    self.status = None;
                    Ok(())
                },
                _ => Err(invalid_data("Expected octet string or Null for status")),
            },
            5 => match value {
                DataObject::OctetString(bytes) => {
                    if bytes.len() < 12 {
                        return Err(invalid_data("Expected octet string or Null for capture_time"));
                    }
                    match CosemDateTime::decode(bytes.as_slice()) {
                        Ok(dt) => {
                            self.capture_time = Some(dt);
                            Ok(())
                        },
                        Err(e) => Err(e),
                    }
                },
                DataObject::Null => {
                    self.capture_time = None;
                    Ok(())
                },
                _ => Err(invalid_data("Expected octet string or Null for capture_time")),
            },
            6 => match value {
                DataObject::OctetString(bytes) => {
                    if bytes.len() < 12 {
                        return Err(invalid_data("Expected octet string or Null for start_time"));
                    }
                    match CosemDateTime::decode(bytes.as_slice()) {
                        Ok(dt) => {
                            self.start_time = Some(dt);
                            Ok(())
                        },
                        Err(e) => Err(e),
                    }
                },
                DataObject::Null => {
                    self.start_time = None;
                    Ok(())
                },
                _ => Err(invalid_data("Expected octet string or Null for start_time")),
            },
            7 => match value {
                DataObject::Unsigned32(p) => {
                    self.period = p;
                    Ok(())
                },
                _ => Err(invalid_data("Expected Unsigned32 for period")),
            },
            8 => match value {
                DataObject::Unsigned32(n) => {
                    self.number_of_periods = Some(n);
                    Ok(())
                },
                DataObject::Null => {
                    self.number_of_periods = None;
                    Ok(())
                },
                _ => Err(invalid_data("Expected Unsigned32 or Null for number_of_periods")),
            },
            _ => Err(invalid_data_number("Demand Register has no attribute ", attribute_id as u64)),
        }
    }

    /// The class has no methods.
    fn invoke_method(
        &mut self,
        method_id: u8,
        parameters: Option<DataObject>,
        selective_access: Option<&SelectiveAccessDescriptor>,
    ) -> (r: DlmsResult<Option<DataObject>>)
        ensures
            invalid(r),
            final(self)@ == old(self)@,
    {
        Err(invalid_data_number("Demand Register has no method ", method_id as u64))
    }
}

} // verus!
