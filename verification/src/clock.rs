//! Clock interface class (class id 8): the meter's real-time clock, its
//! time zone, status and daylight-saving settings.
use vstd::prelude::*;
use crate::cosem_object::{denied, invalid, yields, CosemObject};
use crate::data_object::{is_octets, ok_octets, DataObject};
use crate::datetime::{CosemDate, CosemDateTime, DAY_OF_WEEK_UNSPECIFIED, DEVIATION_UNSPECIFIED};
use crate::error::{access_denied, invalid_data, invalid_data_number, DlmsError, DlmsResult};
use crate::obis::ObisCode;
use crate::selective_access::SelectiveAccessDescriptor;

verus! {

/// The state of a [`Clock`].
pub struct ClockView {
    pub logical_name: ObisCode,
    pub time: CosemDateTime,
    pub time_zone: i16,
    pub status: u8,
    pub daylight_savings_begin: Option<CosemDate>,
    pub daylight_savings_end: Option<CosemDate>,
    pub daylight_savings_deviation: i16,
    pub daylight_savings_enabled: bool,
    pub clock_base: u8,
}

/// A fresh clock: no daylight-saving dates, a deviation of 60 minutes,
/// daylight saving off and clock base 0.
pub open spec fn clock_defaults(logical_name: ObisCode, time: CosemDateTime, time_zone: i16, status: u8) -> ClockView {
    ClockView {
        logical_name,
        time,
        time_zone,
        status,
        daylight_savings_begin: None,
        daylight_savings_end: None,
        daylight_savings_deviation: 60,
        daylight_savings_enabled: false,
        clock_base: 0,
    }
}

/// 2024-01-01 00:00:00.00, day of week and deviation not specified, no
/// status bits.
pub open spec fn start_of_2024() -> CosemDateTime {
    CosemDateTime {
        date: CosemDate { year: 2024, month: 1, day: 1, day_of_week: DAY_OF_WEEK_UNSPECIFIED },
        hour: 0,
        minute: 0,
        second: 0,
        hundredths: 0,
        deviation: DEVIATION_UNSPECIFIED,
        clock_status: 0,
    }
}

/// The date-time value of [`start_of_2024`].
pub fn start_of_2024_stamp() -> (r: CosemDateTime)
    ensures
        r == start_of_2024(),
{
    CosemDateTime {
        date: CosemDate { year: 2024, month: 1, day: 1, day_of_week: DAY_OF_WEEK_UNSPECIFIED },
        hour: 0,
        minute: 0,
        second: 0,
        hundredths: 0,
        deviation: DEVIATION_UNSPECIFIED,
        clock_status: 0,
    }
}

/// `d` is `Null` for no date and the five-byte encoding of the date otherwise.
pub open spec fn is_optional_date(d: DataObject, o: Option<CosemDate>) -> bool {
    match o {
        None => d == DataObject::Null,
        Some(x) => is_octets(d, x.spec_encode()),
    }
}

/// Clock interface class (class id 8).
pub struct Clock {
    logical_name: ObisCode,
    time: CosemDateTime,
    time_zone: i16,
    status: u8,
    daylight_savings_begin: Option<CosemDate>,
    daylight_savings_end: Option<CosemDate>,
    daylight_savings_deviation: i16,
    daylight_savings_enabled: bool,
    clock_base: u8,
}

impl View for Clock {
    type V = ClockView;

    closed spec fn view(&self) -> ClockView {
        ClockView {
            logical_name: self.logical_name,
            time: self.time,
            time_zone: self.time_zone,
            status: self.status,
            daylight_savings_begin: self.daylight_savings_begin,
            daylight_savings_end: self.daylight_savings_end,
            daylight_savings_deviation: self.daylight_savings_deviation,
            daylight_savings_enabled: self.daylight_savings_enabled,
            clock_base: self.clock_base,
        }
    }
}

fn encode_optional_date(o: &Option<CosemDate>) -> (r: DataObject)
    ensures
        is_optional_date(r, *o),
{
    match o {
        Some(date) => DataObject::OctetString(date.encode()),
        None => DataObject::Null,
    }
}

impl Clock {
    pub const CLASS_ID: u16 = 8;
    pub const ATTR_LOGICAL_NAME: u8 = 1;
    pub const ATTR_TIME: u8 = 2;
    pub const ATTR_TIME_ZONE: u8 = 3;
    pub const ATTR_STATUS: u8 = 4;
    pub const ATTR_DAYLIGHT_SAVINGS_BEGIN: u8 = 5;
    pub const ATTR_DAYLIGHT_SAVINGS_END: u8 = 6;
    pub const ATTR_DAYLIGHT_SAVINGS_DEVIATION: u8 = 7;
    pub const ATTR_DAYLIGHT_SAVINGS_ENABLED: u8 = 8;
    pub const ATTR_CLOCK_BASE: u8 = 9;
    pub const METHOD_ADJUST_TIME: u8 = 1;
    pub const METHOD_ADJUST_TIME_TO_TIMEZONE: u8 = 2;

    /// Default OBIS code 0-0:1.0.0.255.
    pub fn default_obis() -> (r: ObisCode)
        ensures
            r == (ObisCode { a: 0, b: 0, c: 1, d: 0, e: 0, f: 255 }),
    {
        ObisCode::new(0, 0, 1, 0, 0, 255)
    }

    pub fn new(logical_name: ObisCode, time: CosemDateTime, time_zone: i16, status: u8) -> (r: Clock)
        ensures
            r@ == clock_defaults(logical_name, time, time_zone, status),
    {
        Clock {
            logical_name,
            time,
            time_zone,
            status,
            daylight_savings_begin: None,
            daylight_savings_end: None,
            daylight_savings_deviation: 60,
            daylight_savings_enabled: false,
            clock_base: 0,
        }
    }

    /// The default OBIS code, set to 2024-01-01 00:00:00 in UTC with no
    /// status bits.
    pub fn with_default_obis() -> (r: Clock)
        ensures
            r@ == clock_defaults(ObisCode { a: 0, b: 0, c: 1, d: 0, e: 0, f: 255 }, start_of_2024(), 0, 0),
    {
        Self::new(Self::default_obis(), start_of_2024_stamp(), 0, 0)
    }

    pub fn time(&self) -> (r: CosemDateTime)
        ensures
            r == self@.time,
    {
        self.time
    }

    pub fn set_time(&mut self, time: CosemDateTime)
        ensures
            final(self)@ == (ClockView { time, ..old(self)@ }),
    {
        self.time = time;
    }

    pub fn time_zone(&self) -> (r: i16)
        ensures
            r == self@.time_zone,
    {
        self.time_zone
    }

    pub fn set_time_zone(&mut self, offset: i16)
        ensures
            final(self)@ == (ClockView { time_zone: offset, ..old(self)@ }),
    {
        self.time_zone = offset;
    }

    pub fn status(&self) -> (r: u8)
        ensures
            r == self@.status,
    {
        self.status
    }

    pub fn set_status(&mut self, status: u8)
        ensures
            final(self)@ == (ClockView { status, ..old(self)@ }),
    {
        self.status = status;
    }

    pub fn daylight_savings_begin(&self) -> (r: Option<CosemDate>)
        ensures
            r == self@.daylight_savings_begin,
    {
        self.daylight_savings_begin
    }

    pub fn set_daylight_savings_begin(&mut self, date: Option<CosemDate>)
        ensures
            final(self)@ == (ClockView { daylight_savings_begin: date, ..old(self)@ }),
    {
        self.daylight_savings_begin = date;
    }

    pub fn daylight_savings_end(&self) -> (r: Option<CosemDate>)
        ensures
            r == self@.daylight_savings_end,
    {
        self.daylight_savings_end
    }

    pub fn set_daylight_savings_end(&mut self, date: Option<CosemDate>)
        ensures
            final(self)@ == (ClockView { daylight_savings_end: date, ..old(self)@ }),
    {
        self.daylight_savings_end = date;
    }

    pub fn daylight_savings_deviation(&self) -> (r: i16)
        ensures
            r == self@.daylight_savings_deviation,
    {
        self.daylight_savings_deviation
    }

    pub fn set_daylight_savings_deviation(&mut self, deviation: i16)
        ensures
            final(self)@ == (ClockView { daylight_savings_deviation: deviation, ..old(self)@ }),
    {
        self.daylight_savings_deviation = deviation;
    }

    pub fn daylight_savings_enabled(&self) -> (r: bool)
        ensures
            r == self@.daylight_savings_enabled,
    {
        self.daylight_savings_enabled
    }

    pub fn set_daylight_savings_enabled(&mut self, enabled: bool)
        ensures
            final(self)@ == (ClockView { daylight_savings_enabled: enabled, ..old(self)@ }),
    {
        self.daylight_savings_enabled = enabled;
    }

    pub fn clock_base(&self) -> (r: u8)
        ensures
            r == self@.clock_base,
    {
        self.clock_base
    }

    pub fn set_clock_base(&mut self, base: u8)
        ensures
            final(self)@ == (ClockView { clock_base: base, ..old(self)@ }),
    {
        self.clock_base = base;
    }

    /// Sets the clock to `new_time` (method 1).
    pub fn adjust_time(&mut self, new_time: CosemDateTime) -> (r: DlmsResult<()>)
        ensures
            r is Ok,
            final(self)@ == (ClockView { time: new_time, ..old(self)@ }),
    {
        self.time = new_time;
        Ok(())
    }

    /// Sets the time zone to `time_zone` (method 2).
    pub fn adjust_time_to_timezone(&mut self, time_zone: i16) -> (r: DlmsResult<()>)
        ensures
            r is Ok,
            final(self)@ == (ClockView { time_zone, ..old(self)@ }),
    {
        self.time_zone = time_zone;
        Ok(())
    }
}

impl CosemObject for Clock {
    fn class_id(&self) -> (r: u16)
        ensures
            r == 8,
    {
        Self::CLASS_ID
    }

    fn obis_code(&self) -> (r: ObisCode)
        ensures
            r == self@.logical_name,
    {
        self.logical_name
    }

    fn get_attribute(
        &self,
        attribute_id: u8,
        selective_access: Option<&SelectiveAccessDescriptor>,
    ) -> (r: DlmsResult<DataObject>)
        ensures
            match attribute_id {
                1 => ok_octets(r, self@.logical_name.spec_bytes()),
                2 => ok_octets(r, self@.time.spec_encode()),
                3 => yields(r, DataObject::Integer16(self@.time_zone)),
                4 => yields(r, DataObject::Unsigned8(self@.status)),
                5 => r matches Ok(d) && is_optional_date(d, self@.daylight_savings_begin),
                6 => r matches Ok(d) && is_optional_date(d, self@.daylight_savings_end),
                7 => yields(r, DataObject::Integer16(self@.daylight_savings_deviation)),
                8 => yields(r, DataObject::Boolean(self@.daylight_savings_enabled)),
                9 => yields(r, DataObject::Unsigned8(self@.clock_base)),
                _ => invalid(r),
            },
    {
        match attribute_id {
            1 => Ok(DataObject::OctetString(self.logical_name.to_bytes())),
            2 => Ok(DataObject::OctetString(self.time.encode())),
            3 => Ok(DataObject::Integer16(self.time_zone)),
            4 => Ok(DataObject::Unsigned8(self.status)),
            5 => Ok(encode_optional_date(&self.daylight_savings_begin)),
            6 => Ok(encode_optional_date(&self.daylight_savings_end)),
            7 => Ok(DataObject::Integer16(self.daylight_savings_deviation)),
            8 => Ok(DataObject::Boolean(self.daylight_savings_enabled)),
            9 => Ok(DataObject::Unsigned8(self.clock_base)),
            _ => Err(invalid_data_number("Clock interface class has no attribute ", attribute_id as u64)),
        }
    }

    /// The time is written from an octet string of at least twelve bytes,
    /// a daylight-saving date from one of at least five bytes or from `Null`.
    fn set_attribute(
        &mut self,
        attribute_id: u8,
        value: DataObject,
        selective_access: Option<&SelectiveAccessDescriptor>,
    ) -> (r: DlmsResult<()>)
        ensures
            r is Err ==> final(self)@ == old(self)@,
            match attribute_id {
                1 => denied(r),
                2 => match value {
                    DataObject::OctetString(b) if b@.len() >= 12 => r is Ok && final(self)@ == (ClockView {
                        time: CosemDateTime::spec_decode(b@),
                        ..old(self)@
                    }),
                    _ => invalid(r),
                },
                3 => match value {
                    DataObject::Integer16(v) => r is Ok && final(self)@ == (ClockView { time_zone: v, ..old(self)@ }),
                    _ => invalid(r),
                },
                4 => match value {
                    DataObject::Unsigned8(v) => r is Ok && final(self)@ == (ClockView { status: v, ..old(self)@ }),
                    _ => invalid(r),
                },
                5 => match value {
                    DataObject::OctetString(b) if b@.len() >= 5 => r is Ok && final(self)@ == (ClockView {
                        daylight_savings_begin: Some(CosemDate::spec_decode(b@)),
                        ..old(self)@
                    }),
                    DataObject::Null => r is Ok && final(self)@ == (ClockView {
                        daylight_savings_begin: None,
                        ..old(self)@
                    }),
                    _ => invalid(r),
                },
                6 => match value {
                    DataObject::OctetString(b) if b@.len() >= 5 => r is Ok && final(self)@ == (ClockView {
                        daylight_savings_end: Some(CosemDate::spec_decode(b@)),
                        ..old(self)@
                    }),
                    DataObject::Null => r is Ok && final(self)@ == (ClockView {
                        daylight_savings_end: None,
                        ..old(self)@
                    }),
                    _ => invalid(r),
                },
                7 => match value {
                    DataObject::Integer16(v) => r is Ok && final(self)@ == (ClockView {
                        daylight_savings_deviation: v,
                        ..old(self)@
                    }),
                    _ => invalid(r),
                },
                8 => match value {
                    DataObject::Boolean(v) => r is Ok && final(self)@ == (ClockView {
                        daylight_savings_enabled: v,
                        ..old(self)@
                    }),
                    _ => invalid(r),
                },
                9 => match value {
                    DataObject::Unsigned8(v) => r is Ok && final(self)@ == (ClockView { clock_base: v, ..old(self)@ }),
                    _ => invalid(r),
                },
                _ => invalid(r),
            },
    {
        match attribute_id {
            1 => Err(access_denied("Attribute 1 (logical_name) is read-only")),
            2 => {
                if let DataObject::OctetString(bytes) = value {
                    if bytes.len() >= 12 {
                        match CosemDateTime::decode(bytes.as_slice()) {
                            Ok(dt) => {
                                self.time = dt;
                                return Ok(());
                            },
                            Err(e) => return Err(e),
                        }
                    }
                }
                Err(invalid_data("Expected 12-byte octet string for time"))
            },
            3 => match value {
                DataObject::Integer16(tz) => {
                    self.time_zone = tz;
                    Ok(())
                },
                _ => Err(invalid_data("Expected Integer16 for time_zone")),
            },
            4 => match value {
                DataObject::Unsigned8(status) => {
                    self.status = status;
                    Ok(())
                },
                _ => Err(invalid_data("Expected Unsigned8 for status")),
            },
            5 => match value {
                DataObject::OctetString(bytes) if bytes.len() >= 5 => {
                    match CosemDate::decode(bytes.as_slice()) {
                        Ok(date) => {
                            self.daylight_savings_begin = Some(date);
                            Ok(())
                        },
                        Err(e) => Err(e),
                    }
                },
                DataObject::Null => {
                    self.daylight_savings_begin = None;
                    Ok(())
                },
                _ => Err(invalid_data("Expected octet string or Null for dst_begin")),
            },
            6 => match value {
                DataObject::OctetString(bytes) if bytes.len() >= 5 => {
                    match CosemDate::decode(bytes.as_slice()) {
                        Ok(date) => {
                            self.daylight_savings_end = Some(date);
                            Ok(())
                        },
                        Err(e) => Err(e),
                    }
                },
                DataObject::Null => {
                    self.daylight_savings_end = None;
                    Ok(())
                },
                _ => Err(invalid_data("Expected octet string or Null for dst_end")),
            },
            7 => match value {
                DataObject::Integer16(dev) => {
                    self.daylight_savings_deviation = dev;
                    Ok(())
                },
                _ => Err(invalid_data("Expected Integer16 for dst_deviation")),
            },
            8 => match value {
                DataObject::Boolean(enabled) => {
                    self.daylight_savings_enabled = enabled;
                    Ok(())
                },
                _ => Err(invalid_data("Expected Boolean for dst_enabled")),
            },
            9 => match value {
                DataObject::Unsigned8(base) => {
                    self.clock_base = base;
                    Ok(())
                },
                _ => Err(invalid_data("Expected Unsigned8 for clock_base")),
            },
            _ => Err(invalid_data_number("Clock interface class has no attribute ", attribute_id as u64)),
        }
    }

    /// Method 1 takes the new time as an octet string of at least twelve
    /// bytes; method 2 takes the new time zone as an `Integer16`.
    fn invoke_method(
        &mut self,
        method_id: u8,
        parameters: Option<DataObject>,
        selective_access: Option<&SelectiveAccessDescriptor>,
    ) -> (r: DlmsResult<Option<DataObject>>)
        ensures
            r is Err ==> invalid(r) && final(self)@ == old(self)@,
            r is Ok ==> r == Ok::<Option<DataObject>, DlmsError>(None),
            method_id == 1 ==> match parameters {
                Some(DataObject::OctetString(b)) if b@.len() >= 12 => r is Ok && final(self)@ == (ClockView {
                    time: CosemDateTime::spec_decode(b@),
                    ..old(self)@
                }),
                _ => r is Err,
            },
            method_id == 2 ==> match parameters {
                Some(DataObject::Integer16(tz)) => r is Ok && final(self)@ == (ClockView { time_zone: tz, ..old(self)@ }),
                _ => r is Err,
            },
            method_id != 1 && method_id != 2 ==> r is Err,
    {
        match method_id {
            1 => {
                if let Some(DataObject::OctetString(bytes)) = parameters {
                    if bytes.len() >= 12 {
                        match CosemDateTime::decode(bytes.as_slice()) {
                            Ok(dt) => {
                                self.time = dt;
                                return Ok(None);
                            },
                            Err(e) => return Err(e),
                        }
                    }
                }
                Err(invalid_data("Method 1 requires a 12-byte date/time parameter"))
            },
            2 => {
                if let Some(DataObject::Integer16(tz)) = parameters {
                    self.time_zone = tz;
                    return Ok(None);
                }
                Err(invalid_data("Method 2 requires an Integer16 timezone parameter"))
            },
            _ => Err(invalid_data_number("Clock interface class has no method ", method_id as u64)),
        }
    }
}

} // verus!
