//! Alarm interface class (class id 73): alarm and event notification.
use vstd::prelude::*;
use crate::cosem_object::{denied, invalid, yields, CosemObject};
use crate::data_object::{ok_octets, DataObject};
use crate::error::{access_denied, invalid_data, invalid_data_number, DlmsResult};
use crate::obis::ObisCode;
use crate::selective_access::SelectiveAccessDescriptor;
use crate::time_source::unix_time_now;

verus! {

/// Alarm type.
#[derive(Debug, Clone, Copy, PartialEq, Eq, Structural)]
pub enum AlarmType {
    NoAlarm,
    PowerFailure,
    LowBattery,
    Tamper,
    Overload,
    Underload,
    PhaseLoss,
    Overvoltage,
    Undervoltage,
    Custom,
}

impl AlarmType {
    /// The wire code of the type (`Custom` is 255).
    pub open spec fn spec_to_u8(self) -> u8 {
        match self {
            AlarmType::NoAlarm => 0,
            AlarmType::PowerFailure => 1,
            AlarmType::LowBattery => 2,
            AlarmType::Tamper => 3,
            AlarmType::Overload => 4,
            AlarmType::Underload => 5,
            AlarmType::PhaseLoss => 6,
            AlarmType::Overvoltage => 7,
            AlarmType::Undervoltage => 8,
            AlarmType::Custom => 255,
        }
    }

    /// The type of a wire code; codes above 8 read as `Custom`.
    pub open spec fn spec_from_u8(value: u8) -> AlarmType {
        match value {
            0 => AlarmType::NoAlarm,
            1 => AlarmType::PowerFailure,
            2 => AlarmType::LowBattery,
            3 => AlarmType::Tamper,
            4 => AlarmType::Overload,
            5 => AlarmType::Underload,
            6 => AlarmType::PhaseLoss,
            7 => AlarmType::Overvoltage,
            8 => AlarmType::Undervoltage,
            _ => AlarmType::Custom,
        }
    }

    pub fn from_u8(value: u8) -> (r: AlarmType)
        ensures
            r == AlarmType::spec_from_u8(value),
    {
        match value {
            0 => AlarmType::NoAlarm,
            1 => AlarmType::PowerFailure,
            2 => AlarmType::LowBattery,
            3 => AlarmType::Tamper,
            4 => AlarmType::Overload,
            5 => AlarmType::Underload,
            6 => AlarmType::PhaseLoss,
            7 => AlarmType::Overvoltage,
            8 => AlarmType::Undervoltage,
            _ => AlarmType::Custom,
        }
    }

    pub fn to_u8(self) -> (r: u8)
        ensures
            r == self.spec_to_u8(),
    {
        match self {
            AlarmType::NoAlarm => 0,
            AlarmType::PowerFailure => 1,
            AlarmType::LowBattery => 2,
            AlarmType::Tamper => 3,
            AlarmType::Overload => 4,
            AlarmType::Underload => 5,
            AlarmType::PhaseLoss => 6,
            AlarmType::Overvoltage => 7,
            AlarmType::Undervoltage => 8,
            AlarmType::Custom => 255,
        }
    }

    /// Power failure, tamper and phase loss are critical.
    pub open spec fn spec_is_critical(self) -> bool {
        self == AlarmType::PowerFailure || self == AlarmType::Tamper || self == AlarmType::PhaseLoss
    }

    pub fn is_critical(self) -> (r: bool)
        ensures
            r == self.spec_is_critical(),
    {
        matches!(self, AlarmType::PowerFailure | AlarmType::Tamper | AlarmType::PhaseLoss)
    }
}

/// Every alarm type survives the trip through its wire code.
pub proof fn lemma_alarm_type_code_roundtrip(t: AlarmType)
    ensures
        AlarmType::spec_from_u8(t.spec_to_u8()) == t,
{
}

/// Alarm status.
#[derive(Debug, Clone, Copy, PartialEq, Eq, Structural)]
pub enum AlarmStatus {
    Inactive,
    Active,
    Acknowledged,
    Disabled,
}

impl AlarmStatus {
    pub open spec fn spec_to_u8(self) -> u8 {
        match self {
            AlarmStatus::Inactive => 0,
            AlarmStatus::Active => 1,
            AlarmStatus::Acknowledged => 2,
            AlarmStatus::Disabled => 3,
        }
    }

    /// The status of a wire code; unknown codes read as `Inactive`.
    pub open spec fn spec_from_u8(value: u8) -> AlarmStatus {
        match value {
            1 => AlarmStatus::Active,
            2 => AlarmStatus::Acknowledged,
            3 => AlarmStatus::Disabled,
            _ => AlarmStatus::Inactive,
        }
    }

    pub fn from_u8(value: u8) -> (r: AlarmStatus)
        ensures
            r == AlarmStatus::spec_from_u8(value),
    {
        match value {
            0 => AlarmStatus::Inactive,
            1 => AlarmStatus::Active,
            2 => AlarmStatus::Acknowledged,
            3 => AlarmStatus::Disabled,
            _ => AlarmStatus::Inactive,
        }
    }

    pub fn to_u8(self) -> (r: u8)
        ensures
            r == self.spec_to_u8(),
    {
        match self {
            AlarmStatus::Inactive => 0,
            AlarmStatus::Active => 1,
            AlarmStatus::Acknowledged => 2,
            AlarmStatus::Disabled => 3,
        }
    }

    pub fn is_active(self) -> (r: bool)
        ensures
            r == (self == AlarmStatus::Active),
    {
        matches!(self, AlarmStatus::Active)
    }

    pub fn is_inactive(self) -> (r: bool)
        ensures
            r == (self == AlarmStatus::Inactive),
    {
        matches!(self, AlarmStatus::Inactive)
    }

    /// Every status but `Disabled` lets the alarm trigger.
    pub fn can_trigger(self) -> (r: bool)
        ensures
            r == (self != AlarmStatus::Disabled),
    {
        !matches!(self, AlarmStatus::Disabled)
    }
}

/// Every alarm status survives the trip through its wire code.
pub proof fn lemma_alarm_status_code_roundtrip(s: AlarmStatus)
    ensures
        AlarmStatus::spec_from_u8(s.spec_to_u8()) == s,
{
}

/// The state of an [`Alarm`].
pub struct AlarmView {
    pub logical_name: ObisCode,
    pub alarm_type: AlarmType,
    pub alarm_status: AlarmStatus,
    pub alarm_value: i64,
    pub alarm_threshold: i64,
    pub alarm_time: Option<i64>,
    pub alarm_count: u32,
    pub alarm_enabled: bool,
}

impl AlarmView {
    /// An alarm may trigger when it is enabled and its status is not `Disabled`.
    pub open spec fn can_trigger(self) -> bool {
        self.alarm_enabled && self.alarm_status != AlarmStatus::Disabled
    }

    /// The state after a trigger at time `now`: nothing changes on a disabled
    /// alarm; otherwise the alarm becomes active at `now` and its count grows.
    pub open spec fn triggered_at(self, now: i64) -> AlarmView {
        if !self.alarm_enabled {
            self
        } else {
            AlarmView {
                alarm_status: AlarmStatus::Active,
                alarm_time: Some(now),
                alarm_count: (self.alarm_count + 1) as u32,
                ..self
            }
        }
    }
}

/// Alarm interface class (class id 73).
pub struct Alarm {
    logical_name: ObisCode,
    alarm_type: AlarmType,
    alarm_status: AlarmStatus,
    alarm_value: i64,
    alarm_threshold: i64,
    alarm_time: Option<i64>,
    alarm_count: u32,
    alarm_enabled: bool,
}

impl View for Alarm {
    type V = AlarmView;

    closed spec fn view(&self) -> AlarmView {
        AlarmView {
            logical_name: self.logical_name,
            alarm_type: self.alarm_type,
            alarm_status: self.alarm_status,
            alarm_value: self.alarm_value,
            alarm_threshold: self.alarm_threshold,
            alarm_time: self.alarm_time,
            alarm_count: self.alarm_count,
            alarm_enabled: self.alarm_enabled,
        }
    }
}

impl Alarm {
    pub const CLASS_ID: u16 = 73;
    pub const ATTR_LOGICAL_NAME: u8 = 1;
    pub const ATTR_ALARM_TYPE: u8 = 2;
    pub const ATTR_ALARM_STATUS: u8 = 3;
    pub const ATTR_ALARM_VALUE: u8 = 4;
    pub const ATTR_ALARM_THRESHOLD: u8 = 5;
    pub const ATTR_ALARM_TIME: u8 = 6;
    pub const ATTR_ALARM_COUNT: u8 = 7;
    pub const ATTR_ALARM_ENABLED: u8 = 8;

    /// Default OBIS code 0-0:73.0.0.255.
    pub fn default_obis() -> (r: ObisCode)
        ensures
            r == (ObisCode { a: 0, b: 0, c: 73, d: 0, e: 0, f: 255 }),
    {
        ObisCode::new(0, 0, 73, 0, 0, 255)
    }

    /// A fresh, enabled, inactive alarm of the given type.
    pub fn new(logical_name: ObisCode, alarm_type: AlarmType) -> (r: Alarm)
        ensures
            r@ == (AlarmView {
                logical_name,
                alarm_type,
                alarm_status: AlarmStatus::Inactive,
                alarm_value: 0,
                alarm_threshold: 0,
                alarm_time: None,
                alarm_count: 0,
                alarm_enabled: true,
            }),
    {
        Alarm {
            logical_name,
            alarm_type,
            alarm_status: AlarmStatus::Inactive,
            alarm_value: 0,
            alarm_threshold: 0,
            alarm_time: None,
            alarm_count: 0,
            alarm_enabled: true,
        }
    }

    /// A fresh alarm of type `None` under the default OBIS code.
    pub fn with_default_obis() -> (r: Alarm)
        ensures
            r@ == (AlarmView {
                logical_name: ObisCode { a: 0, b: 0, c: 73, d: 0, e: 0, f: 255 },
                alarm_type: AlarmType::NoAlarm,
                alarm_status: AlarmStatus::Inactive,
                alarm_value: 0,
                alarm_threshold: 0,
                alarm_time: None,
                alarm_count: 0,
                alarm_enabled: true,
            }),
    {
        Self::new(Self::default_obis(), AlarmType::NoAlarm)
    }

    pub fn alarm_type(&self) -> (r: AlarmType)
        ensures
            r == self@.alarm_type,
    {
        self.alarm_type
    }

    pub fn set_alarm_type(&mut self, alarm_type: AlarmType)
        ensures
            final(self)@ == (AlarmView { alarm_type, ..old(self)@ }),
    {
        self.alarm_type = alarm_type;
    }

    pub fn alarm_status(&self) -> (r: AlarmStatus)
        ensures
            r == self@.alarm_status,
    {
        self.alarm_status
    }

    pub fn set_alarm_status(&mut self, status: AlarmStatus)
        ensures
            final(self)@ == (AlarmView { alarm_status: status, ..old(self)@ }),
    {
        self.alarm_status = status;
    }

    pub fn alarm_value(&self) -> (r: i64)
        ensures
            r == self@.alarm_value,
    {
        self.alarm_value
    }

    pub fn set_alarm_value(&mut self, value: i64)
        ensures
            final(self)@ == (AlarmView { alarm_value: value, ..old(self)@ }),
    {
        self.alarm_value = value;
    }

    pub fn alarm_threshold(&self) -> (r: i64)
        ensures
            r == self@.alarm_threshold,
    {
        self.alarm_threshold
    }

    pub fn set_alarm_threshold(&mut self, threshold: i64)
        ensures
            final(self)@ == (AlarmView { alarm_threshold: threshold, ..old(self)@ }),
    {
        self.alarm_threshold = threshold;
    }

    pub fn alarm_time(&self) -> (r: Option<i64>)
        ensures
            r == self@.alarm_time,
    {
        self.alarm_time
    }

    pub fn set_alarm_time(&mut self, time: Option<i64>)
        ensures
            final(self)@ == (AlarmView { alarm_time: time, ..old(self)@ }),
    {
        self.alarm_time = time;
    }

    pub fn alarm_count(&self) -> (r: u32)
        ensures
            r == self@.alarm_count,
    {
        self.alarm_count
    }

    pub fn alarm_enabled(&self) -> (r: bool)
        ensures
            r == self@.alarm_enabled,
    {
        self.alarm_enabled
    }

    pub fn set_alarm_enabled(&mut self, enabled: bool)
        ensures
            final(self)@ == (AlarmView { alarm_enabled: enabled, ..old(self)@ }),
    {
        self.alarm_enabled = enabled;
    }

    /// Triggers the alarm at the time read from the system clock.
    pub fn trigger(&mut self)
        requires
            old(self)@.alarm_enabled ==> old(self)@.alarm_count < u32::MAX,
        ensures
            exists|now: i64| final(self)@ == #[trigger] old(self)@.triggered_at(now),
    {
        let now = unix_time_now();
        self.trigger_at(now);
    }

    /// Triggers the alarm at time `now`: an enabled alarm becomes active,
    /// records `now` and counts one more trigger; a disabled one is left as
    /// it is.
    pub fn trigger_at(&mut self, now: i64)
        requires
            old(self)@.alarm_enabled ==> old(self)@.alarm_count < u32::MAX,
        ensures
            final(self)@ == old(self)@.triggered_at(now),
    {
        if !self.alarm_enabled {
            return;
        }
        self.alarm_status = AlarmStatus::Active;
        self.alarm_time = Some(now);
        self.alarm_count = self.alarm_count + 1;
    }

    pub fn acknowledge(&mut self)
        ensures
            final(self)@ == (AlarmView { alarm_status: AlarmStatus::Acknowledged, ..old(self)@ }),
    {
        self.alarm_status = AlarmStatus::Acknowledged;
    }

    /// Returns the alarm to inactive and forgets its time.
    pub fn clear(&mut self)
        ensures
            final(self)@ == (AlarmView { alarm_status: AlarmStatus::Inactive, alarm_time: None, ..old(self)@ }),
    {
        self.alarm_status = AlarmStatus::Inactive;
        self.alarm_time = None;
    }

    pub fn disable(&mut self)
        ensures
            final(self)@ == (AlarmView { alarm_enabled: false, ..old(self)@ }),
    {
        self.alarm_enabled = false;
    }

    pub fn enable(&mut self)
        ensures
            final(self)@ == (AlarmView { alarm_enabled: true, ..old(self)@ }),
    {
        self.alarm_enabled = true;
    }

    pub fn is_active(&self) -> (r: bool)
        ensures
            r == (self@.alarm_status == AlarmStatus::Active),
    {
        self.alarm_status.is_active()
    }

    pub fn is_inactive(&self) -> (r: bool)
        ensures
            r == (self@.alarm_status == AlarmStatus::Inactive),
    {
        self.alarm_status.is_inactive()
    }

    pub fn can_trigger(&self) -> (r: bool)
        ensures
            r == self@.can_trigger(),
    {
        self.alarm_enabled && self.alarm_status.can_trigger()
    }

    pub fn is_critical(&self) -> (r: bool)
        ensures
            r == self@.alarm_type.spec_is_critical(),
    {
        self.alarm_type.is_critical()
    }

    /// Triggers the alarm, at the time read from the system clock, when it
    /// may trigger and its value exceeds its threshold.
    pub fn check_and_trigger(&mut self)
        requires
            old(self)@.alarm_enabled ==> old(self)@.alarm_count < u32::MAX,
        ensures
            old(self)@.can_trigger() && old(self)@.alarm_value > old(self)@.alarm_threshold ==> exists|
                now: i64,
            | final(self)@ == #[trigger] old(self)@.triggered_at(now),
            !(old(self)@.can_trigger() && old(self)@.alarm_value > old(self)@.alarm_threshold)
                ==> final(self)@ == old(self)@,
    {
        if !self.can_trigger() {
            return;
        }
        if self.alarm_value > self.alarm_threshold {
            self.trigger();
        }
    }
}

impl CosemObject for Alarm {
    fn class_id(&self) -> (r: u16)
        ensures
            r == 73,
    {
        Self::CLASS_ID
    }

    fn obis_code(&self) -> (r: ObisCode)
        ensures
            r == self@.logical_name,
    {
        self.logical_name
    }

    fn get_attribute(
        &self,
        attribute_id: u8,
        selective_access: Option<&SelectiveAccessDescriptor>,
    ) -> (r: DlmsResult<DataObject>)
        ensures
            match attribute_id {
                1 => ok_octets(r, self@.logical_name.spec_bytes()),
                2 => yields(r, DataObject::Enumerate(self@.alarm_type.spec_to_u8())),
                3 => yields(r, DataObject::Enumerate(self@.alarm_status.spec_to_u8())),
                4 => yields(r, DataObject::Integer64(self@.alarm_value)),
                5 => yields(r, DataObject::Integer64(self@.alarm_threshold)),
                6 => match self@.alarm_time {
                    Some(t) => yields(r, DataObject::Integer64(t)),
                    None => yields(r, DataObject::Null),
                },
                7 => yields(r, DataObject::Unsigned32(self@.alarm_count)),
                8 => yields(r, DataObject::Boolean(self@.alarm_enabled)),
                _ => invalid(r),
            },
    {
        match attribute_id {
            1 => Ok(DataObject::OctetString(self.logical_name.to_bytes())),
            2 => Ok(DataObject::Enumerate(self.alarm_type.to_u8())),
            3 => Ok(DataObject::Enumerate(self.alarm_status.to_u8())),
            4 => Ok(DataObject::Integer64(self.alarm_value)),
            5 => Ok(DataObject::Integer64(self.alarm_threshold)),
            6 => match self.alarm_time {
                Some(t) => Ok(DataObject::Integer64(t)),
                None => Ok(DataObject::Null),
            },
            7 => Ok(DataObject::Unsigned32(self.alarm_count)),
            8 => Ok(DataObject::Boolean(self.alarm_enabled)),
            _ => Err(invalid_data_number("Alarm has no attribute ", attribute_id as u64)),
        }
    }

    fn set_attribute(
        &mut self,
        attribute_id: u8,
        value: DataObject,
        selective_access: Option<&SelectiveAccessDescriptor>,
    ) -> (r: DlmsResult<()>)
        ensures
            r is Err ==> final(self)@ == old(self)@,
            match attribute_id {
                1 => denied(r),
                2 => match value {
                    DataObject::Enumerate(v) => r is Ok && final(self)@ == (AlarmView {
                        alarm_type: AlarmType::spec_from_u8(v),
                        ..old(self)@
                    }),
                    _ => invalid(r),
                },
                3 => match value {
                    DataObject::Enumerate(v) => r is Ok && final(self)@ == (AlarmView {
                        alarm_status: AlarmStatus::spec_from_u8(v),
                        ..old(self)@
                    }),
                    _ => invalid(r),
                },
                4 => match value {
                    DataObject::Integer64(v) => r is Ok && final(self)@ == (AlarmView { alarm_value: v, ..old(self)@ }),
                    _ => invalid(r),
                },
                5 => match value {
                    DataObject::Integer64(v) => r is Ok && final(self)@ == (AlarmView {
                        alarm_threshold: v,
                        ..old(self)@
                    }),
                    _ => invalid(r),
                },
                6 => match value {
                    DataObject::Integer64(v) => r is Ok && final(self)@ == (AlarmView {
                        alarm_time: Some(v),
                        ..old(self)@
                    }),
                    DataObject::Null => r is Ok && final(self)@ == (AlarmView { alarm_time: None, ..old(self)@ }),
                    _ => invalid(r),
                },
                7 => match value {
                    DataObject::Unsigned32(v) => r is Ok && final(self)@ == (AlarmView { alarm_count: v, ..old(self)@ }),
                    _ => invalid(r),
                },
                8 => match value {
                    DataObject::Boolean(v) => r is Ok && final(self)@ == (AlarmView {
                        alarm_enabled: v,
                        ..old(self)@
                    }),
                    _ => invalid(r),
                },
                _ => invalid(r),
            },
    {
        match attribute_id {
            1 => Err(access_denied("Attribute 1 (logical_name) is read-only")),
            2 => match value {
                DataObject::Enumerate(v) => {
                    self.alarm_type = AlarmType::from_u8(v);
                    Ok(())
                }
                _ => Err(invalid_data("Expected Enumerate for alarm_type")),
            },
            3 => match value {
                DataObject::Enumerate(v) => {
                    self.alarm_status = AlarmStatus::from_u8(v);
                    Ok(())
                }
                _ => Err(invalid_data("Expected Enumerate for alarm_status")),
            },
            4 => match value {
                DataObject::Integer64(v) => {
                    self.alarm_value = v;
                    Ok(())
                }
                _ => Err(invalid_data("Expected Integer64 for alarm_value")),
            },
            5 => match value {
                DataObject::Integer64(v) => {
                    self.alarm_threshold = v;
                    Ok(())
                }
                _ => Err(invalid_data("Expected Integer64 for alarm_threshold")),
            },
            6 => match value {
                DataObject::Integer64(v) => {
                    self.alarm_time = Some(v);
                    Ok(())
                }
                DataObject::Null => {
                    self.alarm_time = None;
                    Ok(())
                }
                _ => Err(invalid_data("Expected Integer64 or Null for alarm_time")),
            },
            7 => match value {
                DataObject::Unsigned32(v) => {
                    self.alarm_count = v;
                    Ok(())
                }
                _ => Err(invalid_data("Expected Unsigned32 for alarm_count")),
            },
            8 => match value {
                DataObject::Boolean(v) => {
                    self.alarm_enabled = v;
                    Ok(())
                }
                _ => Err(invalid_data("Expected Boolean for alarm_enabled")),
            },
            _ => Err(invalid_data_number("Alarm has no attribute ", attribute_id as u64)),
        }
    }

    fn invoke_method(
        &mut self,
        method_id: u8,
        parameters: Option<DataObject>,
        selective_access: Option<&SelectiveAccessDescriptor>,
    ) -> (r: DlmsResult<Option<DataObject>>)
        ensures
            invalid(r),
            final(self)@ == old(self)@,
    {
        Err(invalid_data_number("Alarm has no method ", method_id as u64))
    }
}

} // verus!
