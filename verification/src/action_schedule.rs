//! Action Schedule interface class (class id 95): a one-shot scheduled run
//! of a script, with the time and count of past runs.
use vstd::prelude::*;
use crate::cosem_object::{denied, invalid, yields, CosemObject};
use crate::data_object::{ok_octets, DataObject};
use crate::error::{access_denied, invalid_data, invalid_data_number, DlmsResult};
use crate::obis::ObisCode;
use crate::selective_access::SelectiveAccessDescriptor;
use crate::time_source::unix_time_now;

verus! {

/// The state of an [`ActionSchedule`]; times are Unix seconds.
pub struct ActionScheduleView {
    pub logical_name: ObisCode,
    pub enabled: bool,
    pub execution_time: Option<i64>,
    pub action_script: u8,
    pub last_execution_time: Option<i64>,
    pub execution_count: u32,
}

impl ActionScheduleView {
    /// Enabled, with an execution time at or before `now`.
    pub open spec fn due_at(self, now: i64) -> bool {
        self.enabled && (self.execution_time matches Some(t) && t <= now)
    }

    /// Enabled, with an execution time after `now`.
    pub open spec fn pending_at(self, now: i64) -> bool {
        self.enabled && (self.execution_time matches Some(t) && t > now)
    }

    /// The state after running at `now`: the run is recorded and counted,
    /// and the schedule is cleared and disabled.
    pub open spec fn executed_at(self, now: i64) -> ActionScheduleView {
        ActionScheduleView {
            last_execution_time: Some(now),
            execution_count: (self.execution_count + 1) as u32,
            execution_time: None,
            enabled: false,
            ..self
        }
    }

    /// The state after scheduling a run at `timestamp`: enabled, with that
    /// execution time.
    pub open spec fn scheduled_at(self, timestamp: i64) -> ActionScheduleView {
        ActionScheduleView { execution_time: Some(timestamp), enabled: true, ..self }
    }

    /// Seconds from `now` to the execution time, wrapping on overflow.
    pub open spec fn time_until_at(self, now: i64) -> Option<i64> {
        match self.execution_time {
            Some(t) => Some(t.wrapping_sub(now)),
            None => None,
        }
    }
}

/// A fresh schedule: disabled, nothing scheduled, no run yet.
pub open spec fn action_schedule_defaults(logical_name: ObisCode, action_script: u8) -> ActionScheduleView {
    ActionScheduleView {
        logical_name,
        enabled: false,
        execution_time: None,
        action_script,
        last_execution_time: None,
        execution_count: 0,
    }
}

/// `d` is `Null` for no time and the time cut to 32 bits otherwise.
pub open spec fn is_optional_time(d: DataObject, t: Option<i64>) -> bool {
    match t {
        Some(x) => d == DataObject::Integer32(x as i32),
        None => d == DataObject::Null,
    }
}

/// Action Schedule interface class (class id 95).
pub struct ActionSchedule {
    logical_name: ObisCode,
    enabled: bool,
    execution_time: Option<i64>,
    action_script: u8,
    last_execution_time: Option<i64>,
    execution_count: u32,
}

impl View for ActionSchedule {
    type V = ActionScheduleView;

    closed spec fn view(&self) -> ActionScheduleView {
        ActionScheduleView {
            logical_name: self.logical_name,
            enabled: self.enabled,
            execution_time: self.execution_time,
            action_script: self.action_script,
            last_execution_time: self.last_execution_time,
            execution_count: self.execution_count,
        }
    }
}

fn encode_optional_time(t: Option<i64>) -> (r: DataObject)
    ensures
        is_optional_time(r, t),
{
    match t {
        Some(x) => DataObject::Integer32(x as i32),
        None => DataObject::Null,
    }
}

impl ActionSchedule {
    pub const CLASS_ID: u16 = 95;
    pub const ATTR_LOGICAL_NAME: u8 = 1;
    pub const ATTR_ENABLED: u8 = 2;
    pub const ATTR_EXECUTION_TIME: u8 = 3;
    pub const ATTR_ACTION_SCRIPT: u8 = 4;
    pub const ATTR_LAST_EXECUTION_TIME: u8 = 5;
    pub const ATTR_EXECUTION_COUNT: u8 = 6;

    /// Default OBIS code 0-0:95.0.0.255.
    pub fn default_obis() -> (r: ObisCode)
        ensures
            r == (ObisCode { a: 0, b: 0, c: 95, d: 0, e: 0, f: 255 }),
    {
        ObisCode::new(0, 0, 95, 0, 0, 255)
    }

    pub fn new(logical_name: ObisCode) -> (r: ActionSchedule)
        ensures
            r@ == action_schedule_defaults(logical_name, 0),
    {
        Self::with_script(logical_name, 0)
    }

    pub fn with_default_obis() -> (r: ActionSchedule)
        ensures
            r@ == action_schedule_defaults(ObisCode { a: 0, b: 0, c: 95, d: 0, e: 0, f: 255 }, 0),
    {
        Self::new(Self::default_obis())
    }

    pub fn with_script(logical_name: ObisCode, script_id: u8) -> (r: ActionSchedule)
        ensures
            r@ == action_schedule_defaults(logical_name, script_id),
    {
        ActionSchedule {
            logical_name,
            enabled: false,
            execution_time: None,
            action_script: script_id,
            last_execution_time: None,
            execution_count: 0,
        }
    }

    pub fn enabled(&self) -> (r: bool)
        ensures
            r == self@.enabled,
    {
        self.enabled
    }

    pub fn set_enabled(&mut self, enabled: bool)
        ensures
            final(self)@ == (ActionScheduleView { enabled, ..old(self)@ }),
    {
        self.enabled = enabled;
    }

    pub fn enable(&mut self)
        ensures
            final(self)@ == (ActionScheduleView { enabled: true, ..old(self)@ }),
    {
        self.enabled = true;
    }

    pub fn disable(&mut self)
        ensures
            final(self)@ == (ActionScheduleView { enabled: false, ..old(self)@ }),
    {
        self.enabled = false;
    }

    pub fn execution_time(&self) -> (r: Option<i64>)
        ensures
            r == self@.execution_time,
    {
        self.execution_time
    }

    pub fn set_execution_time(&mut self, time: Option<i64>)
        ensures
            final(self)@ == (ActionScheduleView { execution_time: time, ..old(self)@ }),
    {
        self.execution_time = time;
    }

    /// Schedules a run at `timestamp` and enables the schedule.
    pub fn schedule_at(&mut self, timestamp: i64)
        ensures
            final(self)@ == old(self)@.scheduled_at(timestamp),
    {
        self.execution_time = Some(timestamp);
        self.enabled = true;
    }

    pub fn action_script(&self) -> (r: u8)
        ensures
            r == self@.action_script,
    {
        self.action_script
    }

    pub fn set_action_script(&mut self, script_id: u8)
        ensures
            final(self)@ == (ActionScheduleView { action_script: script_id, ..old(self)@ }),
    {
        self.action_script = script_id;
    }

    pub fn last_execution_time(&self) -> (r: Option<i64>)
        ensures
            r == self@.last_execution_time,
    {
        self.last_execution_time
    }

    pub fn execution_count(&self) -> (r: u32)
        ensures
            r == self@.execution_count,
    {
        self.execution_count
    }

    pub fn reset_execution_count(&mut self)
        ensures
            final(self)@ == (ActionScheduleView { execution_count: 0, ..old(self)@ }),
    {
        self.execution_count = 0;
    }

    pub fn is_enabled(&self) -> (r: bool)
        ensures
            r == self@.enabled,
    {
        self.enabled
    }

    /// Due at time `now`: enabled and the execution time has come.
    pub fn is_due_at(&self, now: i64) -> (r: bool)
        ensures
            r == self@.due_at(now),
    {
        if !self.enabled {
            return false;
        }
        match self.execution_time {
            Some(t) => t <= now,
            None => false,
        }
    }

    /// Due now, by the system clock.
    pub fn is_due(&self) -> (r: bool)
        ensures
            exists|now: i64| r == #[trigger] self@.due_at(now),
    {
        let now = unix_time_now();
        self.is_due_at(now)
    }

    /// Pending at time `now`: enabled and the execution time is still ahead.
    pub fn is_pending_at(&self, now: i64) -> (r: bool)
        ensures
            r == self@.pending_at(now),
    {
        if !self.enabled {
            return false;
        }
        match self.execution_time {
            Some(t) => t > now,
            None => false,
        }
    }

    /// Pending now, by the system clock.
    pub fn is_pending(&self) -> (r: bool)
        ensures
            exists|now: i64| r == #[trigger] self@.pending_at(now),
    {
        let now = unix_time_now();
        self.is_pending_at(now)
    }

    /// Runs the action at time `now`: fails, changing nothing, when the
    /// schedule is disabled or not due; otherwise records and counts the run
    /// and clears and disables the schedule.
    pub fn execute_at(&mut self, now: i64) -> (r: DlmsResult<()>)
        requires
            old(self)@.due_at(now) ==> old(self)@.execution_count < u32::MAX,
        ensures
            r is Ok <==> old(self)@.due_at(now),
            r is Ok ==> final(self)@ == old(self)@.executed_at(now),
            r is Err ==> invalid(r) && final(self)@ == old(self)@,
    {
        if !self.enabled {
            return Err(invalid_data("Schedule is not enabled"));
        }
        if !self.is_due_at(now) {
            return Err(invalid_data("Schedule is not due yet"));
        }
        self.last_execution_time = Some(now);
        self.execution_count = self.execution_count + 1;
        self.execution_time = None;
        self.enabled = false;
        Ok(())
    }

    /// Runs the action now, by the system clock.
    pub fn execute(&mut self) -> (r: DlmsResult<()>)
        requires
            old(self)@.enabled && old(self)@.execution_time is Some ==> old(self)@.execution_count < u32::MAX,
        ensures
            exists|now: i64|
                {
                    &&& (r is Ok <==> #[trigger] old(self)@.due_at(now))
                    &&& (r is Ok ==> final(self)@ == old(self)@.executed_at(now))
                    &&& (r is Err ==> invalid(r) && final(self)@ == old(self)@)
                },
    {
        let now = unix_time_now();
        self.execute_at(now)
    }

    /// Schedules a run `delay_seconds` after `now` (the sum wraps around
    /// on overflow) and enables the schedule.
    pub fn schedule_after_at(&mut self, now: i64, delay_seconds: u64)
        ensures
            final(self)@ == old(self)@.scheduled_at(now.wrapping_add(delay_seconds as i64)),
    {
        self.schedule_at(now.wrapping_add(delay_seconds as i64));
    }

    /// Schedules a run `delay_seconds` from now, by the system clock.
    pub fn schedule_after(&mut self, delay_seconds: u64)
        ensures
            exists|now: i64| final(self)@ == old(self)@.scheduled_at(#[trigger] now.wrapping_add(delay_seconds as i64)),
    {
        let now = unix_time_now();
        self.schedule_after_at(now, delay_seconds);
    }

    /// Seconds from `now` to the execution time, if one is set.
    pub fn time_until_execution_at(&self, now: i64) -> (r: Option<i64>)
        ensures
            r == self@.time_until_at(now),
    {
        match self.execution_time {
            Some(t) => Some(t.wrapping_sub(now)),
            None => None,
        }
    }

    /// Seconds from now, by the system clock, to the execution time.
    pub fn time_until_execution(&self) -> (r: Option<i64>)
        ensures
            exists|now: i64| r == #[trigger] self@.time_until_at(now),
            r is Some <==> self@.execution_time is Some,
    {
        let now = unix_time_now();
        self.time_until_execution_at(now)
    }

    /// The action has run at least once since the count was last reset.
    pub fn has_executed(&self) -> (r: bool)
        ensures
            r == (self@.execution_count > 0),
    {
        self.execution_count > 0
    }
}

impl CosemObject for ActionSchedule {
    fn class_id(&self) -> (r: u16)
        ensures
            r == 95,
    {
        Self::CLASS_ID
    }

    fn obis_code(&self) -> (r: ObisCode)
        ensures
            r == self@.logical_name,
    {
        self.logical_name
    }

    /// Times are read as `Integer32`, cut to their low 32 bits, or as `Null`.
    fn get_attribute(
        &self,
        attribute_id: u8,
        selective_access: Option<&SelectiveAccessDescriptor>,
    ) -> (r: DlmsResult<DataObject>)
        ensures
            match attribute_id {
                1 => ok_octets(r, self@.logical_name.spec_bytes()),
                2 => yields(r, DataObject::Boolean(self@.enabled)),
                3 => r matches Ok(d) && is_optional_time(d, self@.execution_time),
                4 => yields(r, DataObject::Unsigned8(self@.action_script)),
                5 => r matches Ok(d) && is_optional_time(d, self@.last_execution_time),
                6 => yields(r, DataObject::Unsigned32(self@.execution_count)),
                _ => invalid(r),
            },
    {
        match attribute_id {
            1 => Ok(DataObject::OctetString(self.logical_name.to_bytes())),
            2 => Ok(DataObject::Boolean(self.enabled)),
            3 => Ok(encode_optional_time(self.execution_time)),
            4 => Ok(DataObject::Unsigned8(self.action_script)),
            5 => Ok(encode_optional_time(self.last_execution_time)),
            6 => Ok(DataObject::Unsigned32(self.execution_count)),
            _ => Err(invalid_data_number("ActionSchedule has no attribute ", attribute_id as u64)),
        }
    }

    fn set_attribute(
        &mut self,
        attribute_id: u8,
        value: DataObject,
        selective_access: Option<&SelectiveAccessDescriptor>,
    ) -> (r: DlmsResult<()>)
        ensures
            r is Err ==> final(self)@ == old(self)@,
            match attribute_id {
                1 | 5 | 6 => denied(r),
                2 => match value {
                    DataObject::Boolean(v) => r is Ok && final(self)@ == (ActionScheduleView { enabled: v, ..old(self)@ }),
                    _ => invalid(r),
                },
                3 => match value {
                    DataObject::Integer32(v) => r is Ok && final(self)@ == (ActionScheduleView {
                        execution_time: Some(v as i64),
                        ..old(self)@
                    }),
                    DataObject::Null => r is Ok && final(self)@ == (ActionScheduleView {
                        execution_time: None,
                        ..old(self)@
                    }),
                    _ => invalid(r),
                },
                4 => match value {
                    DataObject::Unsigned8(v) => r is Ok && final(self)@ == (ActionScheduleView {
                        action_script: v,
                        ..old(self)@
                    }),
                    _ => invalid(r),
                },
                _ => invalid(r),
            },
    {
        match attribute_id {
            1 => Err(access_denied("Attribute 1 (logical_name) is read-only")),
            2 => match value {
                DataObject::Boolean(enabled) => {
                    self.enabled = enabled;
                    Ok(())
                },
                _ => Err(invalid_data("Expected Boolean for enabled")),
            },
            3 => match value {
                DataObject::Integer32(timestamp) => {
                    self.execution_time = Some(timestamp as i64);
                    Ok(())
                },
                DataObject::Null => {
                    self.execution_time = None;
                    Ok(())
                },
                _ => Err(invalid_data("Expected Integer32 or Null for execution_time")),
            },
            4 => match value {
                DataObject::Unsigned8(script_id) => {
                    self.action_script = script_id;
                    Ok(())
                },
                _ => Err(invalid_data("Expected Unsigned8 for action_script")),
            },
            5 => Err(access_denied("Attribute 5 (last_execution_time) is read-only")),
            6 => Err(access_denied("Attribute 6 (execution_count) is read-only")),
            _ => Err(invalid_data_number("ActionSchedule has no attribute ", attribute_id as u64)),
        }
    }

    fn invoke_method(
        &mut self,
        method_id: u8,
        parameters: Option<DataObject>,
        selective_access: Option<&SelectiveAccessDescriptor>,
    ) -> (r: DlmsResult<Option<DataObject>>)
        ensures
            invalid(r),
            final(self)@ == old(self)@,
    {
        Err(invalid_data_number("ActionSchedule has no method ", method_id as u64))
    }
}

/// A schedule is never both due and pending, and once enabled with an
/// execution time it is one of the two at any time.
pub proof fn lemma_due_or_pending(s: ActionScheduleView, now: i64)
    ensures
        !(s.due_at(now) && s.pending_at(now)),
        (s.enabled && s.execution_time is Some) ==> (s.due_at(now) || s.pending_at(now)),
{
}

/// A run leaves the schedule neither due nor pending, so a second run at
/// the same time fails; scheduling again at or before the time of the next
/// run makes it due again.
pub proof fn lemma_run_then_reschedule(s: ActionScheduleView, now: i64, timestamp: i64, later: i64)
    requires
        s.due_at(now),
        timestamp <= later,
    ensures
        !s.executed_at(now).due_at(later),
        !s.executed_at(now).pending_at(later),
        s.executed_at(now).scheduled_at(timestamp).due_at(later),
{
}


/// Over time a schedule only moves from pending to due: once due it stays
/// due at every later time, and pending at a time means pending at every
/// earlier time; when it is due at some time and pending at another, the
/// execution time lies between them.
pub proof fn lemma_due_is_monotone(s: ActionScheduleView, now: i64, later: i64)
    requires
        now <= later,
    ensures
        s.due_at(now) ==> s.due_at(later),
        s.pending_at(later) ==> s.pending_at(now),
        s.due_at(later) && s.pending_at(now) ==> (s.execution_time matches Some(t) && now < t <= later),
        s.due_at(now) ==> (s.execution_time matches Some(t) && t <= now),
        s.pending_at(now) ==> (s.execution_time matches Some(t) && t > now),
{
}

} // verus!
