//! Activity Calendar interface class (class id 20): active and passive
//! calendars of season, week and day profiles, and the method that makes the
//! passive calendar the active one.
use vstd::prelude::*;
use crate::cosem_object::{denied, invalid, CosemObject};
use crate::data_object::{copy_vec, is_octets, ok_octets, parsed_prefix, DataObject};
use crate::datetime::{lemma_date_roundtrip, CosemDate};
use crate::error::{access_denied, invalid_data, invalid_data_number, invalid_data_text, text_around, DlmsError, DlmsResult};
use crate::obis::ObisCode;
use crate::selective_access::SelectiveAccessDescriptor;
use crate::text::{copy_string, spec_utf8_lossy, string_bytes, string_from_bytes_lossy};
use vstd::utf8::encode_utf8;

verus! {

/// Day identifier of a season profile.
#[derive(Debug, Clone, Copy, PartialEq, Eq, Structural)]
pub enum DayId {
    /// Code 0.
    NormalWorkingDay,
    /// Code 1.
    NonWorkingDay,
    /// Code 2.
    PublicHoliday,
    /// Any other code.
    Custom(u8),
}

impl DayId {
    pub open spec fn spec_from_u8(value: u8) -> DayId {
        match value {
            0 => DayId::NormalWorkingDay,
            1 => DayId::NonWorkingDay,
            2 => DayId::PublicHoliday,
            _ => DayId::Custom(value),
        }
    }

    pub open spec fn spec_to_u8(self) -> u8 {
        match self {
            DayId::NormalWorkingDay => 0,
            DayId::NonWorkingDay => 1,
            DayId::PublicHoliday => 2,
            DayId::Custom(v) => v,
        }
    }

    /// The day identifier of a code; every code has one.
    pub fn from_u8(value: u8) -> (r: DayId)
        ensures
            r == DayId::spec_from_u8(value),
    {
        match value {
            0 => DayId::NormalWorkingDay,
            1 => DayId::NonWorkingDay,
            2 => DayId::PublicHoliday,
            _ => DayId::Custom(value),
        }
    }

    /// The code of the day identifier.
    pub fn to_u8(&self) -> (r: u8)
        ensures
            r == self.spec_to_u8(),
    {
        match self {
            DayId::NormalWorkingDay => 0,
            DayId::NonWorkingDay => 1,
            DayId::PublicHoliday => 2,
            DayId::Custom(v) => *v,
        }
    }
}

/// Every code survives the round trip through a day identifier.
pub proof fn lemma_day_id_code_roundtrip(value: u8)
    ensures
        DayId::spec_from_u8(value).spec_to_u8() == value,
{
}

/// A season: its start date, month and day, and the day identifier in force.
#[derive(Debug, Clone, Copy, PartialEq, Eq, Structural)]
pub struct SeasonProfile {
    pub start_date: CosemDate,
    pub month: u8,
    pub day: u8,
    pub day_id: DayId,
}

/// The day identifier carried by an `Enumerate` or `Unsigned8` element.
pub open spec fn spec_day_id_of(d: DataObject) -> Option<DayId> {
    match d {
        DataObject::Enumerate(v) => Some(DayId::spec_from_u8(v)),
        DataObject::Unsigned8(v) => Some(DayId::spec_from_u8(v)),
        _ => None,
    }
}

impl SeasonProfile {
    pub fn new(start_date: CosemDate, month: u8, day: u8, day_id: DayId) -> (r: SeasonProfile)
        ensures
            r == (SeasonProfile { start_date, month, day, day_id }),
    {
        SeasonProfile { start_date, month, day, day_id }
    }

    /// The season an array `[OctetString(date), Unsigned8(month),
    /// Unsigned8(day), Enumerate or Unsigned8(day id), ..]` denotes; the date
    /// needs at least five bytes.
    pub open spec fn spec_from_data_object(d: DataObject) -> Option<SeasonProfile> {
        match d {
            DataObject::Array(arr) => if arr@.len() >= 4 {
                match (arr@[0], arr@[1], arr@[2], spec_day_id_of(arr@[3])) {
                    (
                        DataObject::OctetString(b),
                        DataObject::Unsigned8(m),
                        DataObject::Unsigned8(dd),
                        Some(id),
                    ) => if b@.len() >= 5 {
                        Some(
                            SeasonProfile {
                                start_date: CosemDate::spec_decode(b@),
                                month: m,
                                day: dd,
                                day_id: id,
                            },
                        )
                    } else {
                        None
                    },
                    _ => None,
                }
            } else {
                None
            },
            _ => None,
        }
    }

    /// `d` is the array `[OctetString(date bytes), Unsigned8(month),
    /// Unsigned8(day), Enumerate(day id code)]` of this season.
    pub open spec fn is_encoding(self, d: DataObject) -> bool {
        d matches DataObject::Array(arr) && arr@.len() == 4 && is_octets(
            arr@[0],
            self.start_date.spec_encode(),
        ) && arr@[1] == DataObject::Unsigned8(self.month) && arr@[2] == DataObject::Unsigned8(
            self.day,
        ) && arr@[3] == DataObject::Enumerate(self.day_id.spec_to_u8())
    }

    /// Month 1..=12 and day 1..=31.
    pub open spec fn spec_valid(self) -> bool {
        1 <= self.month <= 12 && 1 <= self.day <= 31
    }

    /// Reads a season from its array form.
    pub fn from_data_object(value: &DataObject) -> (r: DlmsResult<SeasonProfile>)
        ensures
            r is Ok <==> SeasonProfile::spec_from_data_object(*value) is Some,
            r matches Ok(p) ==> SeasonProfile::spec_from_data_object(*value) == Some(p),
            r is Err ==> invalid(r),
    {
        match value {
            DataObject::Array(arr) => {
                if arr.len() < 4 {
                    return Err(invalid_data("Expected Array for SeasonProfile"));
                }
                let start_date = match &arr[0] {
                    DataObject::OctetString(bytes) => {
                        if bytes.len() == 0 {
                            return Err(invalid_data("Expected OctetString for start_date"));
                        }
                        match CosemDate::decode(bytes.as_slice()) {
                            Ok(d) => d,
                            Err(e) => return Err(e),
                        }
                    },
                    _ => return Err(invalid_data("Expected OctetString for start_date")),
                };
                let month = match &arr[1] {
                    DataObject::Unsigned8(m) => *m,
                    _ => return Err(invalid_data("Expected Unsigned8 for month")),
                };
                let day = match &arr[2] {
                    DataObject::Unsigned8(d) => *d,
                    _ => return Err(invalid_data("Expected Unsigned8 for day")),
                };
                let day_id = match &arr[3] {
                    DataObject::Enumerate(id) => DayId::from_u8(*id),
                    DataObject::Unsigned8(id) => DayId::from_u8(*id),
                    _ => return Err(invalid_data("Expected Enumerate for day_id")),
                };
                Ok(SeasonProfile { start_date, month, day, day_id })
            },
            _ => Err(invalid_data("Expected Array for SeasonProfile")),
        }
    }

    /// The array form of the season. Reading it back gives the season again,
    /// with its day identifier taken through its code.
    pub fn to_data_object(&self) -> (r: DataObject)
        ensures
            self.is_encoding(r),
            SeasonProfile::spec_from_data_object(r) == Some(
                SeasonProfile { day_id: DayId::spec_from_u8(self.day_id.spec_to_u8()), ..*self },
            ),
    {
        let mut items: Vec<DataObject> = Vec::new();
        items.push(DataObject::OctetString(self.start_date.encode()));
        items.push(DataObject::Unsigned8(self.month));
        items.push(DataObject::Unsigned8(self.day));
        items.push(DataObject::Enumerate(self.day_id.to_u8()));
        proof {
            lemma_date_roundtrip(self.start_date);
        }
        DataObject::Array(items)
    }

    /// Fails unless the month is 1..=12 and the day 1..=31.
    pub fn validate(&self) -> (r: DlmsResult<()>)
        ensures
            r is Ok <==> self.spec_valid(),
            r is Err ==> invalid(r),
    {
        if self.month < 1 || self.month > 12 {
            return Err(invalid_data_text(text_around("Invalid month: ", self.month as u64, ", must be 1-12")));
        }
        if self.day < 1 || self.day > 31 {
            return Err(invalid_data_text(text_around("Invalid day: ", self.day as u64, ", must be 1-31")));
        }
        Ok(())
    }
}

/// A season read from `d` that also passes validation.
pub open spec fn spec_valid_season(d: DataObject) -> Option<SeasonProfile> {
    match SeasonProfile::spec_from_data_object(d) {
        Some(p) => if p.spec_valid() {
            Some(p)
        } else {
            None
        },
        None => None,
    }
}

/// How a season table element is read: with validation for the active
/// calendar, without it for the passive one.
pub open spec fn season_parser(checked: bool) -> spec_fn(DataObject) -> Option<SeasonProfile> {
    if checked {
        |d: DataObject| spec_valid_season(d)
    } else {
        |d: DataObject| SeasonProfile::spec_from_data_object(d)
    }
}

/// The day profile in force on each day of a week.
#[derive(Debug, Clone, Copy, PartialEq, Eq, Structural)]
pub struct WeekProfile {
    pub week_id: u8,
    pub monday: u8,
    pub tuesday: u8,
    pub wednesday: u8,
    pub thursday: u8,
    pub friday: u8,
    pub saturday: u8,
    pub sunday: u8,
}

/// The byte of an `Unsigned8` element.
pub open spec fn spec_u8_of(d: DataObject) -> Option<u8> {
    match d {
        DataObject::Unsigned8(v) => Some(v),
        _ => None,
    }
}

impl WeekProfile {
    pub fn new(
        week_id: u8,
        monday: u8,
        tuesday: u8,
        wednesday: u8,
        thursday: u8,
        friday: u8,
        saturday: u8,
        sunday: u8,
    ) -> (r: WeekProfile)
        ensures
            r == (WeekProfile {
                week_id,
                monday,
                tuesday,
                wednesday,
                thursday,
                friday,
                saturday,
                sunday,
            }),
    {
        WeekProfile { week_id, monday, tuesday, wednesday, thursday, friday, saturday, sunday }
    }

    /// The week an array of at least eight `Unsigned8` elements denotes.
    pub open spec fn spec_from_data_object(d: DataObject) -> Option<WeekProfile> {
        match d {
            DataObject::Array(arr) => if arr@.len() >= 8 && (forall|i: int|
                0 <= i < 8 ==> (#[trigger] spec_u8_of(arr@[i])) is Some) {
                Some(
                    WeekProfile {
                        week_id: spec_u8_of(arr@[0])->0,
                        monday: spec_u8_of(arr@[1])->0,
                        tuesday: spec_u8_of(arr@[2])->0,
                        wednesday: spec_u8_of(arr@[3])->0,
                        thursday: spec_u8_of(arr@[4])->0,
                        friday: spec_u8_of(arr@[5])->0,
                        saturday: spec_u8_of(arr@[6])->0,
                        sunday: spec_u8_of(arr@[7])->0,
                    },
                )
            } else {
                None
            },
            _ => None,
        }
    }

    /// The eight fields in order.
    pub open spec fn fields(self) -> Seq<u8> {
        seq![
            self.week_id,
            self.monday,
            self.tuesday,
            self.wednesday,
            self.thursday,
            self.friday,
            self.saturday,
            self.sunday,
        ]
    }

    /// `d` is the array of the eight fields as `Unsigned8`.
    pub open spec fn is_encoding(self, d: DataObject) -> bool {
        d matches DataObject::Array(arr) && arr@.len() == 8 && forall|i: int|
            0 <= i < 8 ==> #[trigger] arr@[i] == DataObject::Unsigned8(self.fields()[i])
    }

    /// Reads a week from its array form.
    pub fn from_data_object(value: &DataObject) -> (r: DlmsResult<WeekProfile>)
        ensures
            r is Ok <==> WeekProfile::spec_from_data_object(*value) is Some,
            r matches Ok(p) ==> WeekProfile::spec_from_data_object(*value) == Some(p),
            r is Err ==> invalid(r),
    {
        match value {
            DataObject::Array(arr) => {
                if arr.len() < 8 {
                    return Err(invalid_data("Expected Array for WeekProfile"));
                }
                let mut f: Vec<u8> = Vec::new();
                let mut i: usize = 0;
                while i < 8
                    invariant
                        i <= 8,
                        arr@.len() >= 8,
                        f@.len() == i,
                        *value == DataObject::Array(*arr),
                        forall|j: int| #![trigger spec_u8_of(arr@[j])] 0 <= j < i ==> spec_u8_of(arr@[j]) == Some(f@[j]),
                    decreases 8 - i,
                {
                    match &arr[i] {
                        DataObject::Unsigned8(d) => f.push(*d),
                        _ => {
                            assert(spec_u8_of(arr@[i as int]) is None);
                            if i == 0 {
                                return Err(invalid_data("Expected Unsigned8 for week_id"));
                            }
                            return Err(invalid_data("Expected Unsigned8 for day"));
                        },
                    }
                    i = i + 1;
                }
                assert(forall|j: int| 0 <= j < 8 ==> (#[trigger] spec_u8_of(arr@[j])) is Some);
                Ok(WeekProfile {
                    week_id: f[0],
                    monday: f[1],
                    tuesday: f[2],
                    wednesday: f[3],
                    thursday: f[4],
                    friday: f[5],
                    saturday: f[6],
                    sunday: f[7],
                })
            },
            _ => Err(invalid_data("Expected Array for WeekProfile")),
        }
    }

    /// The array form of the week; reading it back gives the week again.
    pub fn to_data_object(&self) -> (r: DataObject)
        ensures
            self.is_encoding(r),
            WeekProfile::spec_from_data_object(r) == Some(*self),
    {
        let mut items: Vec<DataObject> = Vec::new();
        items.push(DataObject::Unsigned8(self.week_id));
        items.push(DataObject::Unsigned8(self.monday));
        items.push(DataObject::Unsigned8(self.tuesday));
        items.push(DataObject::Unsigned8(self.wednesday));
        items.push(DataObject::Unsigned8(self.thursday));
        items.push(DataObject::Unsigned8(self.friday));
        items.push(DataObject::Unsigned8(self.saturday));
        items.push(DataObject::Unsigned8(self.sunday));
        assert(forall|i: int| 0 <= i < 8 ==> #[trigger] items@[i] == DataObject::Unsigned8(self.fields()[i]));
        assert(forall|i: int| 0 <= i < 8 ==> (#[trigger] spec_u8_of(items@[i])) is Some);
        DataObject::Array(items)
    }

    /// The day profile of a weekday, 0 for Monday to 6 for Sunday.
    pub fn get_day_profile(&self, weekday: u8) -> (r: Option<u8>)
        ensures
            weekday < 7 ==> r == Some(self.fields()[weekday + 1]),
            weekday >= 7 ==> r is None,
    {
        match weekday {
            0 => Some(self.monday),
            1 => Some(self.tuesday),
            2 => Some(self.wednesday),
            3 => Some(self.thursday),
            4 => Some(self.friday),
            5 => Some(self.saturday),
            6 => Some(self.sunday),
            _ => None,
        }
    }
}

/// The script to run on a kind of day.
#[derive(Debug, Clone, Copy, PartialEq, Eq, Structural)]
pub struct DayProfile {
    pub day_id: u8,
    pub script_id: u8,
}

impl DayProfile {
    pub fn new(day_id: u8, script_id: u8) -> (r: DayProfile)
        ensures
            r == (DayProfile { day_id, script_id }),
    {
        DayProfile { day_id, script_id }
    }

    /// The day profile an array `[Unsigned8(day id), Unsigned8(script id), ..]`
    /// denotes.
    pub open spec fn spec_from_data_object(d: DataObject) -> Option<DayProfile> {
        match d {
            DataObject::Array(arr) => if arr@.len() >= 2 {
                match (arr@[0], arr@[1]) {
                    (DataObject::Unsigned8(a), DataObject::Unsigned8(b)) => Some(
                        DayProfile { day_id: a, script_id: b },
                    ),
                    _ => None,
                }
            } else {
                None
            },
            _ => None,
        }
    }

    /// `d` is the array `[Unsigned8(day id), Unsigned8(script id)]`.
    pub open spec fn is_encoding(self, d: DataObject) -> bool {
        d matches DataObject::Array(arr) && arr@.len() == 2 && arr@[0] == DataObject::Unsigned8(
            self.day_id,
        ) && arr@[1] == DataObject::Unsigned8(self.script_id)
    }

    /// Reads a day profile from its array form.
    pub fn from_data_object(value: &DataObject) -> (r: DlmsResult<DayProfile>)
        ensures
            r is Ok <==> DayProfile::spec_from_data_object(*value) is Some,
            r matches Ok(p) ==> DayProfile::spec_from_data_object(*value) == Some(p),
            r is Err ==> invalid(r),
    {
        match value {
            DataObject::Array(arr) => {
                if arr.len() < 2 {
                    return Err(invalid_data("Expected Array for DayProfile"));
                }
                let day_id = match &arr[0] {
                    DataObject::Unsigned8(id) => *id,
                    _ => return Err(invalid_data("Expected Unsigned8 for day_id")),
                };
                let script_id = match &arr[1] {
                    DataObject::Unsigned8(id) => *id,
                    _ => return Err(invalid_data("Expected Unsigned8 for script_id")),
                };
                Ok(DayProfile { day_id, script_id })
            },
            _ => Err(invalid_data("Expected Array for DayProfile")),
        }
    }

    /// The array form; reading it back gives the day profile again.
    pub fn to_data_object(&self) -> (r: DataObject)
        ensures
            self.is_encoding(r),
            DayProfile::spec_from_data_object(r) == Some(*self),
    {
        let mut items: Vec<DataObject> = Vec::new();
        items.push(DataObject::Unsigned8(self.day_id));
        items.push(DataObject::Unsigned8(self.script_id));
        DataObject::Array(items)
    }
}

/// The state of a [`CalendarState`].
pub struct CalendarStateView {
    pub calendar_name: Seq<char>,
    pub season_profiles: Seq<SeasonProfile>,
    pub week_profiles: Seq<WeekProfile>,
    pub day_profiles: Seq<DayProfile>,
}

impl CalendarStateView {
    pub open spec fn with_name(self, calendar_name: Seq<char>) -> CalendarStateView {
        CalendarStateView { calendar_name, ..self }
    }

    pub open spec fn with_seasons(self, season_profiles: Seq<SeasonProfile>) -> CalendarStateView {
        CalendarStateView { season_profiles, ..self }
    }

    pub open spec fn with_weeks(self, week_profiles: Seq<WeekProfile>) -> CalendarStateView {
        CalendarStateView { week_profiles, ..self }
    }

    pub open spec fn with_days(self, day_profiles: Seq<DayProfile>) -> CalendarStateView {
        CalendarStateView { day_profiles, ..self }
    }
}

/// One calendar: its name and its season, week and day profile tables.
#[derive(Debug)]
pub struct CalendarState {
    pub calendar_name: String,
    pub season_profiles: Vec<SeasonProfile>,
    pub week_profiles: Vec<WeekProfile>,
    pub day_profiles: Vec<DayProfile>,
}

impl View for CalendarState {
    type V = CalendarStateView;

    open spec fn view(&self) -> CalendarStateView {
        CalendarStateView {
            calendar_name: self.calendar_name@,
            season_profiles: self.season_profiles@,
            week_profiles: self.week_profiles@,
            day_profiles: self.day_profiles@,
        }
    }
}

/// A calendar with the given name and empty tables.
pub open spec fn empty_calendar(calendar_name: Seq<char>) -> CalendarStateView {
    CalendarStateView {
        calendar_name,
        season_profiles: Seq::empty(),
        week_profiles: Seq::empty(),
        day_profiles: Seq::empty(),
    }
}

impl CalendarState {
    /// A calendar with the given name and empty tables.
    pub fn new(calendar_name: String) -> (r: CalendarState)
        ensures
            r@ == empty_calendar(calendar_name@),
    {
        CalendarState {
            calendar_name,
            season_profiles: Vec::new(),
            week_profiles: Vec::new(),
            day_profiles: Vec::new(),
        }
    }

    /// The empty calendar named "Default".
    pub fn default_state() -> (r: CalendarState)
        ensures
            r@ == empty_calendar("Default"@),
    {
        CalendarState::new("Default".to_string())
    }

    /// All three tables are empty.
    pub fn is_empty(&self) -> (r: bool)
        ensures
            r == (self@.season_profiles.len() == 0 && self@.week_profiles.len() == 0
                && self@.day_profiles.len() == 0),
    {
        self.season_profiles.len() == 0 && self.week_profiles.len() == 0
            && self.day_profiles.len() == 0
    }

    /// A copy of the calendar.
    fn copy(&self) -> (r: CalendarState)
        ensures
            r@ == self@,
    {
        CalendarState {
            calendar_name: copy_string(&self.calendar_name),
            season_profiles: copy_vec(&self.season_profiles),
            week_profiles: copy_vec(&self.week_profiles),
            day_profiles: copy_vec(&self.day_profiles),
        }
    }
}

/// `d` is the array of the encodings of `ps`, in order.
pub open spec fn is_season_table(d: DataObject, ps: Seq<SeasonProfile>) -> bool {
    d matches DataObject::Array(items) && items@.len() == ps.len() && forall|i: int|
        0 <= i < ps.len() ==> ps[i].is_encoding(#[trigger] items@[i])
}

/// `d` is the array of the encodings of `ps`, in order.
pub open spec fn is_week_table(d: DataObject, ps: Seq<WeekProfile>) -> bool {
    d matches DataObject::Array(items) && items@.len() == ps.len() && forall|i: int|
        0 <= i < ps.len() ==> ps[i].is_encoding(#[trigger] items@[i])
}

/// `d` is the array of the encodings of `ps`, in order.
pub open spec fn is_day_table(d: DataObject, ps: Seq<DayProfile>) -> bool {
    d matches DataObject::Array(items) && items@.len() == ps.len() && forall|i: int|
        0 <= i < ps.len() ==> ps[i].is_encoding(#[trigger] items@[i])
}

/// What writing a profile table does: an array is read element by element
/// into `out` up to the first element `parse` refuses, and the write
/// succeeds when none is refused; `Null` empties the table; any other value
/// is refused and the table stays `before`.
pub open spec fn table_write<T>(
    value: DataObject,
    parse: spec_fn(DataObject) -> Option<T>,
    before: Seq<T>,
    out: Seq<T>,
    r: DlmsResult<()>,
) -> bool {
    match value {
        DataObject::Array(items) => {
            &&& parsed_prefix(items@, parse, out)
            &&& (r is Ok <==> out.len() == items@.len())
            &&& (r is Err ==> invalid(r))
        },
        DataObject::Null => r is Ok && out.len() == 0,
        _ => invalid(r) && out == before,
    }
}

/// Reads season profiles into `out`, stopping at the first element that
/// does not read (or, when `checked`, does not validate).
fn read_seasons(items: &Vec<DataObject>, checked: bool, out: &mut Vec<SeasonProfile>) -> (r: DlmsResult<()>)
    requires
        old(out)@.len() == 0,
    ensures
        parsed_prefix(items@, season_parser(checked), final(out)@),
        r is Ok <==> final(out)@.len() == items@.len(),
        r is Err ==> invalid(r),
{
    let ghost parse = season_parser(checked);
    let mut i: usize = 0;
    while i < items.len()
        invariant
            i <= items@.len(),
            out@.len() == i,
            parse == season_parser(checked),
            forall|j: int| 0 <= j < i ==> parse(#[trigger] items@[j]) == Some(out@[j]),
        decreases items@.len() - i,
    {
        let p = match SeasonProfile::from_data_object(&items[i]) {
            Ok(p) => p,
            Err(e) => return Err(e),
        };
        if checked {
            match p.validate() {
                Ok(()) => {},
                Err(e) => return Err(e),
            }
        }
        out.push(p);
        i = i + 1;
    }
    Ok(())
}

/// Reads week profiles into `out`, stopping at the first element that does
/// not read.
fn read_weeks(items: &Vec<DataObject>, out: &mut Vec<WeekProfile>) -> (r: DlmsResult<()>)
    requires
        old(out)@.len() == 0,
    ensures
        parsed_prefix(items@, |d: DataObject| WeekProfile::spec_from_data_object(d), final(out)@),
        r is Ok <==> final(out)@.len() == items@.len(),
        r is Err ==> invalid(r),
{
    let mut i: usize = 0;
    while i < items.len()
        invariant
            i <= items@.len(),
            out@.len() == i,
            forall|j: int| 0 <= j < i ==> WeekProfile::spec_from_data_object(#[trigger] items@[j]) == Some(out@[j]),
        decreases items@.len() - i,
    {
        let p = match WeekProfile::from_data_object(&items[i]) {
            Ok(p) => p,
            Err(e) => return Err(e),
        };
        out.push(p);
        i = i + 1;
    }
    Ok(())
}

/// Reads day profiles into `out`, stopping at the first element that does
/// not read.
fn read_days(items: &Vec<DataObject>, out: &mut Vec<DayProfile>) -> (r: DlmsResult<()>)
    requires
        old(out)@.len() == 0,
    ensures
        parsed_prefix(items@, |d: DataObject| DayProfile::spec_from_data_object(d), final(out)@),
        r is Ok <==> final(out)@.len() == items@.len(),
        r is Err ==> invalid(r),
{
    let mut i: usize = 0;
    while i < items.len()
        invariant
            i <= items@.len(),
            out@.len() == i,
            forall|j: int| 0 <= j < i ==> DayProfile::spec_from_data_object(#[trigger] items@[j]) == Some(out@[j]),
        decreases items@.len() - i,
    {
        let p = match DayProfile::from_data_object(&items[i]) {
            Ok(p) => p,
            Err(e) => return Err(e),
        };
        out.push(p);
        i = i + 1;
    }
    Ok(())
}

fn encode_season_profiles(profiles: &Vec<SeasonProfile>) -> (r: DataObject)
    ensures
        is_season_table(r, profiles@),
{
    let mut items: Vec<DataObject> = Vec::new();
    let mut i: usize = 0;
    while i < profiles.len()
        invariant
            i <= profiles@.len(),
            items@.len() == i,
            forall|j: int| 0 <= j < i ==> profiles@[j].is_encoding(#[trigger] items@[j]),
        decreases profiles@.len() - i,
    {
        items.push(profiles[i].to_data_object());
        i = i + 1;
    }
    DataObject::Array(items)
}

fn encode_week_profiles(profiles: &Vec<WeekProfile>) -> (r: DataObject)
    ensures
        is_week_table(r, profiles@),
{
    let mut items: Vec<DataObject> = Vec::new();
    let mut i: usize = 0;
    while i < profiles.len()
        invariant
            i <= profiles@.len(),
            items@.len() == i,
            forall|j: int| 0 <= j < i ==> profiles@[j].is_encoding(#[trigger] items@[j]),
        decreases profiles@.len() - i,
    {
        items.push(profiles[i].to_data_object());
        i = i + 1;
    }
    DataObject::Array(items)
}

fn encode_day_profiles(profiles: &Vec<DayProfile>) -> (r: DataObject)
    ensures
        is_day_table(r, profiles@),
{
    let mut items: Vec<DataObject> = Vec::new();
    let mut i: usize = 0;
    while i < profiles.len()
        invariant
            i <= profiles@.len(),
            items@.len() == i,
            forall|j: int| 0 <= j < i ==> profiles@[j].is_encoding(#[trigger] items@[j]),
        decreases profiles@.len() - i,
    {
        items.push(profiles[i].to_data_object());
        i = i + 1;
    }
    DataObject::Array(items)
}

/// The state of an [`ActivityCalendar`].
pub struct ActivityCalendarView {
    pub logical_name: ObisCode,
    pub active: CalendarStateView,
    pub passive: CalendarStateView,
}

impl ActivityCalendarView {
    pub open spec fn with_active(self, active: CalendarStateView) -> ActivityCalendarView {
        ActivityCalendarView { active, ..self }
    }

    pub open spec fn with_passive(self, passive: CalendarStateView) -> ActivityCalendarView {
        ActivityCalendarView { passive, ..self }
    }
}

/// Activity Calendar interface class (class id 20).
pub struct ActivityCalendar {
    logical_name: ObisCode,
    active_state: CalendarState,
    passive_state: CalendarState,
}

impl View for ActivityCalendar {
    type V = ActivityCalendarView;

    closed spec fn view(&self) -> ActivityCalendarView {
        ActivityCalendarView {
            logical_name: self.logical_name,
            active: self.active_state@,
            passive: self.passive_state@,
        }
    }
}

impl ActivityCalendar {
    pub const CLASS_ID: u16 = 20;
    pub const ATTR_LOGICAL_NAME: u8 = 1;
    pub const ATTR_CALENDAR_NAME_ACTIVE: u8 = 2;
    pub const ATTR_SEASON_PROFILE_ACTIVE: u8 = 3;
    pub const ATTR_WEEK_PROFILE_TABLE_ACTIVE: u8 = 4;
    pub const ATTR_DAY_PROFILE_TABLE_ACTIVE: u8 = 5;
    pub const ATTR_CALENDAR_NAME_PASSIVE: u8 = 6;
    pub const ATTR_SEASON_PROFILE_PASSIVE: u8 = 7;
    pub const ATTR_WEEK_PROFILE_TABLE_PASSIVE: u8 = 8;
    pub const ATTR_DAY_PROFILE_TABLE_PASSIVE: u8 = 9;
    pub const METHOD_ACTIVATE_PASSIVE_CALENDAR: u8 = 1;

    /// Default OBIS code 0-0:13.0.0.255.
    pub fn default_obis() -> (r: ObisCode)
        ensures
            r == (ObisCode { a: 0, b: 0, c: 13, d: 0, e: 0, f: 255 }),
    {
        ObisCode::new(0, 0, 13, 0, 0, 255)
    }

    pub fn new(logical_name: ObisCode, active_state: CalendarState, passive_state: CalendarState) -> (r: ActivityCalendar)
        ensures
            r@ == (ActivityCalendarView { logical_name, active: active_state@, passive: passive_state@ }),
    {
        ActivityCalendar { logical_name, active_state, passive_state }
    }

    /// The default OBIS code and two empty calendars named "Default".
    pub fn with_default_obis() -> (r: ActivityCalendar)
        ensures
            r@ == (ActivityCalendarView {
                logical_name: ObisCode { a: 0, b: 0, c: 13, d: 0, e: 0, f: 255 },
                active: empty_calendar("Default"@),
                passive: empty_calendar("Default"@),
            }),
    {
        Self::new(Self::default_obis(), CalendarState::default_state(), CalendarState::default_state())
    }

    pub fn active_calendar_name(&self) -> (r: String)
        ensures
            r@ == self@.active.calendar_name,
    {
        copy_string(&self.active_state.calendar_name)
    }

    pub fn set_active_calendar_name(&mut self, name: String)
        ensures
            final(self)@ == old(self)@.with_active(old(self)@.active.with_name(name@)),
    {
        self.active_state.calendar_name = name;
    }

    pub fn passive_calendar_name(&self) -> (r: String)
        ensures
            r@ == self@.passive.calendar_name,
    {
        copy_string(&self.passive_state.calendar_name)
    }

    pub fn set_passive_calendar_name(&mut self, name: String)
        ensures
            final(self)@ == old(self)@.with_passive(old(self)@.passive.with_name(name@)),
    {
        self.passive_state.calendar_name = name;
    }

    pub fn active_season_profiles(&self) -> (r: Vec<SeasonProfile>)
        ensures
            r@ == self@.active.season_profiles,
    {
        copy_vec(&self.active_state.season_profiles)
    }

    /// Appends a season to the active calendar; fails, changing nothing, on
    /// a season that does not validate.
    pub fn add_active_season_profile(&mut self, profile: SeasonProfile) -> (r: DlmsResult<()>)
        ensures
            r is Ok <==> profile.spec_valid(),
            r is Ok ==> final(self)@ == old(self)@.with_active(
                old(self)@.active.with_seasons(old(self)@.active.season_profiles.push(profile)),
            ),
            r is Err ==> invalid(r) && final(self)@ == old(self)@,
    {
        match profile.validate() {
            Ok(()) => {},
            Err(e) => return Err(e),
        }
        self.active_state.season_profiles.push(profile);
        Ok(())
    }

    pub fn clear_active_season_profiles(&mut self)
        ensures
            final(self)@ == old(self)@.with_active(old(self)@.active.with_seasons(Seq::empty())),
    {
        self.active_state.season_profiles = Vec::new();
    }

    pub fn passive_season_profiles(&self) -> (r: Vec<SeasonProfile>)
        ensures
            r@ == self@.passive.season_profiles,
    {
        copy_vec(&self.passive_state.season_profiles)
    }

    /// Appends a season to the passive calendar; fails, changing nothing, on
    /// a season that does not validate.
    pub fn add_passive_season_profile(&mut self, profile: SeasonProfile) -> (r: DlmsResult<()>)
        ensures
            r is Ok <==> profile.spec_valid(),
            r is Ok ==> final(self)@ == old(self)@.with_passive(
                old(self)@.passive.with_seasons(old(self)@.passive.season_profiles.push(profile)),
            ),
            r is Err ==> invalid(r) && final(self)@ == old(self)@,
    {
        match profile.validate() {
            Ok(()) => {},
            Err(e) => return Err(e),
        }
        self.passive_state.season_profiles.push(profile);
        Ok(())
    }

    pub fn active_week_profiles(&self) -> (r: Vec<WeekProfile>)
        ensures
            r@ == self@.active.week_profiles,
    {
        copy_vec(&self.active_state.week_profiles)
    }

    pub fn add_active_week_profile(&mut self, profile: WeekProfile)
        ensures
            final(self)@ == old(self)@.with_active(
                old(self)@.active.with_weeks(old(self)@.active.week_profiles.push(profile)),
            ),
    {
        self.active_state.week_profiles.push(profile);
    }

    pub fn passive_week_profiles(&self) -> (r: Vec<WeekProfile>)
        ensures
            r@ == self@.passive.week_profiles,
    {
        copy_vec(&self.passive_state.week_profiles)
    }

    pub fn add_passive_week_profile(&mut self, profile: WeekProfile)
        ensures
            final(self)@ == old(self)@.with_passive(
                old(self)@.passive.with_weeks(old(self)@.passive.week_profiles.push(profile)),
            ),
    {
        self.passive_state.week_profiles.push(profile);
    }

    pub fn active_day_profiles(&self) -> (r: Vec<DayProfile>)
        ensures
            r@ == self@.active.day_profiles,
    {
        copy_vec(&self.active_state.day_profiles)
    }

    pub fn add_active_day_profile(&mut self, profile: DayProfile)
        ensures
            final(self)@ == old(self)@.with_active(
                old(self)@.active.with_days(old(self)@.active.day_profiles.push(profile)),
            ),
    {
        self.active_state.day_profiles.push(profile);
    }

    pub fn passive_day_profiles(&self) -> (r: Vec<DayProfile>)
        ensures
            r@ == self@.passive.day_profiles,
    {
        copy_vec(&self.passive_state.day_profiles)
    }

    pub fn add_passive_day_profile(&mut self, profile: DayProfile)
        ensures
            final(self)@ == old(self)@.with_passive(
                old(self)@.passive.with_days(old(self)@.passive.day_profiles.push(profile)),
            ),
    {
        self.passive_state.day_profiles.push(profile);
    }

    /// Makes a copy of the passive calendar the active one (method 1); the
    /// passive calendar stays as it is.
    pub fn activate_passive_calendar(&mut self) -> (r: DlmsResult<()>)
        ensures
            r is Ok,
            final(self)@ == old(self)@.with_active(old(self)@.passive),
    {
        self.active_state = self.passive_state.copy();
        Ok(())
    }
}

impl CosemObject for ActivityCalendar {
    fn class_id(&self) -> (r: u16)
        ensures
            r == 20,
    {
        Self::CLASS_ID
    }

    fn obis_code(&self) -> (r: ObisCode)
        ensures
            r == self@.logical_name,
    {
        self.logical_name
    }

    fn get_attribute(
        &self,
        attribute_id: u8,
        selective_access: Option<&SelectiveAccessDescriptor>,
    ) -> (r: DlmsResult<DataObject>)
        ensures
            match attribute_id {
                1 => ok_octets(r, self@.logical_name.spec_bytes()),
                2 => ok_octets(r, encode_utf8(self@.active.calendar_name)),
                3 => r matches Ok(d) && is_season_table(d, self@.active.season_profiles),
                4 => r matches Ok(d) && is_week_table(d, self@.active.week_profiles),
                5 => r matches Ok(d) && is_day_table(d, self@.active.day_profiles),
                6 => ok_octets(r, encode_utf8(self@.passive.calendar_name)),
                7 => r matches Ok(d) && is_season_table(d, self@.passive.season_profiles),
                8 => r matches Ok(d) && is_week_table(d, self@.passive.week_profiles),
                9 => r matches Ok(d) && is_day_table(d, self@.passive.day_profiles),
                _ => invalid(r),
            },
    {
        match attribute_id {
            1 => Ok(DataObject::OctetString(self.logical_name.to_bytes())),
            2 => Ok(DataObject::OctetString(string_bytes(&self.active_state.calendar_name))),
            3 => Ok(encode_season_profiles(&self.active_state.season_profiles)),
            4 => Ok(encode_week_profiles(&self.active_state.week_profiles)),
            5 => Ok(encode_day_profiles(&self.active_state.day_profiles)),
            6 => Ok(DataObject::OctetString(string_bytes(&self.passive_state.calendar_name))),
            7 => Ok(encode_season_profiles(&self.passive_state.season_profiles)),
            8 => Ok(encode_week_profiles(&self.passive_state.week_profiles)),
            9 => Ok(encode_day_profiles(&self.passive_state.day_profiles)),
            _ => Err(invalid_data_number("Activity Calendar has no attribute ", attribute_id as u64)),
        }
    }

    /// A calendar name is written from an octet string, decoded as UTF-8
    /// with invalid sequences replaced. A profile table is written from an
    /// array, element by element: the table is emptied first, and a refused
    /// element stops the write with an error, leaving the elements read
    /// before it in the table. Active seasons must also validate.
    fn set_attribute(
        &mut self,
        attribute_id: u8,
        value: DataObject,
        selective_access: Option<&SelectiveAccessDescriptor>,
    ) -> (r: DlmsResult<()>)
        ensures
            match attribute_id {
                1 => denied(r) && final(self)@ == old(self)@,
                2 => match value {
                    DataObject::OctetString(b) => r is Ok && final(self)@ == old(self)@.with_active(
                        old(self)@.active.with_name(spec_utf8_lossy(b@)),
                    ),
                    _ => invalid(r) && final(self)@ == old(self)@,
                },
                3 => final(self)@ == old(self)@.with_active(
                    old(self)@.active.with_seasons(final(self)@.active.season_profiles),
                ) && table_write(
                    value,
                    season_parser(true),
                    old(self)@.active.season_profiles,
                    final(self)@.active.season_profiles,
                    r,
                ),
                4 => final(self)@ == old(self)@.with_active(
                    old(self)@.active.with_weeks(final(self)@.active.week_profiles),
                ) && table_write(
                    value,
                    |d: DataObject| WeekProfile::spec_from_data_object(d),
                    old(self)@.active.week_profiles,
                    final(self)@.active.week_profiles,
                    r,
                ),
                5 => final(self)@ == old(self)@.with_active(
                    old(self)@.active.with_days(final(self)@.active.day_profiles),
                ) && table_write(
                    value,
                    |d: DataObject| DayProfile::spec_from_data_object(d),
                    old(self)@.active.day_profiles,
                    final(self)@.active.day_profiles,
                    r,
                ),
                6 => match value {
                    DataObject::OctetString(b) => r is Ok && final(self)@ == old(self)@.with_passive(
                        old(self)@.passive.with_name(spec_utf8_lossy(b@)),
                    ),
                    _ => invalid(r) && final(self)@ == old(self)@,
                },
                7 => final(self)@ == old(self)@.with_passive(
                    old(self)@.passive.with_seasons(final(self)@.passive.season_profiles),
                ) && table_write(
                    value,
                    season_parser(false),
                    old(self)@.passive.season_profiles,
                    final(self)@.passive.season_profiles,
                    r,
                ),
                8 => final(self)@ == old(self)@.with_passive(
                    old(self)@.passive.with_weeks(final(self)@.passive.week_profiles),
                ) && table_write(
                    value,
                    |d: DataObject| WeekProfile::spec_from_data_object(d),
                    old(self)@.passive.week_profiles,
                    final(self)@.passive.week_profiles,
                    r,
                ),
                9 => final(self)@ == old(self)@.with_passive(
                    old(self)@.passive.with_days(final(self)@.passive.day_profiles),
                ) && table_write(
                    value,
                    |d: DataObject| DayProfile::spec_from_data_object(d),
                    old(self)@.passive.day_profiles,
                    final(self)@.passive.day_profiles,
                    r,
                ),
                _ => invalid(r) && final(self)@ == old(self)@,
            },
    {
        match attribute_id {
            1 => Err(access_denied("Attribute 1 (logical_name) is read-only")),
            2 => match value {
                DataObject::OctetString(bytes) => {
                    self.active_state.calendar_name = string_from_bytes_lossy(bytes.as_slice());
                    Ok(())
                },
                _ => Err(invalid_data("Expected OctetString for calendar_name")),
            },
            3 => match value {
                DataObject::Array(items) => {
                    let mut out: Vec<SeasonProfile> = Vec::new();
                    let r = read_seasons(&items, true, &mut out);
                    self.active_state.season_profiles = out;
                    r
                },
                DataObject::Null => {
                    self.active_state.season_profiles = Vec::new();
                    Ok(())
                },
                _ => Err(invalid_data("Expected Array for season_profile")),
            },
            4 => match value {
                DataObject::Array(items) => {
                    let mut out: Vec<WeekProfile> = Vec::new();
                    let r = read_weeks(&items, &mut out);
                    self.active_state.week_profiles = out;
                    r
                },
                DataObject::Null => {
                    self.active_state.week_profiles = Vec::new();
                    Ok(())
                },
                _ => Err(invalid_data("Expected Array for week_profile_table")),
            },
            5 => match value {
                DataObject::Array(items) => {
                    let mut out: Vec<DayProfile> = Vec::new();
                    let r = read_days(&items, &mut out);
                    self.active_state.day_profiles = out;
                    r
                },
                DataObject::Null => {
                    self.active_state.day_profiles = Vec::new();
                    Ok(())
                },
                _ => Err(invalid_data("Expected Array for day_profile_table")),
            },
            6 => match value {
                DataObject::OctetString(bytes) => {
                    self.passive_state.calendar_name = string_from_bytes_lossy(bytes.as_slice());
                    Ok(())
                },
                _ => Err(invalid_data("Expected OctetString for calendar_name")),
            },
            7 => match value {
                DataObject::Array(items) => {
                    let mut out: Vec<SeasonProfile> = Vec::new();
                    let r = read_seasons(&items, false, &mut out);
                    self.passive_state.season_profiles = out;
                    r
                },
                DataObject::Null => {
                    self.passive_state.season_profiles = Vec::new();
                    Ok(())
                },
                _ => Err(invalid_data("Expected Array for season_profile")),
            },
            8 => match value {
                DataObject::Array(items) => {
                    let mut out: Vec<WeekProfile> = Vec::new();
                    let r = read_weeks(&items, &mut out);
                    self.passive_state.week_profiles = out;
                    r
                },
                DataObject::Null => {
                    self.passive_state.week_profiles = Vec::new();
                    Ok(())
                },
                _ => Err(invalid_data("Expected Array for week_profile_table")),
            },
            9 => match value {
                DataObject::Array(items) => {
                    let mut out: Vec<DayProfile> = Vec::new();
                    let r = read_days(&items, &mut out);
                    self.passive_state.day_profiles = out;
                    r
                },
                DataObject::Null => {
                    self.passive_state.day_profiles = Vec::new();
                    Ok(())
                },
                _ => Err(invalid_data("Expected Array for day_profile_table")),
            },
            _ => Err(invalid_data_number("Activity Calendar has no attribute ", attribute_id as u64)),
        }
    }

    fn invoke_method(
        &mut self,
        method_id: u8,
        parameters: Option<DataObject>,
        selective_access: Option<&SelectiveAccessDescriptor>,
    ) -> (r: DlmsResult<Option<DataObject>>)
        ensures
            method_id == 1 ==> r == Ok::<Option<DataObject>, DlmsError>(None) && final(self)@
                == old(self)@.with_active(old(self)@.passive),
            method_id != 1 ==> invalid(r) && final(self)@ == old(self)@,
    {
        match method_id {
            1 => {
                self.activate_passive_calendar();
                Ok(None)
            },
            _ => Err(invalid_data_number("Activity Calendar has no method ", method_id as u64)),
        }
    }
}

/// An element that is the encoding of a week profile reads back as it.
pub proof fn lemma_week_encoding_reads_back(p: WeekProfile, d: DataObject)
    requires
        p.is_encoding(d),
    ensures
        WeekProfile::spec_from_data_object(d) == Some(p),
{
    let arr = d->Array_0;
    assert forall|i: int| 0 <= i < 8 implies (#[trigger] spec_u8_of(arr@[i])) is Some by {
        assert(arr@[i] == DataObject::Unsigned8(p.fields()[i]));
    }
    assert(arr@[0] == DataObject::Unsigned8(p.fields()[0]));
    assert(arr@[1] == DataObject::Unsigned8(p.fields()[1]));
    assert(arr@[2] == DataObject::Unsigned8(p.fields()[2]));
    assert(arr@[3] == DataObject::Unsigned8(p.fields()[3]));
    assert(arr@[4] == DataObject::Unsigned8(p.fields()[4]));
    assert(arr@[5] == DataObject::Unsigned8(p.fields()[5]));
    assert(arr@[6] == DataObject::Unsigned8(p.fields()[6]));
    assert(arr@[7] == DataObject::Unsigned8(p.fields()[7]));
}

/// Writing a week profile table back as it was read (attribute 4 or 8)
/// succeeds and leaves exactly the table that was read.
pub proof fn lemma_week_table_write_back(d: DataObject, ps: Seq<WeekProfile>)
    requires
        is_week_table(d, ps),
    ensures
        d matches DataObject::Array(items) && items@.len() == ps.len() && parsed_prefix(
            items@,
            |x: DataObject| WeekProfile::spec_from_data_object(x),
            ps,
        ),
{
    let items = d->Array_0;
    assert forall|i: int| 0 <= i < ps.len() implies WeekProfile::spec_from_data_object(
        #[trigger] items@[i],
    ) == Some(ps[i]) by {
        lemma_week_encoding_reads_back(ps[i], items@[i]);
    }
}

/// Writing a day profile table back as it was read (attribute 5 or 9)
/// succeeds and leaves exactly the table that was read.
pub proof fn lemma_day_table_write_back(d: DataObject, ps: Seq<DayProfile>)
    requires
        is_day_table(d, ps),
    ensures
        d matches DataObject::Array(items) && items@.len() == ps.len() && parsed_prefix(
            items@,
            |x: DataObject| DayProfile::spec_from_data_object(x),
            ps,
        ),
{
    let items = d->Array_0;
    assert forall|i: int| 0 <= i < ps.len() implies DayProfile::spec_from_data_object(
        #[trigger] items@[i],
    ) == Some(ps[i]) by {
        assert(ps[i].is_encoding(items@[i]));
    }
}

/// A season whose day identifier is the one its code reads as.
pub open spec fn canonical_day_id(p: SeasonProfile) -> bool {
    p.day_id == DayId::spec_from_u8(p.day_id.spec_to_u8())
}

/// Writing a season table back as it was read (attribute 3 or 7) succeeds
/// and leaves exactly the table that was read, provided every season in it
/// validates and carries a day identifier that its code reads back as.
pub proof fn lemma_season_table_write_back(d: DataObject, ps: Seq<SeasonProfile>, checked: bool)
    requires
        is_season_table(d, ps),
        forall|i: int| 0 <= i < ps.len() ==> (#[trigger] ps[i]).spec_valid() && canonical_day_id(ps[i]),
    ensures
        d matches DataObject::Array(items) && items@.len() == ps.len() && parsed_prefix(
            items@,
            season_parser(checked),
            ps,
        ),
{
    let items = d->Array_0;
    assert forall|i: int| 0 <= i < ps.len() implies season_parser(checked)(#[trigger] items@[i])
        == Some(ps[i]) by {
        let p = ps[i];
        assert(p.spec_valid() && canonical_day_id(p));
        assert(p.is_encoding(items@[i]));
        lemma_date_roundtrip(p.start_date);
        let arr = items@[i]->Array_0;
        assert(arr@[0] matches DataObject::OctetString(b) && b@ == p.start_date.spec_encode());
        assert(SeasonProfile::spec_from_data_object(items@[i]) == Some(p));
    }
}

} // verus!
