use dlms_interface::activity_calendar::{ActivityCalendar, CalendarState, DayId, DayProfile, SeasonProfile, WeekProfile};
use dlms_interface::{CosemDate, CosemObject, DataObject};

fn create_test_date(year: u16, month: u8, day: u8) -> CosemDate {
    CosemDate::new(year, month, day).unwrap()
}

#[test]
fn test_activity_calendar_class_id() {
    let calendar = ActivityCalendar::with_default_obis();
    assert_eq!(calendar.class_id(), 20);
}

#[test]
fn test_activity_calendar_obis_code() {
    let calendar = ActivityCalendar::with_default_obis();
    assert_eq!(calendar.obis_code(), ActivityCalendar::default_obis());
}

#[test]
fn test_activity_calendar_default_names() {
    let calendar = ActivityCalendar::with_default_obis();
    assert_eq!(calendar.active_calendar_name(), "Default");
    assert_eq!(calendar.passive_calendar_name(), "Default");
}

#[test]
fn test_season_profile_new() {
    let date = create_test_date(2024, 6, 15);
    let profile = SeasonProfile::new(date.clone(), 6, 15, DayId::NormalWorkingDay);
    assert_eq!(profile.month, 6);
    assert_eq!(profile.day, 15);
    assert_eq!(profile.day_id, DayId::NormalWorkingDay);
}

#[test]
fn test_season_profile_validate() {
    let date = create_test_date(2024, 6, 15);
    let valid_profile = SeasonProfile::new(date.clone(), 6, 15, DayId::NormalWorkingDay);
    assert!(valid_profile.validate().is_ok());

    let invalid_month = SeasonProfile::new(date.clone(), 13, 15, DayId::NormalWorkingDay);
    assert!(invalid_month.validate().is_err());

    let invalid_day = SeasonProfile::new(date, 6, 32, DayId::NormalWorkingDay);
    assert!(invalid_day.validate().is_err());
}

#[test]
fn test_season_profile_to_data_object() {
    let date = create_test_date(2024, 6, 15);
    let profile = SeasonProfile::new(date, 6, 15, DayId::PublicHoliday);
    let data = profile.to_data_object();

    match data {
        DataObject::Array(arr) => {
            assert_eq!(arr.len(), 4);
        }
        _ => panic!("Expected Array"),
    }
}

#[test]
fn test_season_profile_from_data_object() {
    let date = create_test_date(2024, 6, 15);
    let date_bytes = date.encode();
    let data = DataObject::Array(vec![
        DataObject::OctetString(date_bytes),
        DataObject::Unsigned8(6),
        DataObject::Unsigned8(15),
        DataObject::Enumerate(2),
    ]);

    let profile = SeasonProfile::from_data_object(&data).unwrap();
    assert_eq!(profile.month, 6);
    assert_eq!(profile.day, 15);
    assert_eq!(profile.day_id, DayId::PublicHoliday);
}

#[test]
fn test_week_profile_new() {
    let profile = WeekProfile::new(1, 1, 2, 3, 4, 5, 6, 7);
    assert_eq!(profile.week_id, 1);
    assert_eq!(profile.monday, 1);
    assert_eq!(profile.sunday, 7);
}

#[test]
fn test_week_profile_get_day_profile() {
    let profile = WeekProfile::new(1, 1, 2, 3, 4, 5, 6, 7);
    assert_eq!(profile.get_day_profile(0), Some(1));
    assert_eq!(profile.get_day_profile(6), Some(7));
    assert_eq!(profile.get_day_profile(3), Some(4));
    assert_eq!(profile.get_day_profile(99), None);
}

#[test]
fn test_week_profile_to_data_object() {
    let profile = WeekProfile::new(1, 1, 2, 3, 4, 5, 6, 7);
    let data = profile.to_data_object();

    match data {
        DataObject::Array(arr) => {
            assert_eq!(arr.len(), 8);
        }
        _ => panic!("Expected Array"),
    }
}

#[test]
fn test_week_profile_from_data_object() {
    let data = DataObject::Array(vec![
        DataObject::Unsigned8(1),
        DataObject::Unsigned8(1),
        DataObject::Unsigned8(2),
        DataObject::Unsigned8(3),
        DataObject::Unsigned8(4),
        DataObject::Unsigned8(5),
        DataObject::Unsigned8(6),
        DataObject::Unsigned8(7),
    ]);

    let profile = WeekProfile::from_data_object(&data).unwrap();
    assert_eq!(profile.week_id, 1);
    assert_eq!(profile.monday, 1);
    assert_eq!(profile.sunday, 7);
}

#[test]
fn test_day_profile_new() {
    let profile = DayProfile::new(5, 10);
    assert_eq!(profile.day_id, 5);
    assert_eq!(profile.script_id, 10);
}

#[test]
fn test_day_profile_to_data_object() {
    let profile = DayProfile::new(5, 10);
    let data = profile.to_data_object();

    match data {
        DataObject::Array(arr) => {
            assert_eq!(arr.len(), 2);
        }
        _ => panic!("Expected Array"),
    }
}

#[test]
fn test_day_profile_from_data_object() {
    let data = DataObject::Array(vec![DataObject::Unsigned8(5), DataObject::Unsigned8(10)]);

    let profile = DayProfile::from_data_object(&data).unwrap();
    assert_eq!(profile.day_id, 5);
    assert_eq!(profile.script_id, 10);
}

#[test]
fn test_calendar_state_new() {
    let state = CalendarState::new("TestCalendar".to_string());
    assert_eq!(state.calendar_name, "TestCalendar");
    assert!(state.is_empty());
}

#[test]
fn test_activity_calendar_set_active_name() {
    let mut calendar = ActivityCalendar::with_default_obis();
    calendar.set_active_calendar_name("SummerRates".to_string());
    assert_eq!(calendar.active_calendar_name(), "SummerRates");
}

#[test]
fn test_activity_calendar_set_passive_name() {
    let mut calendar = ActivityCalendar::with_default_obis();
    calendar.set_passive_calendar_name("WinterRates".to_string());
    assert_eq!(calendar.passive_calendar_name(), "WinterRates");
}

#[test]
fn test_activity_calendar_add_season_profile() {
    let mut calendar = ActivityCalendar::with_default_obis();
    let date = create_test_date(2024, 6, 15);
    let profile = SeasonProfile::new(date, 6, 15, DayId::NormalWorkingDay);

    calendar.add_active_season_profile(profile).unwrap();
    let profiles = calendar.active_season_profiles();
    assert_eq!(profiles.len(), 1);
}

#[test]
fn test_activity_calendar_add_week_profile() {
    let mut calendar = ActivityCalendar::with_default_obis();
    let profile = WeekProfile::new(1, 1, 2, 3, 4, 5, 6, 7);

    calendar.add_active_week_profile(profile);
    let profiles = calendar.active_week_profiles();
    assert_eq!(profiles.len(), 1);
}

#[test]
fn test_activity_calendar_add_day_profile() {
    let mut calendar = ActivityCalendar::with_default_obis();
    let profile = DayProfile::new(1, 5);

    calendar.add_active_day_profile(profile);
    let profiles = calendar.active_day_profiles();
    assert_eq!(profiles.len(), 1);
}

#[test]
fn test_activity_calendar_activate_passive() {
    let mut calendar = ActivityCalendar::with_default_obis();

    calendar.set_passive_calendar_name("NewCalendar".to_string());
    let date = create_test_date(2024, 6, 15);
    let profile = SeasonProfile::new(date, 6, 15, DayId::PublicHoliday);
    calendar.add_passive_season_profile(profile).unwrap();

    calendar.activate_passive_calendar().unwrap();

    assert_eq!(calendar.active_calendar_name(), "NewCalendar");
    let profiles = calendar.active_season_profiles();
    assert_eq!(profiles.len(), 1);
}

#[test]
fn test_activity_calendar_get_logical_name() {
    let calendar = ActivityCalendar::with_default_obis();
    let result = calendar.get_attribute(1, None).unwrap();

    match result {
        DataObject::OctetString(bytes) => {
            assert_eq!(bytes.len(), 6);
        }
        _ => panic!("Expected OctetString"),
    }
}

#[test]
fn test_activity_calendar_get_calendar_name_active() {
    let mut calendar = ActivityCalendar::with_default_obis();
    calendar.set_active_calendar_name("Summer".to_string());

    let result = calendar.get_attribute(2, None).unwrap();
    match result {
        DataObject::OctetString(bytes) => {
            assert_eq!(bytes, b"Summer".to_vec());
        }
        _ => panic!("Expected OctetString"),
    }
}

#[test]
fn test_activity_calendar_get_season_profile_active() {
    let mut calendar = ActivityCalendar::with_default_obis();
    let date = create_test_date(2024, 6, 15);
    let profile = SeasonProfile::new(date, 6, 15, DayId::NormalWorkingDay);
    calendar.add_active_season_profile(profile).unwrap();

    let result = calendar.get_attribute(3, None).unwrap();
    match result {
        DataObject::Array(arr) => {
            assert_eq!(arr.len(), 1);
        }
        _ => panic!("Expected Array"),
    }
}

#[test]
fn test_activity_calendar_get_week_profile_active() {
    let mut calendar = ActivityCalendar::with_default_obis();
    let profile = WeekProfile::new(1, 1, 2, 3, 4, 5, 6, 7);
    calendar.add_active_week_profile(profile);

    let result = calendar.get_attribute(4, None).unwrap();
    match result {
        DataObject::Array(arr) => {
            assert_eq!(arr.len(), 1);
        }
        _ => panic!("Expected Array"),
    }
}

#[test]
fn test_activity_calendar_get_day_profile_active() {
    let mut calendar = ActivityCalendar::with_default_obis();
    let profile = DayProfile::new(1, 5);
    calendar.add_active_day_profile(profile);

    let result = calendar.get_attribute(5, None).unwrap();
    match result {
        DataObject::Array(arr) => {
            assert_eq!(arr.len(), 1);
        }
        _ => panic!("Expected Array"),
    }
}

#[test]
fn test_activity_calendar_set_calendar_name() {
    let mut calendar = ActivityCalendar::with_default_obis();
    calendar
        .set_attribute(2, DataObject::OctetString(b"Winter".to_vec()), None).unwrap();

    assert_eq!(calendar.active_calendar_name(), "Winter");
}

#[test]
fn test_activity_calendar_set_season_profile() {
    let mut calendar = ActivityCalendar::with_default_obis();
    let date = create_test_date(2024, 6, 15);
    let date_bytes = date.encode();
    let profile_data = DataObject::Array(vec![
        DataObject::OctetString(date_bytes),
        DataObject::Unsigned8(6),
        DataObject::Unsigned8(15),
        DataObject::Enumerate(0),
    ]);

    calendar
        .set_attribute(3, DataObject::Array(vec![profile_data]), None).unwrap();

    let profiles = calendar.active_season_profiles();
    assert_eq!(profiles.len(), 1);
    assert_eq!(profiles[0].month, 6);
}

#[test]
fn test_activity_calendar_set_null_clears() {
    let mut calendar = ActivityCalendar::with_default_obis();
    let date = create_test_date(2024, 6, 15);
    let profile = SeasonProfile::new(date, 6, 15, DayId::NormalWorkingDay);
    calendar.add_active_season_profile(profile).unwrap();

    calendar.set_attribute(3, DataObject::Null, None).unwrap();

    assert!(calendar.active_season_profiles().is_empty());
}

#[test]
fn test_activity_calendar_read_only_logical_name() {
    let mut calendar = ActivityCalendar::with_default_obis();
    let result = calendar.set_attribute(1, DataObject::OctetString(vec![0, 0, 13, 0, 0, 1]), None);
    assert!(result.is_err());
}

#[test]
fn test_activity_calendar_method_activate() {
    let mut calendar = ActivityCalendar::with_default_obis();
    calendar.set_passive_calendar_name("Activated".to_string());

    let result = calendar.invoke_method(1, None, None).unwrap();
    assert!(result.is_none());

    assert_eq!(calendar.active_calendar_name(), "Activated");
}

#[test]
fn test_activity_calendar_invalid_attribute() {
    let calendar = ActivityCalendar::with_default_obis();
    let result = calendar.get_attribute(99, None);
    assert!(result.is_err());
}

#[test]
fn test_activity_calendar_invalid_method() {
    let mut calendar = ActivityCalendar::with_default_obis();
    let result = calendar.invoke_method(99, None, None);
    assert!(result.is_err());
}

#[test]
fn test_day_id_codes_round_trip() {
    for code in 0..=255u8 {
        assert_eq!(DayId::from_u8(code).to_u8(), code);
    }
    assert_eq!(DayId::from_u8(1), DayId::NonWorkingDay);
    assert_eq!(DayId::from_u8(7), DayId::Custom(7));
}

#[test]
fn test_week_table_write_back_restores_table() {
    let mut calendar = ActivityCalendar::with_default_obis();
    calendar.add_active_week_profile(WeekProfile::new(1, 1, 2, 3, 4, 5, 6, 7));
    calendar.add_active_week_profile(WeekProfile::new(2, 7, 6, 5, 4, 3, 2, 1));
    let table = calendar.get_attribute(4, None).unwrap();
    calendar.set_attribute(4, table, None).unwrap();
    let weeks = calendar.active_week_profiles();
    assert_eq!(weeks, vec![WeekProfile::new(1, 1, 2, 3, 4, 5, 6, 7), WeekProfile::new(2, 7, 6, 5, 4, 3, 2, 1)]);
}

#[test]
fn test_failed_table_write_keeps_prefix() {
    let mut calendar = ActivityCalendar::with_default_obis();
    let good = DayProfile::new(1, 5).to_data_object();
    let bad = DataObject::Array(vec![DataObject::Unsigned8(1)]);
    let third = DayProfile::new(2, 6).to_data_object();
    let result = calendar.set_attribute(5, DataObject::Array(vec![good, bad, third]), None);
    assert!(result.is_err());
    assert_eq!(calendar.active_day_profiles(), vec![DayProfile::new(1, 5)]);
}

#[test]
fn test_active_season_write_validates_but_passive_does_not() {
    let mut calendar = ActivityCalendar::with_default_obis();
    let date = create_test_date(2024, 6, 15);
    let invalid = SeasonProfile::new(date, 13, 15, DayId::NormalWorkingDay).to_data_object();
    let r_active = calendar.set_attribute(3, DataObject::Array(vec![invalid.deep_copy()]), None);
    assert!(r_active.is_err());
    assert!(calendar.active_season_profiles().is_empty());
    calendar.set_attribute(7, DataObject::Array(vec![invalid]), None).unwrap();
    assert_eq!(calendar.passive_season_profiles().len(), 1);
    assert_eq!(calendar.passive_season_profiles()[0].month, 13);
}

#[test]
fn test_calendar_name_from_invalid_utf8_is_replaced() {
    let mut calendar = ActivityCalendar::with_default_obis();
    calendar.set_attribute(6, DataObject::OctetString(vec![0x41, 0xFF, 0x42]), None).unwrap();
    assert_eq!(calendar.passive_calendar_name(), "A\u{FFFD}B");
}

#[test]
fn test_wrong_type_for_table_is_refused_and_changes_nothing() {
    let mut calendar = ActivityCalendar::with_default_obis();
    calendar.add_active_day_profile(DayProfile::new(1, 5));
    assert!(calendar.set_attribute(5, DataObject::Unsigned8(1), None).is_err());
    assert_eq!(calendar.active_day_profiles().len(), 1);
}
