use inventory_store::date::{leap_year, month_length, Date, MAX_YEAR, MIN_YEAR};

#[test]
fn a_day_that_exists_is_a_date() {
    let date = Date::from_ymd(2015, 3, 14).unwrap();
    assert_eq!(date.year(), 2015);
    assert_eq!(date.month(), 3);
    assert_eq!(date.day(), 14);
    assert_eq!(date.ymd(), (2015, 3, 14));
}

#[test]
fn a_day_that_does_not_exist_is_no_date() {
    assert_eq!(Date::from_ymd(2015, 0, 14), None);
    assert_eq!(Date::from_ymd(2015, 13, 1), None);
    assert_eq!(Date::from_ymd(2015, 1, 0), None);
    assert_eq!(Date::from_ymd(2015, 1, 32), None);
    assert_eq!(Date::from_ymd(2023, 4, 31), None);
    assert_eq!(Date::from_ymd(2015, 2, 29), None);
    assert_eq!(Date::from_ymd(1900, 2, 29), None);
}

#[test]
fn leap_days_exist() {
    assert!(Date::from_ymd(2024, 2, 29).is_some());
    assert!(Date::from_ymd(2000, 2, 29).is_some());
    assert!(Date::from_ymd(-4, 2, 29).is_some());
    assert!(Date::from_ymd(0, 2, 29).is_some());
}

#[test]
fn years_have_bounds() {
    assert_eq!(MIN_YEAR, -262143);
    assert_eq!(MAX_YEAR, 262142);
    assert!(Date::from_ymd(MAX_YEAR, 12, 31).is_some());
    assert!(Date::from_ymd(MIN_YEAR, 1, 1).is_some());
    assert_eq!(Date::from_ymd(MAX_YEAR + 1, 1, 1), None);
    assert_eq!(Date::from_ymd(MIN_YEAR - 1, 12, 31), None);
    assert_eq!(Date::from_ymd(400000, 1, 1), None);
    assert_eq!(Date::from_ymd(-400000, 1, 1), None);
    assert_eq!(Date::from_ymd(i32::MAX, 1, 1), None);
    assert_eq!(Date::from_ymd(i32::MIN, 1, 1), None);
}

#[test]
fn leap_years_follow_the_gregorian_rule() {
    assert!(leap_year(2024));
    assert!(leap_year(2000));
    assert!(!leap_year(1900));
    assert!(!leap_year(2023));
    assert!(leap_year(-4));
    assert!(!leap_year(-1));
    assert!(leap_year(-400));
    assert!(!leap_year(-100));
    assert!(leap_year(i32::MIN));
    assert!(!leap_year(i32::MAX));
}

#[test]
fn months_have_their_lengths() {
    let lengths: Vec<u32> = (1..=12).map(|m| month_length(2023, m)).collect();
    assert_eq!(lengths, vec![31, 28, 31, 30, 31, 30, 31, 31, 30, 31, 30, 31]);
    assert_eq!(month_length(2024, 2), 29);
    assert_eq!(month_length(2023, 0), 0);
    assert_eq!(month_length(2023, 13), 0);
}

#[test]
fn a_date_is_a_day_that_the_calendar_library_accepts() {
    let cases = [
        (2015, 3, 14),
        (2015, 2, 29),
        (2016, 2, 29),
        (1900, 2, 29),
        (2000, 2, 29),
        (-4, 2, 29),
        (-1, 2, 29),
        (2023, 4, 31),
        (2023, 12, 31),
        (262142, 12, 31),
        (262143, 1, 1),
        (-262143, 1, 1),
        (-262144, 12, 31),
        (0, 1, 1),
        (1, 13, 1),
        (1, 0, 1),
        (1, 1, 0),
    ];
    for (year, month, day) in cases {
        assert_eq!(
            Date::from_ymd(year, month, day).is_some(),
            chrono::NaiveDate::from_ymd_opt(year, month, day).is_some(),
            "{year}-{month}-{day}"
        );
    }
}
