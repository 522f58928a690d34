use attendance::clock::TimeOfDay;
use attendance::date::Date;
use chrono::Datelike;

fn day(y: i32, m: u8, d: u8) -> Date {
    Date { year: y, month: m, day: d }
}

#[test]
fn previous_day_mid_month() {
    assert_eq!(day(2024, 3, 5).prev_day(), Some(day(2024, 3, 4)));
}

#[test]
fn previous_day_across_month_start() {
    assert_eq!(day(2024, 5, 1).prev_day(), Some(day(2024, 4, 30)));
    assert_eq!(day(2024, 7, 1).prev_day(), Some(day(2024, 6, 30)));
    assert_eq!(day(2024, 8, 1).prev_day(), Some(day(2024, 7, 31)));
}

#[test]
fn previous_day_across_year_start() {
    assert_eq!(day(2024, 1, 1).prev_day(), Some(day(2023, 12, 31)));
}

#[test]
fn previous_day_knows_leap_years() {
    assert_eq!(day(2024, 3, 1).prev_day(), Some(day(2024, 2, 29)));
    assert_eq!(day(2023, 3, 1).prev_day(), Some(day(2023, 2, 28)));
    assert_eq!(day(1900, 3, 1).prev_day(), Some(day(1900, 2, 28)));
    assert_eq!(day(2000, 3, 1).prev_day(), Some(day(2000, 2, 29)));
}

#[test]
fn previous_day_stops_at_the_first_day() {
    assert_eq!(day(0, 1, 1).prev_day(), None);
}

#[test]
fn previous_day_matches_chrono() {
    let cases = [
        (2024, 3, 1),
        (2023, 3, 1),
        (1900, 3, 1),
        (2000, 3, 1),
        (2024, 1, 1),
        (1987, 11, 1),
        (2024, 3, 15),
    ];
    for (y, m, d) in cases {
        let ours = day(y, m as u8, d as u8).prev_day().unwrap();
        let theirs = chrono::NaiveDate::from_ymd_opt(y, m, d).unwrap().pred_opt().unwrap();
        assert_eq!(ours.year, theirs.year());
        assert_eq!(ours.month as u32, theirs.month());
        assert_eq!(ours.day as u32, theirs.day());
    }
}

#[test]
fn date_new_accepts_only_real_days() {
    assert_eq!(Date::new(2024, 2, 29), Some(day(2024, 2, 29)));
    assert_eq!(Date::new(2023, 2, 29), None);
    assert_eq!(Date::new(2024, 13, 1), None);
    assert_eq!(Date::new(2024, 0, 1), None);
    assert_eq!(Date::new(2024, 4, 31), None);
    assert_eq!(Date::new(10000, 1, 1), None);
    assert_eq!(Date::new(-1, 1, 1), None);
    assert_eq!(Date::new(0, 1, 1), Some(day(0, 1, 1)));
}

#[test]
fn time_of_day_new_checks_bounds() {
    assert_eq!(
        TimeOfDay::new(23, 59, 59),
        Some(TimeOfDay { hour: 23, minute: 59, second: 59 })
    );
    assert_eq!(TimeOfDay::new(24, 0, 0), None);
    assert_eq!(TimeOfDay::new(0, 60, 0), None);
    assert_eq!(TimeOfDay::new(0, 0, 60), None);
}

#[test]
fn unset_time_is_the_midnight_sentinel() {
    let t = TimeOfDay::unset();
    assert_eq!(t, TimeOfDay { hour: 0, minute: 0, second: 0 });
    assert!(t.is_unset());
    assert!(!TimeOfDay { hour: 0, minute: 0, second: 1 }.is_unset());
}
