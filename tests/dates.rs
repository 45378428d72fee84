use label_printer::calendar::format_date_ddmmyyyy;
use label_printer::clock::{format_timestamp, LocalTime};

#[test]
fn plain_digits_normalize() {
    assert_eq!(format_date_ddmmyyyy("05081990"), Some("05/08/1990".to_string()));
}

#[test]
fn separated_digits_match_plain_digits() {
    assert_eq!(format_date_ddmmyyyy("05/08/1990"), format_date_ddmmyyyy("05081990"));
    assert_eq!(format_date_ddmmyyyy("05-08-1990"), Some("05/08/1990".to_string()));
    assert_eq!(format_date_ddmmyyyy(" 05.08.1990 "), Some("05/08/1990".to_string()));
}

#[test]
fn leap_day_of_century_year_rejected() {
    assert_eq!(format_date_ddmmyyyy("29021900"), None);
}

#[test]
fn leap_day_of_fourth_century_year_accepted() {
    assert_eq!(format_date_ddmmyyyy("29022000"), Some("29/02/2000".to_string()));
    assert_eq!(format_date_ddmmyyyy("29022024"), Some("29/02/2024".to_string()));
    assert_eq!(format_date_ddmmyyyy("29022023"), None);
}

#[test]
fn impossible_days_rejected() {
    assert_eq!(format_date_ddmmyyyy("31042023"), None);
    assert_eq!(format_date_ddmmyyyy("30022000"), None);
    assert_eq!(format_date_ddmmyyyy("00012000"), None);
    assert_eq!(format_date_ddmmyyyy("01132000"), None);
    assert_eq!(format_date_ddmmyyyy("31122023"), Some("31/12/2023".to_string()));
}

#[test]
fn wrong_digit_counts_rejected() {
    assert_eq!(format_date_ddmmyyyy(""), None);
    assert_eq!(format_date_ddmmyyyy("0508199"), None);
    assert_eq!(format_date_ddmmyyyy("050819901"), None);
    assert_eq!(format_date_ddmmyyyy("5/8/1990"), None);
    assert_eq!(format_date_ddmmyyyy("abcdefgh"), None);
}

#[test]
fn timestamp_is_day_month_year_hour_minute() {
    let t = LocalTime { year: 2026, month: 10, day: 18, hour: 9, minute: 5 };
    assert_eq!(format_timestamp(&t), "18/10/2026,09:05");
}

#[test]
fn timestamp_pads_every_field() {
    let t = LocalTime { year: 5, month: 1, day: 2, hour: 0, minute: 0 };
    assert_eq!(format_timestamp(&t), "02/01/0005,00:00");
}

#[test]
fn timestamp_signs_years_outside_four_digits() {
    let t = LocalTime { year: 12345, month: 3, day: 4, hour: 23, minute: 59 };
    assert_eq!(format_timestamp(&t), "04/03/+12345,23:59");
    let t = LocalTime { year: -44, month: 3, day: 15, hour: 12, minute: 30 };
    assert_eq!(format_timestamp(&t), "15/03/-0044,12:30");
}
