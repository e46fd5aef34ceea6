use chrono::NaiveDate;
use smart_prtscr::clock::{file_stamp, timestamp_text, Moment};

fn moment(year: i32, month: u32, day: u32, hour: u32, minute: u32, second: u32) -> Moment {
    Moment { year, month, day, hour, minute, second }
}

#[test]
fn timestamp_is_day_month_year_and_time() {
    assert_eq!(timestamp_text(&moment(2026, 10, 27, 12, 34, 56)), "27/10/2026 12:34:56");
    assert_eq!(timestamp_text(&moment(1999, 1, 2, 3, 4, 5)), "02/01/1999 03:04:05");
    assert_eq!(timestamp_text(&moment(2000, 12, 31, 23, 59, 59)), "31/12/2000 23:59:59");
    assert_eq!(timestamp_text(&moment(2024, 2, 29, 0, 0, 0)), "29/02/2024 00:00:00");
}

#[test]
fn file_stamp_is_year_month_day_and_time() {
    assert_eq!(file_stamp(&moment(2026, 10, 27, 12, 34, 56)), "2026-10-27T12-34-56");
    assert_eq!(file_stamp(&moment(1999, 1, 2, 3, 4, 5)), "1999-01-02T03-04-05");
}

#[test]
fn years_beyond_four_digits_carry_a_sign() {
    assert_eq!(timestamp_text(&moment(0, 1, 1, 0, 0, 0)), "01/01/0000 00:00:00");
    assert_eq!(timestamp_text(&moment(5, 1, 1, 0, 0, 0)), "01/01/0005 00:00:00");
    assert_eq!(timestamp_text(&moment(999, 1, 1, 0, 0, 0)), "01/01/0999 00:00:00");
    assert_eq!(timestamp_text(&moment(9999, 1, 1, 0, 0, 0)), "01/01/9999 00:00:00");
    assert_eq!(timestamp_text(&moment(10000, 1, 1, 0, 0, 0)), "01/01/+10000 00:00:00");
    assert_eq!(timestamp_text(&moment(-5, 1, 1, 0, 0, 0)), "01/01/-0005 00:00:00");
    assert_eq!(timestamp_text(&moment(-9999, 1, 1, 0, 0, 0)), "01/01/-9999 00:00:00");
    assert_eq!(timestamp_text(&moment(-12345, 1, 1, 0, 0, 0)), "01/01/-12345 00:00:00");
    assert_eq!(file_stamp(&moment(i32::MAX, 1, 1, 0, 0, 0)), "+2147483647-01-01T00-00-00");
    assert_eq!(file_stamp(&moment(i32::MIN, 1, 1, 0, 0, 0)), "-2147483648-01-01T00-00-00");
}

#[test]
fn texts_are_those_of_the_calendar_library() {
    let years = [2026, 1970, 1000, 999, 1, 0, -1, -999, -9999, -10000, 9999, 10000, 262142, -262143];
    let rest = [(1u32, 1u32, 0u32, 0u32, 0u32), (12, 31, 23, 59, 59), (2, 28, 9, 5, 7), (10, 27, 12, 34, 56)];
    let mut compared = 0;
    for year in years {
        for (month, day, hour, minute, second) in rest {
            let date = match NaiveDate::from_ymd_opt(year, month, day) {
                Some(date) => date,
                None => continue,
            };
            let time = date.and_hms_opt(hour, minute, second).unwrap();
            let m = moment(year, month, day, hour, minute, second);
            assert!(m.is_well_formed());
            assert_eq!(timestamp_text(&m), time.format("%d/%m/%Y %H:%M:%S").to_string());
            assert_eq!(file_stamp(&m), time.format("%Y-%m-%dT%H-%M-%S").to_string());
            compared += 1;
        }
    }
    assert!(compared >= 48);
}

#[test]
fn moment_fields_have_their_ranges() {
    assert!(moment(2026, 1, 1, 0, 0, 0).is_well_formed());
    assert!(moment(2026, 12, 31, 23, 59, 59).is_well_formed());
    assert!(!moment(2026, 0, 1, 0, 0, 0).is_well_formed());
    assert!(!moment(2026, 13, 1, 0, 0, 0).is_well_formed());
    assert!(!moment(2026, 1, 0, 0, 0, 0).is_well_formed());
    assert!(!moment(2026, 1, 32, 0, 0, 0).is_well_formed());
    assert!(!moment(2026, 1, 1, 24, 0, 0).is_well_formed());
    assert!(!moment(2026, 1, 1, 0, 60, 0).is_well_formed());
    assert!(!moment(2026, 1, 1, 0, 0, 60).is_well_formed());
}
