use todo_list::date::{expired_on, is_expired, is_task_expired, parse_date, Date};
use todo_list::error::ValidationError;

fn day(year: i32, month: u32, day: u32) -> Date {
    Date { year, month, day }
}

#[test]
fn a_due_date_is_not_expired_on_the_day_itself() {
    assert_eq!(is_expired("2024-05-17", day(2024, 5, 17)), Ok(false));
}

#[test]
fn a_due_date_is_expired_on_every_later_day() {
    assert_eq!(is_expired("2024-05-17", day(2024, 5, 18)), Ok(true));
    assert_eq!(is_expired("2024-05-17", day(2024, 6, 1)), Ok(true));
    assert_eq!(is_expired("2024-05-17", day(2025, 1, 1)), Ok(true));
    assert_eq!(is_expired("2024-12-31", day(2025, 1, 1)), Ok(true));
    assert_eq!(is_expired("2000-01-01", day(9999, 12, 31)), Ok(true));
}

#[test]
fn a_due_date_is_not_expired_on_any_earlier_day() {
    assert_eq!(is_expired("2024-05-17", day(2024, 5, 16)), Ok(false));
    assert_eq!(is_expired("2024-05-17", day(2024, 4, 30)), Ok(false));
    assert_eq!(is_expired("2024-05-17", day(2023, 12, 31)), Ok(false));
    assert_eq!(is_expired("2025-01-01", day(2024, 12, 31)), Ok(false));
}

#[test]
fn a_text_that_is_no_date_fails_validation() {
    let today = day(2024, 5, 17);
    for bad in ["2024-13-40", "not-a-date", "", "2024-02-30", "2023-02-29", "2024-05-17 10:00:00"] {
        assert_eq!(is_expired(bad, today), Err(ValidationError::MalformedDate));
        assert_eq!(parse_date(bad), Err(ValidationError::MalformedDate));
        assert_eq!(is_task_expired(bad), Err(ValidationError::MalformedDate));
    }
}

#[test]
fn parse_date_reads_year_month_and_day() {
    assert_eq!(parse_date("2015-09-05"), Ok(day(2015, 9, 5)));
    assert_eq!(parse_date("2024-02-29"), Ok(day(2024, 2, 29)));
    assert_eq!(parse_date("2099-12-31"), Ok(day(2099, 12, 31)));
}

#[test]
fn expired_on_decides_from_a_parsed_date() {
    assert_eq!(expired_on(Some(day(2024, 5, 17)), day(2024, 5, 17)), Ok(false));
    assert_eq!(expired_on(Some(day(2024, 5, 17)), day(2024, 5, 18)), Ok(true));
    assert_eq!(expired_on(Some(day(2024, 5, 17)), day(2024, 5, 16)), Ok(false));
    assert_eq!(expired_on(Some(day(2024, 5, 17)), day(2025, 1, 1)), Ok(true));
    assert_eq!(expired_on(Some(day(2024, 5, 17)), day(2023, 12, 31)), Ok(false));
    assert_eq!(expired_on(None, day(2024, 5, 17)), Err(ValidationError::MalformedDate));
}

#[test]
fn is_after_is_the_order_of_the_calendar() {
    assert!(day(2024, 5, 18).is_after(&day(2024, 5, 17)));
    assert!(day(2024, 6, 1).is_after(&day(2024, 5, 31)));
    assert!(day(2025, 1, 1).is_after(&day(2024, 12, 31)));
    assert!(!day(2024, 5, 17).is_after(&day(2024, 5, 17)));
    assert!(!day(2024, 5, 31).is_after(&day(2024, 6, 1)));
    assert!(!day(2024, 12, 31).is_after(&day(2025, 1, 1)));
}

#[test]
fn a_day_is_written_as_year_month_day() {
    assert_eq!(day(2024, 5, 7).text(), "2024-05-07");
    assert_eq!(day(2099, 12, 31).text(), "2099-12-31");
    assert_eq!(day(7, 1, 1).text(), "0007-01-01");
    assert_eq!(day(0, 1, 1).text(), "0000-01-01");
    assert_eq!(day(9999, 12, 31).text(), "9999-12-31");
    assert_eq!(day(10000, 1, 1).text(), "+10000-01-01");
    assert_eq!(day(12345, 10, 20).text(), "+12345-10-20");
    assert_eq!(day(-5, 12, 31).text(), "-0005-12-31");
    assert_eq!(day(i32::MIN, 1, 1).text(), "-2147483648-01-01");
}

#[test]
fn a_written_day_is_read_back() {
    for d in [
        day(2024, 5, 7),
        day(2000, 2, 29),
        day(1970, 1, 1),
        day(9999, 12, 31),
        day(12345, 10, 20),
        day(-5, 12, 31),
        day(0, 1, 1),
    ] {
        assert_eq!(parse_date(&d.text()), Ok(d));
    }
}

#[test]
fn the_clock_is_after_the_year_2000_and_before_the_year_9999() {
    assert_eq!(is_task_expired("2000-01-01"), Ok(true));
    assert_eq!(is_task_expired("9999-12-31"), Ok(false));
}
