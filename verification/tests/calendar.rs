use vantumpos::calendar::{civil_date, iso_date, parse_iso_date, week_window, CivilDate};
use vantumpos::worktime::month_last_date;

fn date(year: i32, month: u8, day: u8) -> CivilDate {
    CivilDate { year, month, day }
}

#[test]
fn a_date_is_written_zero_padded_and_reads_back() {
    for d in [date(2026, 8, 3), date(7, 1, 9), date(2024, 2, 29), date(9999, 12, 31)] {
        let text = iso_date(d);
        assert_eq!(parse_iso_date(&text), Some(d), "{text}");
    }
    assert_eq!(iso_date(date(7, 1, 9)), "0007-01-09");
    assert_eq!(iso_date(date(-5, 3, 4)), "-005-03-04");
    assert_eq!(parse_iso_date("-005-03-04"), None);
}

#[test]
fn only_real_days_in_the_iso_shape_are_read() {
    assert_eq!(parse_iso_date("2026-02-29"), None);
    assert_eq!(parse_iso_date("2024-02-29"), Some(date(2024, 2, 29)));
    assert_eq!(parse_iso_date("2026-13-01"), None);
    assert_eq!(parse_iso_date("2026-1-01"), None);
    assert_eq!(parse_iso_date(" 2026-01-01"), None);
    assert_eq!(civil_date("2026-08-03T18:00:00Z"), Some(date(2026, 8, 3)));
    assert_eq!(civil_date("2026-08"), None);
    assert_eq!(month_last_date(2100, 2).map(|d| d.day), Some(28));
    assert_eq!(month_last_date(2000, 2).map(|d| d.day), Some(29));
    assert_eq!(month_last_date(2026, 4).map(|d| d.day), Some(30));
}

#[test]
fn the_week_window_reaches_seven_days_either_side() {
    let (first, last) = week_window("2026-08-03").expect("a real day");
    assert_eq!((first.as_str(), last.as_str()), ("2026-07-27", "2026-08-10"));
    let (first, last) = week_window("2024-03-01").unwrap();
    assert_eq!((first.as_str(), last.as_str()), ("2024-02-23", "2024-03-08"));
    let (first, last) = week_window("2026-12-28").unwrap();
    assert_eq!((first.as_str(), last.as_str()), ("2026-12-21", "2027-01-04"));
    assert!(week_window("2026-02-30").is_none());
    assert!(week_window("9999-12-30").is_none(), "the window leaves the calendar");
}
