use obsidian_export::dates::{
    card_minutes, format_date, next_day, parse_date, week_bounds, DateYmd,
};

fn ymd(year: i64, month: u64, day: u64) -> DateYmd {
    DateYmd { year, month, day }
}

#[test]
fn parse_date_accepts_a_strict_calendar_day() {
    let d = parse_date("2024-05-01").unwrap();
    assert_eq!(d, ymd(2024, 5, 1));
}

#[test]
fn parse_date_rejects_malformed_text() {
    assert!(parse_date("2024-5-01").is_none());
    assert!(parse_date("2024/05/01").is_none());
    assert!(parse_date("20240501").is_none());
    assert!(parse_date("").is_none());
    assert!(parse_date("2024-05-01T00:00:00Z").is_none());
}

#[test]
fn parse_date_rejects_impossible_days() {
    assert!(parse_date("2024-02-30").is_none());
    assert!(parse_date("2024-13-01").is_none());
    assert!(parse_date("2024-00-10").is_none());
    assert!(parse_date("2024-04-31").is_none());
}

#[test]
fn parse_date_knows_leap_years() {
    assert_eq!(parse_date("2024-02-29").unwrap(), ymd(2024, 2, 29));
    assert!(parse_date("2023-02-29").is_none());
    assert!(parse_date("1900-02-29").is_none());
    assert_eq!(parse_date("2000-02-29").unwrap(), ymd(2000, 2, 29));
}

#[test]
fn format_date_round_trips() {
    let d = parse_date("2024-05-01").unwrap();
    assert_eq!(format_date(&d), "2024-05-01");
    let e = parse_date("0087-11-30").unwrap();
    assert_eq!(format_date(&e), "0087-11-30");
}

#[test]
fn next_day_crosses_month_and_year_boundaries() {
    assert_eq!(next_day(&ymd(2024, 2, 28)), ymd(2024, 2, 29));
    assert_eq!(next_day(&ymd(2023, 2, 28)), ymd(2023, 3, 1));
    assert_eq!(next_day(&ymd(2024, 12, 31)), ymd(2025, 1, 1));
    assert_eq!(next_day(&ymd(2024, 5, 1)), ymd(2024, 5, 2));
}

#[test]
fn week_bounds_finds_the_iso_week() {
    let d = parse_date("2024-05-01").unwrap();
    let w = week_bounds(&d).unwrap();
    assert_eq!(w.week_year, 2024);
    assert_eq!(w.week_number, 18);
    assert_eq!(w.start, ymd(2024, 4, 29));
    assert_eq!(w.end, ymd(2024, 5, 5));
}

#[test]
fn week_bounds_handles_year_straddling_weeks() {
    // 2025-01-01 falls in ISO week 2025-W01, which starts Monday 2024-12-30
    let d = parse_date("2025-01-01").unwrap();
    let w = week_bounds(&d).unwrap();
    assert_eq!(w.week_year, 2025);
    assert_eq!(w.week_number, 1);
    assert_eq!(w.start, ymd(2024, 12, 30));
    assert_eq!(w.end, ymd(2025, 1, 5));
}

#[test]
fn card_minutes_truncates_the_span() {
    assert_eq!(card_minutes("2024-05-01T10:00:00Z", "2024-05-01T10:30:00Z"), 30);
    assert_eq!(card_minutes("2024-05-01T10:00:00Z", "2024-05-01T10:30:59Z"), 30);
    assert_eq!(card_minutes("2024-05-01T10:00:00+02:00", "2024-05-01T10:00:00Z"), 120);
}

#[test]
fn card_minutes_is_zero_for_bad_or_negative_spans() {
    assert_eq!(card_minutes("oops", "2024-05-01T10:30:00Z"), 0);
    assert_eq!(card_minutes("2024-05-01T10:30:00Z", "oops"), 0);
    assert_eq!(card_minutes("2024-05-01T11:00:00Z", "2024-05-01T10:00:00Z"), 0);
}
