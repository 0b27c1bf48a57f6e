//! Calendar dates as plain year/month/day values, with the arithmetic,
//! formatting and parsing the export needs, and narrow bridges to chrono for
//! what only a date-time library should compute: ISO week numbering and
//! RFC 3339 timestamp parsing.

use vstd::prelude::*;
use vstd::arithmetic::div_mod::lemma_mod_multiples_vanish;
use vstd::string::StringExecFns;

use crate::text::{dec_nat, pad2_spec, str_to_chars, u64_pad2, year4, year4_spec};

verus! {

/// The year range chrono's `NaiveDate` can represent; dates the library
/// handles stay inside it.
pub const MIN_DATE_YEAR: i64 = -262143;

pub const MAX_DATE_YEAR: i64 = 262142;

pub open spec fn is_leap_year(y: int) -> bool {
    (y % 4 == 0 && y % 100 != 0) || y % 400 == 0
}

pub open spec fn days_in_month_spec(y: int, m: int) -> int {
    if m == 2 {
        if is_leap_year(y) {
            29
        } else {
            28
        }
    } else if m == 4 || m == 6 || m == 9 || m == 11 {
        30
    } else {
        31
    }
}

/// A proleptic Gregorian calendar date within chrono's representable range.
pub open spec fn valid_date(y: int, m: int, d: int) -> bool {
    &&& MIN_DATE_YEAR <= y <= MAX_DATE_YEAR
    &&& 1 <= m <= 12
    &&& 1 <= d <= days_in_month_spec(y, m)
}

/// A calendar date, held as plain year, month and day numbers.
#[derive(Clone, Copy, Debug, PartialEq, Eq, Structural)]
pub struct DateYmd {
    pub year: i64,
    pub month: u64,
    pub day: u64,
}

impl DateYmd {
    pub open spec fn wf(self) -> bool {
        valid_date(self.year as int, self.month as int, self.day as int)
    }
}

pub fn is_leap(y: i64) -> (r: bool)
    requires
        MIN_DATE_YEAR <= y <= MAX_DATE_YEAR,
    ensures
        r == is_leap_year(y as int),
{
    let n: u64 = (y + 400000) as u64;
    proof {
        lemma_mod_multiples_vanish(100000, y as int, 4);
        lemma_mod_multiples_vanish(4000, y as int, 100);
        lemma_mod_multiples_vanish(1000, y as int, 400);
    }
    (n % 4 == 0 && n % 100 != 0) || n % 400 == 0
}

pub fn days_in_month(y: i64, m: u64) -> (r: u64)
    requires
        MIN_DATE_YEAR <= y <= MAX_DATE_YEAR,
        1 <= m <= 12,
    ensures
        r == days_in_month_spec(y as int, m as int),
{
    if m == 2 {
        if is_leap(y) {
            29
        } else {
            28
        }
    } else if m == 4 || m == 6 || m == 9 || m == 11 {
        30
    } else {
        31
    }
}

/// The calendar day after `d`.
pub open spec fn next_day_spec(d: DateYmd) -> DateYmd {
    if d.day < days_in_month_spec(d.year as int, d.month as int) {
        DateYmd { year: d.year, month: d.month, day: (d.day + 1) as u64 }
    } else if d.month < 12 {
        DateYmd { year: d.year, month: (d.month + 1) as u64, day: 1 }
    } else {
        DateYmd { year: (d.year + 1) as i64, month: 1, day: 1 }
    }
}

/// Whether the day after `d` still lies in the representable range.
pub open spec fn has_next_day(d: DateYmd) -> bool {
    !(d.year == MAX_DATE_YEAR && d.month == 12 && d.day == 31)
}

pub fn next_day(d: &DateYmd) -> (r: DateYmd)
    requires
        d.wf(),
        has_next_day(*d),
    ensures
        r == next_day_spec(*d),
        r.wf(),
{
    let dim = days_in_month(d.year, d.month);
    if d.day < dim {
        DateYmd { year: d.year, month: d.month, day: d.day + 1 }
    } else if d.month < 12 {
        DateYmd { year: d.year, month: d.month + 1, day: 1 }
    } else {
        DateYmd { year: d.year + 1, month: 1, day: 1 }
    }
}

/// Calendar order on dates.
pub open spec fn date_le_spec(a: DateYmd, b: DateYmd) -> bool {
    if a.year != b.year {
        a.year < b.year
    } else if a.month != b.month {
        a.month < b.month
    } else {
        a.day <= b.day
    }
}

pub fn date_le(a: &DateYmd, b: &DateYmd) -> (r: bool)
    ensures
        r == date_le_spec(*a, *b),
{
    if a.year != b.year {
        a.year < b.year
    } else if a.month != b.month {
        a.month < b.month
    } else {
        a.day <= b.day
    }
}

/// The `YYYY-MM-DD` text of a date.
pub open spec fn date_text(y: int, m: int, d: int) -> Seq<char> {
    year4_spec(y) + seq!['-'] + pad2_spec(m) + seq!['-'] + pad2_spec(d)
}

pub fn format_date(d: &DateYmd) -> (r: String)
    requires
        d.wf(),
    ensures
        r@ == date_text(d.year as int, d.month as int, d.day as int),
{
    let mut s = year4(d.year);
    let m = u64_pad2(d.month);
    let day = u64_pad2(d.day);
    s.append("-");
    s.append(m.as_str());
    s.append("-");
    s.append(day.as_str());
    proof {
        reveal_strlit("-");
        assert(s@ =~= date_text(d.year as int, d.month as int, d.day as int));
    }
    s
}

/// The `YYYY-MM` label of a date's month.
pub open spec fn month_label_text(y: int, m: int) -> Seq<char> {
    year4_spec(y) + seq!['-'] + pad2_spec(m)
}

pub fn month_label(d: &DateYmd) -> (r: String)
    requires
        d.wf(),
    ensures
        r@ == month_label_text(d.year as int, d.month as int),
{
    let mut s = year4(d.year);
    let m = u64_pad2(d.month);
    s.append("-");
    s.append(m.as_str());
    proof {
        reveal_strlit("-");
        assert(s@ =~= month_label_text(d.year as int, d.month as int));
    }
    s
}

pub open spec fn is_digit_char(c: char) -> bool {
    48 <= c as u32 <= 57
}

pub open spec fn digit_val(c: char) -> int {
    c as u32 - 48
}

/// What strict `YYYY-MM-DD` parsing yields: the three numbers when the text
/// has exactly that shape and names a real calendar date, nothing otherwise.
pub open spec fn parse_date_spec(s: Seq<char>) -> Option<DateYmd> {
    if s.len() == 10 && is_digit_char(s[0]) && is_digit_char(s[1]) && is_digit_char(s[2])
        && is_digit_char(s[3]) && s[4] == '-' && is_digit_char(s[5]) && is_digit_char(s[6]) && s[7]
        == '-' && is_digit_char(s[8]) && is_digit_char(s[9]) {
        let y = digit_val(s[0]) * 1000 + digit_val(s[1]) * 100 + digit_val(s[2]) * 10 + digit_val(
            s[3],
        );
        let m = digit_val(s[5]) * 10 + digit_val(s[6]);
        let d = digit_val(s[8]) * 10 + digit_val(s[9]);
        if valid_date(y, m, d) {
            Some(DateYmd { year: y as i64, month: m as u64, day: d as u64 })
        } else {
            None
        }
    } else {
        None
    }
}

fn is_digit(c: char) -> (r: bool)
    ensures
        r == is_digit_char(c),
{
    let n = c as u32;
    48 <= n && n <= 57
}

fn digit_of(c: char) -> (r: u64)
    requires
        is_digit_char(c),
    ensures
        r == digit_val(c),
{
    ((c as u32) - 48) as u64
}

/// Parses a strict `YYYY-MM-DD` date; `None` exactly when the text does not
/// have that shape or does not name a real calendar date.
pub fn parse_date(s: &str) -> (r: Option<DateYmd>)
    ensures
        r == parse_date_spec(s@),
        r matches Some(d) ==> d.wf(),
{
    let v = str_to_chars(s);
    if v.len() != 10 {
        return None;
    }
    if !(is_digit(v[0]) && is_digit(v[1]) && is_digit(v[2]) && is_digit(v[3]) && v[4] == '-'
        && is_digit(v[5]) && is_digit(v[6]) && v[7] == '-' && is_digit(v[8]) && is_digit(v[9])) {
        return None;
    }
    let y: u64 = digit_of(v[0]) * 1000 + digit_of(v[1]) * 100 + digit_of(v[2]) * 10 + digit_of(
        v[3],
    );
    let m: u64 = digit_of(v[5]) * 10 + digit_of(v[6]);
    let d: u64 = digit_of(v[8]) * 10 + digit_of(v[9]);
    if 1 <= m && m <= 12 && 1 <= d && d <= days_in_month(y as i64, m) {
        Some(DateYmd { year: y as i64, month: m, day: d })
    } else {
        None
    }
}

/// What parsing an RFC 3339 date-time string and taking its Unix timestamp
/// yields: seconds since the epoch on success, nothing when the text does
/// not parse. A function of the characters alone.
pub uninterp spec fn rfc3339_epoch_seconds(s: Seq<char>) -> Option<i64>;

/// Relies on chrono's `DateTime::parse_from_rfc3339` and
/// `DateTime::timestamp`: both depend on the input characters alone.
#[verifier::external_body]
pub(crate) fn rfc3339_to_epoch_seconds(s: &str) -> (r: Option<i64>)
    ensures
        r == rfc3339_epoch_seconds(s@),
{
    match chrono::DateTime::parse_from_rfc3339(s) {
        Ok(dt) => Some(dt.timestamp()),
        Err(_) => None,
    }
}

/// What formatting an RFC 3339 date-time string as `HH:MM` clock text
/// yields; the input comes back unchanged when it does not parse. A function
/// of the characters alone.
pub uninterp spec fn clock_text_of(s: Seq<char>) -> Seq<char>;

/// Relies on chrono's `DateTime::parse_from_rfc3339` and the `%H:%M`
/// formatting of the parsed value: both depend on the input characters
/// alone.
#[verifier::external_body]
pub(crate) fn clock_text(s: &str) -> (r: String)
    ensures
        r@ == clock_text_of(s@),
{
    match chrono::DateTime::parse_from_rfc3339(s) {
        Ok(dt) => dt.format("%H:%M").to_string(),
        Err(_) => s.to_string(),
    }
}

/// The ISO 8601 week a date falls in: week-based year and week number. A
/// function of the calendar date alone.
pub uninterp spec fn iso_week_of(y: int, m: int, d: int) -> (int, int);

/// Relies on chrono's `NaiveDate::from_ymd_opt` (`Some` on every real
/// calendar date in range), `Datelike::iso_week`, `IsoWeek::year` and
/// `IsoWeek::week`; the week number is documented to lie in 1..=53.
#[verifier::external_body]
pub(crate) fn date_iso_week(y: i64, m: u64, d: u64) -> (r: (i64, u64))
    requires
        valid_date(y as int, m as int, d as int),
    ensures
        r.0 == iso_week_of(y as int, m as int, d as int).0,
        r.1 == iso_week_of(y as int, m as int, d as int).1,
        1 <= r.1 <= 53,
{
    let nd = chrono::NaiveDate::from_ymd_opt(y as i32, m as u32, d as u32).unwrap();
    let w = chrono::Datelike::iso_week(&nd);
    (chrono::IsoWeek::year(&w) as i64, chrono::IsoWeek::week(&w) as u64)
}

/// The Monday of an ISO week, when the week lies in the representable
/// range. A function of the week-based year and week number alone.
pub uninterp spec fn iso_week_monday(wy: int, wn: int) -> Option<(int, int, int)>;

/// Relies on chrono's `NaiveDate::from_isoywd_opt` with `Weekday::Mon`
/// (`None` exactly on out-of-range weeks) and on `Datelike::year`/`month`/
/// `day`, whose results form the real calendar date the `NaiveDate` holds.
#[verifier::external_body]
pub(crate) fn iso_week_monday_date(wy: i64, wn: u64) -> (r: Option<DateYmd>)
    requires
        i32::MIN <= wy <= i32::MAX,
        wn <= u32::MAX,
    ensures
        match r {
            Some(d) => {
                &&& iso_week_monday(wy as int, wn as int) == Some(
                    (d.year as int, d.month as int, d.day as int),
                )
                &&& d.wf()
            },
            None => iso_week_monday(wy as int, wn as int) is None,
        },
{
    match chrono::NaiveDate::from_isoywd_opt(wy as i32, wn as u32, chrono::Weekday::Mon) {
        Some(nd) => Some(
            DateYmd {
                year: chrono::Datelike::year(&nd) as i64,
                month: chrono::Datelike::month(&nd) as u64,
                day: chrono::Datelike::day(&nd) as u64,
            },
        ),
        None => None,
    }
}

/// `d` moved `n` days forward.
pub open spec fn plus_days(d: DateYmd, n: nat) -> DateYmd
    decreases n,
{
    if n == 0 {
        d
    } else {
        next_day_spec(plus_days(d, (n - 1) as nat))
    }
}

/// An ISO week: its numbering, its Monday and its Sunday.
#[derive(Clone, Copy, Debug, PartialEq, Eq, Structural)]
pub struct WeekBounds {
    pub week_year: i64,
    pub week_number: u64,
    pub start: DateYmd,
    pub end: DateYmd,
}

impl WeekBounds {
    pub open spec fn wf(self) -> bool {
        &&& self.start.wf()
        &&& self.end.wf()
        &&& self.end == plus_days(self.start, 6)
        &&& 1 <= self.week_number <= 53
        &&& forall|i: nat|
            i < 6 ==> (#[trigger] plus_days(self.start, i)).wf() && has_next_day(
                plus_days(self.start, i),
            )
    }
}

/// The ISO week containing `d`: chrono numbers the week and finds its
/// Monday; the Sunday is six days later. `None` only when the week's Monday
/// falls outside the representable range or at its very edge.
pub fn week_bounds(d: &DateYmd) -> (r: Option<WeekBounds>)
    requires
        d.wf(),
    ensures
        r matches Some(w) ==> {
            &&& w.wf()
            &&& (w.week_year as int, w.week_number as int) == iso_week_of(
                d.year as int,
                d.month as int,
                d.day as int,
            )
            &&& iso_week_monday(w.week_year as int, w.week_number as int) == Some(
                (w.start.year as int, w.start.month as int, w.start.day as int),
            )
        },
        r is None ==> {
            let wk = iso_week_of(d.year as int, d.month as int, d.day as int);
            ||| wk.0 < i32::MIN || wk.0 > i32::MAX
            ||| iso_week_monday(wk.0, wk.1) is None
            ||| (iso_week_monday(wk.0, wk.1) matches Some(m) && m.0 > MAX_DATE_YEAR - 1)
        },
{
    let (wy, wn) = date_iso_week(d.year, d.month, d.day);
    if wy < -2147483648 || wy > 2147483647 {
        return None;
    }
    let monday = match iso_week_monday_date(wy, wn) {
        Some(m) => m,
        None => {
            return None;
        }
    };
    if monday.year > MAX_DATE_YEAR - 1 {
        return None;
    }
    let d1 = next_day(&monday);
    let d2 = next_day(&d1);
    let d3 = next_day(&d2);
    let d4 = next_day(&d3);
    let d5 = next_day(&d4);
    let d6 = next_day(&d5);
    proof {
        assert(plus_days(monday, 0) == monday);
        assert(plus_days(monday, 1) == d1);
        assert(plus_days(monday, 2) == d2);
        assert(plus_days(monday, 3) == d3);
        assert(plus_days(monday, 4) == d4);
        assert(plus_days(monday, 5) == d5);
        assert(plus_days(monday, 6) == d6);
        assert forall|i: nat| i < 6 implies (#[trigger] plus_days(monday, i)).wf()
            && has_next_day(plus_days(monday, i)) by {
            if i == 0 {
                assert(plus_days(monday, i) == monday);
            } else if i == 1 {
                assert(plus_days(monday, i) == d1);
            } else if i == 2 {
                assert(plus_days(monday, i) == d2);
            } else if i == 3 {
                assert(plus_days(monday, i) == d3);
            } else if i == 4 {
                assert(plus_days(monday, i) == d4);
            } else {
                assert(plus_days(monday, i) == d5);
            }
        }
    }
    Some(WeekBounds { week_year: wy, week_number: wn, start: monday, end: d6 })
}

/// The whole minutes a timeline card spans: its RFC 3339 end minus its
/// start, truncated to minutes, and 0 when either side fails to parse or
/// the span is negative.
pub open spec fn card_minutes_of(start: Seq<char>, end: Seq<char>) -> int {
    match (rfc3339_epoch_seconds(start), rfc3339_epoch_seconds(end)) {
        (Some(s), Some(e)) => if e >= s {
            (e - s) / 60
        } else {
            0
        },
        _ => 0,
    }
}

pub fn card_minutes(start: &str, end: &str) -> (r: i64)
    ensures
        r == card_minutes_of(start@, end@),
        0 <= r,
{
    let s_opt = rfc3339_to_epoch_seconds(start);
    let e_opt = rfc3339_to_epoch_seconds(end);
    match (s_opt, e_opt) {
        (Some(s), Some(e)) => {
            if e >= s {
                let diff: u64 = ((e as i128) - (s as i128)) as u64;
                (diff / 60) as i64
            } else {
                0
            }
        }
        _ => 0,
    }
}

} // verus!
