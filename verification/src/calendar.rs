use vstd::prelude::*;
use chrono::Datelike;
use crate::text::decimal;

verus! {

/// A day of the proleptic Gregorian calendar.
#[derive(Clone, Copy, Debug, PartialEq, Eq, Structural)]
pub struct CalDate {
    pub year: i32,
    pub month: u32,
    pub day: u32,
}

/// The first year that `chrono::NaiveDate` holds.
pub open spec fn min_year() -> int {
    -262143
}

/// The last year that `chrono::NaiveDate` holds.
pub open spec fn max_year() -> int {
    262142
}

pub open spec fn is_leap_year(y: int) -> bool {
    (y % 4 == 0 && y % 100 != 0) || y % 400 == 0
}

pub open spec fn days_in_month(y: int, m: int) -> int {
    if m == 2 {
        if is_leap_year(y) { 29 } else { 28 }
    } else if m == 4 || m == 6 || m == 9 || m == 11 {
        30
    } else {
        31
    }
}

/// A calendar day that exists and that `chrono::NaiveDate` can hold.
pub open spec fn valid_ymd(y: int, m: int, d: int) -> bool {
    &&& min_year() <= y <= max_year()
    &&& 1 <= m <= 12
    &&& 1 <= d <= days_in_month(y, m)
}

pub open spec fn valid_date(d: CalDate) -> bool {
    valid_ymd(d.year as int, d.month as int, d.day as int)
}

/// The last day `chrono::NaiveDate` holds.
pub open spec fn is_last_date(d: CalDate) -> bool {
    d.year == max_year() && d.month == 12 && d.day == 31
}

/// The day after `d`.
pub open spec fn next_day(d: CalDate) -> CalDate {
    if (d.day as int) < days_in_month(d.year as int, d.month as int) {
        CalDate { year: d.year, month: d.month, day: (d.day + 1) as u32 }
    } else if d.month < 12 {
        CalDate { year: d.year, month: (d.month + 1) as u32, day: 1 }
    } else {
        CalDate { year: (d.year + 1) as i32, month: 1, day: 1 }
    }
}

/// `a` is on or before `b`.
pub open spec fn date_le(a: CalDate, b: CalDate) -> bool {
    a.year < b.year || (a.year == b.year && (a.month < b.month || (a.month == b.month && a.day <= b.day)))
}

/// Days from 0000-03-01 to the first of March of year `yy` (proleptic
/// Gregorian, years counted from March).
pub open spec fn march_year_start(yy: int) -> int {
    let era = yy / 400;
    let yoe = yy - era * 400;
    era * 146097 + yoe * 365 + yoe / 4 - yoe / 100
}

/// Days from the first of March to the given day, months counted from March.
pub open spec fn day_of_march_year(m: int, d: int) -> int {
    let mp = if m > 2 { m - 3 } else { m + 9 };
    (153 * mp + 2) / 5 + d - 1
}

/// Days from 1970-01-01 to the date (negative before it).
pub open spec fn days_from_epoch(y: int, m: int, d: int) -> int {
    let yy = if m <= 2 { y - 1 } else { y };
    march_year_start(yy) + day_of_march_year(m, d) - 719468
}

/// The day of the week counted from Monday (0) to Sunday (6).
pub open spec fn weekday_from_monday(d: CalDate) -> int {
    (days_from_epoch(d.year as int, d.month as int, d.day as int) + 3) % 7
}

/// `n` in decimal, with zeros in front up to `width` digits.
pub open spec fn zero_padded(n: nat, width: nat) -> Seq<char> {
    let digits = decimal(n);
    if digits.len() < width {
        Seq::new((width - digits.len()) as nat, |i: int| '0') + digits
    } else {
        digits
    }
}

/// The year as `%Y` writes it: four digits, and a sign outside 0..=9999.
pub open spec fn year_text(y: int) -> Seq<char> {
    if 0 <= y <= 9999 {
        zero_padded(y as nat, 4)
    } else if y < 0 {
        seq!['-'] + zero_padded((-y) as nat, 4)
    } else {
        seq!['+'] + zero_padded(y as nat, 4)
    }
}

/// The date as `%Y-%m-%d` writes it.
pub open spec fn date_text(d: CalDate) -> Seq<char> {
    year_text(d.year as int) + seq!['-'] + zero_padded(d.month as nat, 2) + seq!['-'] + zero_padded(d.day as nat, 2)
}

/// What a parse gave, as plain values: the year, month and day of the date,
/// or the text of the error.
pub open spec fn parse_view(r: Result<CalDate, String>) -> Result<(int, int, int), Seq<char>> {
    match r {
        Ok(d) => Ok((d.year as int, d.month as int, d.day as int)),
        Err(m) => Err(m@),
    }
}

/// What `chrono::NaiveDate::from_str` reads from a text: the year, month and
/// day of the date, or the parse error as `{:?}` prints it.
pub uninterp spec fn naive_date_from_str(s: Seq<char>) -> Result<(int, int, int), Seq<char>>;

/// What `chrono::DateTime::parse_from_rfc3339` reads from a text: the year,
/// month and day of its date part, or the parse error as `{:?}` prints it.
pub uninterp spec fn rfc3339_date(s: Seq<char>) -> Result<(int, int, int), Seq<char>>;

/// `chrono::NaiveDate::with_year` on the given day: the same month and day in
/// `year`, or `None` where that day does not exist in `year` (29 February) or
/// `year` is outside chrono's range.
#[verifier::external_body]
fn chrono_with_year(d: CalDate, year: i32) -> (r: Option<CalDate>)
    requires
        valid_date(d),
    ensures
        r == (if valid_ymd(year as int, d.month as int, d.day as int) {
            Some(CalDate { year, month: d.month, day: d.day })
        } else {
            None
        }),
{
    chrono::NaiveDate::from_ymd_opt(d.year, d.month, d.day).unwrap().with_year(year).map(
        |n| CalDate { year: n.year(), month: n.month(), day: n.day() },
    )
}

/// `to_string` of a `chrono::NaiveDate` (its `Display`), which writes `%Y-%m-%d`:
/// the year with four digits (and a sign outside 0..=9999), then the month and
/// the day with two digits each.
#[verifier::external_body]
fn chrono_date_string(d: CalDate) -> (s: String)
    requires
        valid_date(d),
    ensures
        s@ == date_text(d),
{
    chrono::NaiveDate::from_ymd_opt(d.year, d.month, d.day).unwrap().to_string()
}

/// `NaiveDate + Duration::days(1)`: the next calendar day. It panics past the
/// last date chrono holds, which `requires` leaves out.
#[verifier::external_body]
fn chrono_add_one_day(d: CalDate) -> (r: CalDate)
    requires
        valid_date(d),
        !is_last_date(d),
    ensures
        r == next_day(d),
{
    let n = chrono::NaiveDate::from_ymd_opt(d.year, d.month, d.day).unwrap() + chrono::Duration::days(1);
    CalDate { year: n.year(), month: n.month(), day: n.day() }
}

/// `weekday().num_days_from_monday()` of a `chrono::NaiveDate`: 0 for Monday up
/// to 6 for Sunday.
#[verifier::external_body]
fn chrono_weekday(d: CalDate) -> (w: u32)
    requires
        valid_date(d),
    ensures
        w == weekday_from_monday(d),
{
    chrono::NaiveDate::from_ymd_opt(d.year, d.month, d.day).unwrap().weekday().num_days_from_monday()
}

/// `chrono::NaiveDate::from_str`: the date a text spells, or the parse error
/// as `{:?}` prints it. Both are named by `naive_date_from_str`, a function of
/// the text alone; a date it gives back is one that `NaiveDate` holds.
#[verifier::external_body]
fn chrono_parse_date(s: &str) -> (r: Result<CalDate, String>)
    ensures
        parse_view(r) == naive_date_from_str(s@),
        r matches Ok(d) ==> valid_date(d),
{
    match <chrono::NaiveDate as core::str::FromStr>::from_str(s) {
        Ok(n) => Ok(CalDate { year: n.year(), month: n.month(), day: n.day() }),
        Err(e) => Err(format!("{:?}", e)),
    }
}

/// `chrono::DateTime::parse_from_rfc3339` followed by `date_naive()`: the
/// calendar date written in an RFC 3339 timestamp, or the parse error as
/// `{:?}` prints it. Both are named by `rfc3339_date`, a function of the text
/// alone; a date it gives back is one that `NaiveDate` holds.
#[verifier::external_body]
fn chrono_parse_rfc3339_date(s: &str) -> (r: Result<CalDate, String>)
    ensures
        parse_view(r) == rfc3339_date(s@),
        r matches Ok(d) ==> valid_date(d),
{
    match chrono::DateTime::parse_from_rfc3339(s) {
        Ok(t) => {
            let n = t.date_naive();
            Ok(CalDate { year: n.year(), month: n.month(), day: n.day() })
        },
        Err(e) => Err(format!("{:?}", e)),
    }
}

/// The next time a yearly date falls on or after `today`.
pub open spec fn next_occurrence_of(today: CalDate, birthday: CalDate) -> Option<CalDate> {
    if date_le(today, birthday) {
        Some(birthday)
    } else if valid_ymd(birthday.year + 1, birthday.month as int, birthday.day as int) {
        Some(CalDate { year: (birthday.year + 1) as i32, month: birthday.month, day: birthday.day })
    } else {
        None
    }
}

/// A birthday that today has not passed, in calendar order (year, then month,
/// then day), is due on that very day; one that today has passed is never due
/// on it, but a year later if at all.
pub proof fn law_birthday_kept_until_passed(today: CalDate, birthday: CalDate)
    ensures
        (today.year < birthday.year || (today.year == birthday.year && (today.month < birthday.month
            || (today.month == birthday.month && today.day <= birthday.day)))) ==> next_occurrence_of(today, birthday) == Some(birthday),
        !(today.year < birthday.year || (today.year == birthday.year && (today.month < birthday.month
            || (today.month == birthday.month && today.day <= birthday.day)))) ==> match next_occurrence_of(today, birthday) {
            Some(d) => d.year == birthday.year + 1 && d.month == birthday.month && d.day == birthday.day,
            None => true,
        },
{
}

/// A birthday read in the current year is never due before today: its due day
/// is today or later, on the birthday's month and day, this year or the next;
/// there is none only for 29 February before a common year (or past chrono's
/// last year).
pub proof fn law_birthday_due_not_past(today: CalDate, birthday: CalDate)
    requires
        valid_date(today),
        valid_date(birthday),
        birthday.year == today.year,
    ensures
        next_occurrence_of(today, birthday) matches Some(d) ==> {
            &&& valid_date(d)
            &&& date_le(today, d)
            &&& d.month == birthday.month && d.day == birthday.day
            &&& (d.year == today.year || d.year == today.year + 1)
        },
        next_occurrence_of(today, birthday) is None ==> (birthday.month == 2 && birthday.day == 29) || birthday.year == max_year(),
{
}

/// The day after a date is a later, real date, and no real date lies between
/// them: listing day after day visits every day once, in order.
pub proof fn law_next_day_is_adjacent(d: CalDate, x: CalDate)
    requires
        valid_date(d),
        !is_last_date(d),
    ensures
        valid_date(next_day(d)),
        date_le(d, next_day(d)),
        next_day(d) != d,
        valid_date(x) && date_le(d, x) && date_le(x, next_day(d)) ==> x == d || x == next_day(d),
{
}

proof fn lemma_march_year_length(y: int)
    ensures
        march_year_start(y) - march_year_start(y - 1) == if is_leap_year(y) { 366int } else { 365int },
{
    let era = y / 400;
    let yoe = y - era * 400;
    assert(0 <= yoe < 400);
    if yoe > 0 {
        assert((y - 1) / 400 == era);
        assert(y % 4 == yoe % 4) by (nonlinear_arith)
            requires y == era * 400 + yoe;
        assert(y % 100 == yoe % 100) by (nonlinear_arith)
            requires y == era * 400 + yoe;
        assert(y % 400 == yoe);
        assert(yoe / 4 - (yoe - 1) / 4 == if yoe % 4 == 0 { 1int } else { 0int });
        assert(yoe / 100 - (yoe - 1) / 100 == if yoe % 100 == 0 { 1int } else { 0int });
    } else {
        assert((y - 1) / 400 == era - 1);
        assert(y % 400 == 0);
        assert(y % 4 == 0) by (nonlinear_arith)
            requires y == era * 400;
        assert(y % 100 == 0) by (nonlinear_arith)
            requires y == era * 400;
    }
}

/// Each following day is one day further from the epoch: the day count, and
/// with it the weekday, advances by one from each date to the next.
pub proof fn law_next_day_advances_by_one(d: CalDate)
    requires
        valid_date(d),
        !is_last_date(d),
    ensures
        days_from_epoch(next_day(d).year as int, next_day(d).month as int, next_day(d).day as int)
            == days_from_epoch(d.year as int, d.month as int, d.day as int) + 1,
        weekday_from_monday(next_day(d)) == (weekday_from_monday(d) + 1) % 7,
{
    let y = d.year as int;
    let m = d.month as int;
    if m == 2 && (d.day as int) == days_in_month(y, m) {
        lemma_march_year_length(y);
    }
}

/// `a` is on or before `b`, as `NaiveDate`'s `<=` orders days.
pub fn date_on_or_before(a: CalDate, b: CalDate) -> (r: bool)
    ensures
        r == date_le(a, b),
{
    a.year < b.year || (a.year == b.year && (a.month < b.month || (a.month == b.month && a.day <= b.day)))
}

/// The next time a yearly date falls on or after `today`: `birthday` itself if it
/// is not past, else the same month and day one year later, which does not exist
/// for 29 February followed by a common year (`None`).
pub fn next_occurrence(today: CalDate, birthday: CalDate) -> (r: Option<CalDate>)
    requires
        valid_date(today),
        valid_date(birthday),
    ensures
        r == next_occurrence_of(today, birthday),
{
    if date_on_or_before(today, birthday) {
        Some(birthday)
    } else {
        chrono_with_year(birthday, birthday.year + 1)
    }
}

/// Reads a date in `%Y-%m-%d` form, as `chrono::NaiveDate::from_str` does.
pub fn parse_date(s: &str) -> (r: Result<CalDate, String>)
    ensures
        parse_view(r) == naive_date_from_str(s@),
        r matches Ok(d) ==> valid_date(d),
{
    chrono_parse_date(s)
}

/// Reads the date of an RFC 3339 timestamp, as chrono does.
pub fn parse_rfc3339_date(s: &str) -> (r: Result<CalDate, String>)
    ensures
        parse_view(r) == rfc3339_date(s@),
        r matches Ok(d) ==> valid_date(d),
{
    chrono_parse_rfc3339_date(s)
}

/// The date written `%Y-%m-%d`.
pub fn date_string(d: CalDate) -> (s: String)
    requires
        valid_date(d),
    ensures
        s@ == date_text(d),
{
    chrono_date_string(d)
}

/// The day after `d`.
pub fn following_day(d: CalDate) -> (r: CalDate)
    requires
        valid_date(d),
        !is_last_date(d),
    ensures
        r == next_day(d),
        valid_date(r),
{
    chrono_add_one_day(d)
}

/// `d` is a Sunday.
pub fn is_sunday(d: CalDate) -> (r: bool)
    requires
        valid_date(d),
    ensures
        r == (weekday_from_monday(d) == 6),
{
    chrono_weekday(d) == 6
}

/// `d` is the last day that chrono holds.
pub fn is_last_day(d: CalDate) -> (r: bool)
    ensures
        r == is_last_date(d),
{
    d.year == 262142 && d.month == 12 && d.day == 31
}

} // verus!
