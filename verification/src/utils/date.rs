use vstd::prelude::*;

verus! {

/// Earliest instant the date library represents, as a unix timestamp (-9999-01-01 00:00:00 UTC).
pub const MIN_TIMESTAMP: i64 = -377_705_116_800;

/// Latest instant the date library represents, as a unix timestamp (9999-12-31 23:59:59 UTC).
pub const MAX_TIMESTAMP: i64 = 253_402_300_799;

pub open spec fn valid_timestamp(ts: int) -> bool {
    MIN_TIMESTAMP <= ts <= MAX_TIMESTAMP
}

/// How the date library writes the instant `ts` (UTC) in the format description `layout`.
pub uninterp spec fn datetime_text(layout: Seq<char>, ts: int) -> Seq<char>;

/// The instant the date library reads (as UTC) from `text` in the format description
/// `layout`, if it reads one.
pub uninterp spec fn datetime_from_text(layout: Seq<char>, text: Seq<char>) -> Option<int>;

/// The current time as a unix timestamp, from `time::OffsetDateTime::now_utc`. Claims only
/// that the instant lies in the range the date library represents; which instant it is
/// depends on the clock.
#[verifier::external_body]
pub(crate) fn now_timestamp() -> (res: i64)
    ensures
        valid_timestamp(res as int),
{
    time::OffsetDateTime::now_utc().unix_timestamp()
}

/// Writes the instant `ts` (UTC) in the format description `layout` with the time crate
/// (`format_description::parse`, `OffsetDateTime::from_unix_timestamp`, then `format`).
/// Claims: on success the text is `datetime_text(layout, ts)`, and reading it back with
/// the same layout gives `ts` again; with the library's own `DATETIME_LAYOUT` (a valid
/// description whose components an `OffsetDateTime` all supplies, so formatting into memory
/// cannot fail), it succeeds for every instant that `from_unix_timestamp` accepts, which is
/// the documented range `MIN_TIMESTAMP..=MAX_TIMESTAMP`. For other layouts it is not stated
/// when formatting succeeds, nor whether the text reads back exactly.
#[verifier::external_body]
pub(crate) fn format_datetime(layout: &str, ts: i64) -> (res: Option<String>)
    ensures
        res matches Some(s) ==> s@ == datetime_text(layout@, ts as int),
        res matches Some(s) ==> layout@ == DATETIME_LAYOUT@ ==> datetime_from_text(layout@, s@)
            == Some(ts as int),
        layout@ == DATETIME_LAYOUT@ && valid_timestamp(ts as int) ==> res is Some,
{
    let format = time::format_description::parse(layout).ok()?;
    time::OffsetDateTime::from_unix_timestamp(ts).ok()?.format(&format).ok()
}

/// Reads `text` in the format description `layout` as a UTC instant with the time crate
/// (`format_description::parse`, `PrimitiveDateTime::parse`, then `assume_utc`). Claims:
/// the outcome is `datetime_from_text(layout, text)`, and an instant read lies in the range
/// the date library represents.
#[verifier::external_body]
pub(crate) fn parse_datetime(layout: &str, text: &str) -> (res: Option<i64>)
    ensures
        res matches Some(t) ==> datetime_from_text(layout@, text@) == Some(t as int)
            && valid_timestamp(t as int),
        res is None ==> datetime_from_text(layout@, text@) is None,
{
    let format = time::format_description::parse(layout).ok()?;
    Some(time::PrimitiveDateTime::parse(text, &format).ok()?.assume_utc().unix_timestamp())
}

/// Julian day number of the earliest date the date library represents (-9999-01-01).
pub const MIN_JULIAN_DAY: i32 = -1_930_999;

/// Julian day number of the latest date the date library represents (9999-12-31).
pub const MAX_JULIAN_DAY: i32 = 5_373_484;

/// Earliest and latest years the date library represents.
pub const MIN_YEAR: i32 = -9999;

pub const MAX_YEAR: i32 = 9999;

/// A date the date library represents, as a Julian day number.
pub open spec fn valid_day(day: int) -> bool {
    MIN_JULIAN_DAY <= day <= MAX_JULIAN_DAY
}

pub open spec fn is_leap_year(year: int) -> bool {
    (year % 4 == 0 && year % 100 != 0) || year % 400 == 0
}

pub open spec fn days_in_month(year: int, month: int) -> int {
    if month == 2 {
        if is_leap_year(year) {
            29
        } else {
            28
        }
    } else if month == 4 || month == 6 || month == 9 || month == 11 {
        30
    } else {
        31
    }
}

/// A year, month and day that name a date the date library represents.
pub open spec fn valid_calendar_date(year: int, month: int, day: int) -> bool {
    &&& MIN_YEAR <= year <= MAX_YEAR
    &&& 1 <= month <= 12
    &&& 1 <= day <= days_in_month(year, month)
}

/// The Julian day number of a (proleptic Gregorian) year, month and day: the standard
/// formula, with division rounding down. (Opaque: proofs that need the arithmetic reveal it.)
#[verifier::opaque]
pub open spec fn day_of_calendar(year: int, month: int, day: int) -> int {
    let a = (14 - month) / 12;
    let y = year + 4800 - a;
    let m = month + 12 * a - 3;
    day + (153 * m + 2) / 5 + 365 * y + y / 4 - y / 100 + y / 400 - 32045
}

/// The year, month and day of the Julian day number `day` (Richards' algorithm for the
/// proleptic Gregorian calendar, with division rounding down); the inverse of
/// `day_of_calendar` over the dates the date library represents. (Opaque: proofs that need
/// the arithmetic reveal it.)
#[verifier::opaque]
pub open spec fn calendar_of_day(day: int) -> (int, int, int) {
    let f = day + 1401 + (((4 * day + 274277) / 146097) * 3) / 4 - 38;
    let e = 4 * f + 3;
    let g = (e % 1461) / 4;
    let h = 5 * g + 2;
    let d = (h % 153) / 5 + 1;
    let m = ((h / 153 + 2) % 12) + 1;
    let y = e / 1461 - 4716 + (12 + 2 - m) / 12;
    (y, m, d)
}

/// Today's date as a Julian day, from `time::OffsetDateTime::now_local` (or `now_utc` when
/// the local offset cannot be determined). Claims only that the date is one the date
/// library represents; which date it is depends on the clock and the time zone.
#[verifier::external_body]
pub(crate) fn today() -> (res: i32)
    ensures
        valid_day(res as int),
{
    match time::OffsetDateTime::now_local() {
        Ok(now) => now.date().to_julian_day(),
        Err(_) => time::OffsetDateTime::now_utc().date().to_julian_day(),
    }
}

/// Year, month and day of the Julian day `day` (`Date::from_julian_day`, then
/// `to_calendar_date`). Claims: the result is `calendar_of_day(day)`, names a valid date,
/// and its Julian day by the standard formula is `day` (the date library counts days the
/// same way).
#[verifier::external_body]
pub(crate) fn to_calendar_date(day: i32) -> (res: (i32, u8, u8))
    requires
        valid_day(day as int),
    ensures
        (res.0 as int, res.1 as int, res.2 as int) == calendar_of_day(day as int),
        valid_calendar_date(res.0 as int, res.1 as int, res.2 as int),
        day_of_calendar(res.0 as int, res.1 as int, res.2 as int) == day,
{
    let (year, month, d) = time::Date::from_julian_day(day).unwrap().to_calendar_date();
    (year, u8::from(month), d)
}

/// The Julian day of a year, month and day (`Month::try_from`, `Date::from_calendar_date`,
/// then `to_julian_day`). Claims: the conversion succeeds exactly for valid dates (as
/// `from_calendar_date` documents), gives the standard Julian day number `day_of_calendar`,
/// a date the library represents, and converting back gives the same year, month and day.
#[verifier::external_body]
pub(crate) fn from_calendar_date(year: i32, month: u8, day: u8) -> (res: Option<i32>)
    ensures
        res is Some <==> valid_calendar_date(year as int, month as int, day as int),
        res matches Some(j) ==> j == day_of_calendar(year as int, month as int, day as int)
            && valid_day(j as int) && calendar_of_day(j as int) == (
            year as int,
            month as int,
            day as int,
        ),
{
    let month = time::Month::try_from(month).ok()?;
    Some(time::Date::from_calendar_date(year, month, day).ok()?.to_julian_day())
}

/// The current time written in `DATETIME_LAYOUT`: always the text of some instant the date
/// library represents (which one depends on the clock).
pub fn now_text() -> (res: Option<String>)
    ensures
        res is Some,
        res matches Some(s) ==> exists|t: int|
            valid_timestamp(t) && s@ == #[trigger] datetime_text(DATETIME_LAYOUT@, t),
{
    let now = now_timestamp();
    let res = format_datetime(DATETIME_LAYOUT, now);
    assert(res matches Some(s) ==> s@ == datetime_text(DATETIME_LAYOUT@, now as int));
    res
}

/// The layout of stored timestamps: `YYYY-MM-DD HH:MM:SS`.
pub const DATETIME_LAYOUT: &'static str = "[year]-[month]-[day] [hour]:[minute]:[second]";

} // verus!
