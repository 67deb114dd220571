//! UTC clock and calendar: the current second, the calendar date of an
//! instant, and the first second of a month; and a source of random numbers.
//!
//! Instants are whole seconds since the Unix epoch.
use vstd::prelude::*;

verus! {

/// First and last second that a UTC date-time can stand for.
pub open spec fn utc_in_range(secs: i64) -> bool {
    -8_334_601_315_200 <= secs <= 8_210_266_876_799
}

/// Whether a second can be written as a UTC date-time.
pub fn in_utc_range(secs: i64) -> (b: bool)
    ensures
        b == utc_in_range(secs),
{
    -8_334_601_315_200 <= secs && secs <= 8_210_266_876_799
}

/// Smallest and largest year of a UTC calendar date.
pub open spec fn year_in_range(year: int) -> bool {
    -262_143 <= year <= 262_142
}

/// Reads the clock in whole seconds (`chrono::Utc::now().timestamp()`).
/// `Utc::now` returns only for a clock at or after the Unix epoch (it panics
/// before it) and builds a `DateTime<Utc>`, whose seconds lie in
/// `utc_in_range`; nothing else is stated of the reading.
#[verifier::external_body]
pub(crate) fn now_secs() -> (t: i64)
    ensures
        0 <= t,
        utc_in_range(t),
{
    chrono::Utc::now().timestamp()
}

/// Reads the system clock in whole seconds since the Unix epoch
/// (`SystemTime::now().duration_since(UNIX_EPOCH)` and `as_secs`); `None` when
/// the clock reads before the epoch. Nothing else is stated of the reading.
#[verifier::external_body]
pub(crate) fn system_secs_since_epoch() -> Option<u64> {
    match std::time::SystemTime::now().duration_since(std::time::UNIX_EPOCH) {
        Ok(d) => Some(d.as_secs()),
        Err(_) => None,
    }
}

/// A random number from the thread's generator (`rand::random::<u32>()`).
/// Nothing is stated of the value.
#[verifier::external_body]
pub(crate) fn random_u32() -> u32 {
    rand::random::<u32>()
}

/// The UTC calendar date `(year, month, day)` of the instant `secs`.
pub uninterp spec fn utc_date_of(secs: i64) -> (i32, u32, u32);

/// The instant of 00:00:00 UTC on the first day of `month` in `year`.
pub uninterp spec fn utc_month_start_of(year: i32, month: u32) -> i64;

/// `DateTime::<Utc>::from_timestamp(secs, 0)` taken to its date: year,
/// month and day. The contract names the date and states the documented
/// ranges of its parts (months 1 to 12, days 1 to 31, and the years that a
/// `NaiveDate` holds); the instant exists for every second in `utc_in_range`.
#[verifier::external_body]
pub(crate) fn utc_date(secs: i64) -> (d: (i32, u32, u32))
    requires
        utc_in_range(secs),
    ensures
        d == utc_date_of(secs),
        year_in_range(d.0 as int),
        1 <= d.1 <= 12,
        1 <= d.2 <= 31,
{
    let date = chrono::DateTime::<chrono::Utc>::from_timestamp(secs, 0).unwrap().date_naive();
    (chrono::Datelike::year(&date), chrono::Datelike::month(&date), chrono::Datelike::day(&date))
}

/// `NaiveDate::from_ymd_opt(year, month, 1)` at 00:00:00, as a UTC
/// timestamp. The first day of every month of a year in `year_in_range`
/// exists, so the date is made; the contract names the instant and states
/// that it is one a `DateTime<Utc>` holds.
#[verifier::external_body]
pub(crate) fn utc_month_start(year: i32, month: u32) -> (t: i64)
    requires
        year_in_range(year as int),
        1 <= month <= 12,
    ensures
        t == utc_month_start_of(year, month),
        utc_in_range(t),
{
    chrono::NaiveDate::from_ymd_opt(year, month, 1).unwrap().and_hms_opt(0, 0, 0).unwrap().and_utc().timestamp()
}

/// What `DateTime<Utc>::format(fmt).to_string()` writes for the instant `secs`.
pub uninterp spec fn utc_format_of(secs: i64, fmt: Seq<char>) -> Seq<char>;

/// The date formats this library writes: the day (`%Y-%m-%d`), the month
/// (`%Y-%m`), and the day with hour and minute (`%Y-%m-%d %H:%M UTC`). Each
/// is made of valid `strftime` specifiers and plain text only.
pub open spec fn utc_format_supported(fmt: Seq<char>) -> bool {
    ||| fmt == "%Y-%m-%d"@
    ||| fmt == "%Y-%m"@
    ||| fmt == "%Y-%m-%d %H:%M UTC"@
}

/// `chrono::DateTime::<Utc>::from_timestamp(secs, 0)` formatted with `fmt`.
/// The contract names the text; the instant exists for every second in
/// `utc_in_range`, so the conversion does not fail there. An invalid
/// specifier would make `to_string` panic, so only the formats of
/// `utc_format_supported`, whose specifiers are all valid, are accepted.
#[verifier::external_body]
pub(crate) fn utc_format(secs: i64, fmt: &str) -> (s: String)
    requires
        utc_in_range(secs),
        utc_format_supported(fmt@),
    ensures
        s@ == utc_format_of(secs, fmt@),
{
    chrono::DateTime::<chrono::Utc>::from_timestamp(secs, 0).unwrap().format(fmt).to_string()
}

/// The month after `month` of `year`, as `(year, month)`.
pub open spec fn following_month(year: int, month: int) -> (int, int) {
    if month == 12 {
        (year + 1, 1)
    } else {
        (year, month + 1)
    }
}

/// The first second of the month after the one holding `secs`, when that
/// month is a calendar month that can be written down.
pub open spec fn next_month_start_spec(secs: i64) -> Option<i64> {
    let d = utc_date_of(secs);
    let n = following_month(d.0 as int, d.1 as int);
    if year_in_range(n.0) {
        Some(utc_month_start_of(n.0 as i32, n.1 as u32))
    } else {
        None
    }
}

/// The first second of the month after the one holding `secs`; `None` only
/// in December of the last year a date can hold.
pub fn next_month_start(secs: i64) -> (r: Option<i64>)
    requires
        utc_in_range(secs),
    ensures
        r == next_month_start_spec(secs),
{
    let (year, month, _day) = utc_date(secs);
    if month == 12 {
        if year == 262_142 {
            None
        } else {
            Some(utc_month_start(year + 1, 1))
        }
    } else {
        Some(utc_month_start(year, month + 1))
    }
}

} // verus!
