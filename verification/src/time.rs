//! Instants, carried as microseconds since the Unix epoch (the precision of
//! the database's timestamps).

use vstd::prelude::*;

verus! {

/// Whether `chrono::DateTime::from_timestamp` accepts `secs` seconds since the
/// epoch: the instant falls between the first second of -262143-01-01 and the
/// last second of 262142-12-31, the dates `chrono` represents.
pub open spec fn chrono_accepts_secs(secs: i64) -> bool {
    -8_334_601_228_800 <= secs <= 8_210_266_876_799
}

/// The instant `secs` seconds after the epoch, in microseconds, if `chrono`
/// can represent it.
///
/// Calls `chrono::DateTime::<Utc>::from_timestamp(secs, 0)` and reads the
/// result back with `timestamp_micros`, which counts the microseconds since the
/// epoch; the seconds accepted are those of `chrono_accepts_secs` (its
/// `from_timestamp` counts days from the epoch and refuses a date outside
/// `NaiveDate::MIN ..= NaiveDate::MAX`).
#[verifier::external_body]
pub(crate) fn timestamp_from_secs(secs: i64) -> (r: Option<i64>)
    ensures
        r is Some == chrono_accepts_secs(secs),
        r matches Some(m) ==> m == secs * 1_000_000,
{
    match chrono::DateTime::from_timestamp(secs, 0) {
        Some(d) => Some(d.timestamp_micros()),
        None => None,
    }
}

/// The UTC day of the instant `micros` microseconds after the epoch, counted
/// in days from 1970-01-01 (day 0); instants before the epoch fall on negative
/// days.
pub open spec fn utc_day(micros: int) -> int {
    micros / 86_400_000_000
}

/// The day of the month, month and year of the day `days` days after
/// 1970-01-01 in the proleptic Gregorian calendar (astronomical years: year 0
/// is 1 BCE). The days are counted in eras of 400 years from 0000-03-01, with
/// each year of an era starting on March 1.
pub open spec fn civil_from_days(days: int) -> (int, int, int) {
    let z = days + 719_468;
    let era = z / 146_097;
    let day_of_era = z - era * 146_097;
    let year_of_era = (day_of_era - day_of_era / 1460 + day_of_era / 36_524 - day_of_era / 146_096) / 365;
    let day_of_year = day_of_era - (365 * year_of_era + year_of_era / 4 - year_of_era / 100);
    let month_from_march = (5 * day_of_year + 2) / 153;
    let day = day_of_year - (153 * month_from_march + 2) / 5 + 1;
    let month = if month_from_march < 10 {
        month_from_march + 3
    } else {
        month_from_march - 9
    };
    let year = year_of_era + era * 400 + if month <= 2 {
        1int
    } else {
        0int
    };
    (day, month, year)
}

/// Whether `chrono` represents the day `days` days after 1970-01-01: the days
/// from -262143-01-01 to 262142-12-31 (the days of `chrono_accepts_secs`).
pub open spec fn chrono_accepts_day(days: int) -> bool {
    -96_465_292 <= days <= 95_026_236
}

/// The UTC calendar date of the instant `micros` microseconds after the epoch:
/// day of the month, month and year, or `None` when `chrono` cannot represent
/// that instant.
pub open spec fn utc_date(micros: i64) -> Option<(u32, u32, i32)> {
    let days = utc_day(micros as int);
    if chrono_accepts_day(days) {
        let date = civil_from_days(days);
        Some((date.0 as u32, date.1 as u32, date.2 as i32))
    } else {
        None
    }
}

/// The UTC calendar date of an instant: day of the month, month, year.
///
/// Calls `chrono::DateTime::<Utc>::from_timestamp_micros` and the `day`,
/// `month` and `year` of `chrono::Datelike` on the result. `chrono` takes the
/// seconds `micros.div_euclid(1_000_000)`, their day `secs.div_euclid(86_400)`
/// (together the day `utc_day`), refuses a day outside `NaiveDate::MIN ..=
/// NaiveDate::MAX` (`chrono_accepts_day`) and reads the day as a date of the
/// proleptic Gregorian calendar (`civil_from_days`).
#[verifier::external_body]
pub(crate) fn date_of(micros: i64) -> (r: Option<(u32, u32, i32)>)
    ensures
        r == utc_date(micros),
{
    match chrono::DateTime::from_timestamp_micros(micros) {
        Some(d) => Some((chrono::Datelike::day(&d), chrono::Datelike::month(&d), chrono::Datelike::year(&d))),
        None => None,
    }
}

} // verus!
