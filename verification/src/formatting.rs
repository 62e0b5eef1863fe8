use vstd::prelude::*;
use crate::text::{append_str, i32_to_decimal, signed_decimal};

verus! {

/// A thousand bytes: the sizes use decimal (SI) units.
pub const KB: u64 = 1000;
pub const MB: u64 = 1000_000;
pub const GB: u64 = 1000_000_000;
pub const TB: u64 = 1000_000_000_000;
pub const PB: u64 = 1000_000_000_000_000;
pub const EB: u64 = 1000_000_000_000_000_000;

/// The unit in which a file size of at least a kilobyte is shown.
#[derive(Clone, Copy, Debug, PartialEq, Eq, Structural)]
pub enum SizeUnit {
    Kilo,
    Mega,
    Giga,
    Tera,
    Peta,
    Exa,
}

/// How a file size is shown: a whole number of bytes, written out, or a
/// quantity with one decimal in a larger unit, which is a matter of
/// floating point and is written by the caller.
#[derive(Clone, Debug, PartialEq, Eq)]
pub enum SizeText {
    Exact(String),
    Scaled(SizeUnit),
}

pub open spec fn unit_divisor(u: SizeUnit) -> u64 {
    match u {
        SizeUnit::Kilo => KB,
        SizeUnit::Mega => MB,
        SizeUnit::Giga => GB,
        SizeUnit::Tera => TB,
        SizeUnit::Peta => PB,
        SizeUnit::Exa => EB,
    }
}

/// The largest unit that does not exceed a size of at least a kilobyte.
pub open spec fn size_unit(size: u64) -> SizeUnit
    recommends
        size >= KB,
{
    if size < MB {
        SizeUnit::Kilo
    } else if size < GB {
        SizeUnit::Mega
    } else if size < TB {
        SizeUnit::Giga
    } else if size < PB {
        SizeUnit::Tera
    } else if size < EB {
        SizeUnit::Peta
    } else {
        SizeUnit::Exa
    }
}

/// A size below a kilobyte, in bytes: `"0 B"`, `"999 B"`.
pub open spec fn bytes_text(size: u64) -> Seq<char> {
    crate::text::decimal(size as nat) + " B"@
}

impl SizeUnit {
    /// The number of bytes in one of this unit.
    pub fn divisor(&self) -> (d: u64)
        ensures
            d == unit_divisor(*self),
    {
        match self {
            SizeUnit::Kilo => KB,
            SizeUnit::Mega => MB,
            SizeUnit::Giga => GB,
            SizeUnit::Tera => TB,
            SizeUnit::Peta => PB,
            SizeUnit::Exa => EB,
        }
    }

    /// The symbol written after the quantity.
    pub fn label(&self) -> (l: &'static str)
        ensures
            l@ == (match *self {
                SizeUnit::Kilo => "KB"@,
                SizeUnit::Mega => "MB"@,
                SizeUnit::Giga => "GB"@,
                SizeUnit::Tera => "TB"@,
                SizeUnit::Peta => "PB"@,
                SizeUnit::Exa => "EB"@,
            }),
    {
        match self {
            SizeUnit::Kilo => "KB",
            SizeUnit::Mega => "MB",
            SizeUnit::Giga => "GB",
            SizeUnit::Tera => "TB",
            SizeUnit::Peta => "PB",
            SizeUnit::Exa => "EB",
        }
    }
}

/// Writes a size in bytes: below a kilobyte exactly, otherwise the unit in
/// which the caller shows the quantity with one decimal.
pub fn format_size(size: u64) -> (r: SizeText)
    ensures
        match r {
            SizeText::Exact(s) => size < KB && s@ == bytes_text(size),
            SizeText::Scaled(u) => size >= KB && u == size_unit(size),
        },
{
    if size < KB {
        let mut s = crate::text::u64_to_decimal(size);
        crate::text::append_str(&mut s, " B");
        SizeText::Exact(s)
    } else if size < MB {
        SizeText::Scaled(SizeUnit::Kilo)
    } else if size < GB {
        SizeText::Scaled(SizeUnit::Mega)
    } else if size < TB {
        SizeText::Scaled(SizeUnit::Giga)
    } else if size < PB {
        SizeText::Scaled(SizeUnit::Tera)
    } else if size < EB {
        SizeText::Scaled(SizeUnit::Peta)
    } else {
        SizeText::Scaled(SizeUnit::Exa)
    }
}

/// A scaled size holds at least one of its unit and, but in exabytes,
/// less than a thousand of them, so the shown quantity lies in
/// `[1, 1000)`.
pub proof fn law_scaled_below_thousand(size: u64)
    requires
        size >= KB,
    ensures
        unit_divisor(size_unit(size)) <= size,
        size_unit(size) != SizeUnit::Exa ==> size < 1000 * unit_divisor(size_unit(size)),
{
}


/// The units are the decimal ones, each a thousand times the one before,
/// from a kilobyte of a thousand bytes; a size under a kilobyte is written
/// exactly, in bytes.
pub proof fn law_size_units(size: u64)
    ensures
        unit_divisor(SizeUnit::Kilo) == 1000,
        unit_divisor(SizeUnit::Mega) == 1000 * unit_divisor(SizeUnit::Kilo),
        unit_divisor(SizeUnit::Giga) == 1000 * unit_divisor(SizeUnit::Mega),
        unit_divisor(SizeUnit::Tera) == 1000 * unit_divisor(SizeUnit::Giga),
        unit_divisor(SizeUnit::Peta) == 1000 * unit_divisor(SizeUnit::Tera),
        unit_divisor(SizeUnit::Exa) == 1000 * unit_divisor(SizeUnit::Peta),
        size >= KB ==> (size_unit(size) == SizeUnit::Kilo <==> size < 1000 * 1000),
        size >= 1000 * 1000 * 1000 * 1000 * 1000 * 1000 ==> size_unit(size) == SizeUnit::Exa,
        bytes_text(size) == crate::text::decimal(size as nat) + " B"@,
{
}

/// How long ago a file was modified, in the largest whole unit that fits.
#[derive(Clone, Copy, Debug, PartialEq, Eq, Structural)]
pub enum RelativeDate {
    /// The date lies in the future: no elapsed time can be told.
    Unknown,
    /// Less than a minute ago.
    Now,
    Minutes(u64),
    Hours(u64),
    Days(u64),
    Weeks(u64),
    Months(u64),
    Years(u64),
}

pub const MINUTE: u64 = 60;
pub const HOUR: u64 = 3600;
pub const DAY: u64 = 86400;
pub const WEEK: u64 = 604800;
/// Thirty days.
pub const MONTH: u64 = 2592000;
/// Three hundred and sixty-five days.
pub const YEAR: u64 = 31536000;

/// The bucket of an elapsed time in seconds.
pub open spec fn elapsed_bucket(secs: u64) -> RelativeDate {
    if secs < MINUTE {
        RelativeDate::Now
    } else if secs < HOUR {
        RelativeDate::Minutes(secs / MINUTE)
    } else if secs < DAY {
        RelativeDate::Hours(secs / HOUR)
    } else if secs < WEEK {
        RelativeDate::Days(secs / DAY)
    } else if secs < MONTH {
        RelativeDate::Weeks(secs / WEEK)
    } else if secs < YEAR {
        RelativeDate::Months(secs / MONTH)
    } else {
        RelativeDate::Years(secs / YEAR)
    }
}

/// The relative date of a modification time, both in whole seconds since
/// the Unix epoch; `now` is the current time.
pub open spec fn relative_date(seconds: u64, now: u64) -> RelativeDate {
    if seconds > now {
        RelativeDate::Unknown
    } else {
        elapsed_bucket((now - seconds) as u64)
    }
}

/// Tells how long ago `seconds` (a Unix time) lies before `now`.
pub fn format_date(seconds: u64, now: u64) -> (r: RelativeDate)
    ensures
        r == relative_date(seconds, now),
{
    if seconds > now {
        return RelativeDate::Unknown;
    }
    let secs = now - seconds;
    if secs < MINUTE {
        RelativeDate::Now
    } else if secs < HOUR {
        RelativeDate::Minutes(secs / MINUTE)
    } else if secs < DAY {
        RelativeDate::Hours(secs / HOUR)
    } else if secs < WEEK {
        RelativeDate::Days(secs / DAY)
    } else if secs < MONTH {
        RelativeDate::Weeks(secs / WEEK)
    } else if secs < YEAR {
        RelativeDate::Months(secs / MONTH)
    } else {
        RelativeDate::Years(secs / YEAR)
    }
}

impl RelativeDate {
    /// The key of the phrase in the language files, `None` for an unknown date.
    pub fn i18n_key(&self) -> (k: Option<&'static str>)
        ensures
            match *self {
                RelativeDate::Unknown => k is None,
                RelativeDate::Now => k == Some("modified_date_formating.now"),
                RelativeDate::Minutes(_) => k == Some("modified_date_formating.min"),
                RelativeDate::Hours(_) => k == Some("modified_date_formating.hour"),
                RelativeDate::Days(_) => k == Some("modified_date_formating.day"),
                RelativeDate::Weeks(_) => k == Some("modified_date_formating.week"),
                RelativeDate::Months(_) => k == Some("modified_date_formating.month"),
                RelativeDate::Years(_) => k == Some("modified_date_formating.year"),
            },
    {
        match self {
            RelativeDate::Unknown => None,
            RelativeDate::Now => Some("modified_date_formating.now"),
            RelativeDate::Minutes(_) => Some("modified_date_formating.min"),
            RelativeDate::Hours(_) => Some("modified_date_formating.hour"),
            RelativeDate::Days(_) => Some("modified_date_formating.day"),
            RelativeDate::Weeks(_) => Some("modified_date_formating.week"),
            RelativeDate::Months(_) => Some("modified_date_formating.month"),
            RelativeDate::Years(_) => Some("modified_date_formating.year"),
        }
    }

    /// The count put in the phrase, `None` where the phrase has none.
    pub fn query(&self) -> (q: Option<u64>)
        ensures
            match *self {
                RelativeDate::Minutes(n) => q == Some(n),
                RelativeDate::Hours(n) => q == Some(n),
                RelativeDate::Days(n) => q == Some(n),
                RelativeDate::Weeks(n) => q == Some(n),
                RelativeDate::Months(n) => q == Some(n),
                RelativeDate::Years(n) => q == Some(n),
                _ => q is None,
            },
    {
        match self {
            RelativeDate::Minutes(n) => Some(*n),
            RelativeDate::Hours(n) => Some(*n),
            RelativeDate::Days(n) => Some(*n),
            RelativeDate::Weeks(n) => Some(*n),
            RelativeDate::Months(n) => Some(*n),
            RelativeDate::Years(n) => Some(*n),
            _ => None,
        }
    }
}

/// What is shown in place of a date that lies in the future.
pub fn unknown_date_text() -> (s: &'static str)
    ensures
        s@ == "—"@,
{
    "—"
}

/// The count of a bucket is at least one and a bucket never overlaps the
/// next: `count * unit <= elapsed < (count + 1) * unit`.
pub proof fn law_bucket_count_bounds(secs: u64)
    ensures
        match elapsed_bucket(secs) {
            RelativeDate::Now => secs < MINUTE,
            RelativeDate::Minutes(n) => 1 <= n < 60 && n * MINUTE <= secs < (n + 1) * MINUTE,
            RelativeDate::Hours(n) => 1 <= n < 24 && n * HOUR <= secs < (n + 1) * HOUR,
            RelativeDate::Days(n) => 1 <= n < 7 && n * DAY <= secs < (n + 1) * DAY,
            RelativeDate::Weeks(n) => 1 <= n <= 4 && n * WEEK <= secs < (n + 1) * WEEK,
            RelativeDate::Months(n) => 1 <= n <= 12 && n * MONTH <= secs < (n + 1) * MONTH,
            RelativeDate::Years(n) => 1 <= n && n * YEAR <= secs < (n + 1) * YEAR,
            RelativeDate::Unknown => false,
        },
{
    let b = elapsed_bucket(secs);
    match b {
        RelativeDate::Minutes(n) => {
            assert(n * MINUTE <= secs < (n + 1) * MINUTE) by (nonlinear_arith)
                requires n == secs / MINUTE, MINUTE == 60;
        },
        RelativeDate::Hours(n) => {
            assert(n * HOUR <= secs < (n + 1) * HOUR) by (nonlinear_arith)
                requires n == secs / HOUR, HOUR == 3600;
        },
        RelativeDate::Days(n) => {
            assert(n * DAY <= secs < (n + 1) * DAY) by (nonlinear_arith)
                requires n == secs / DAY, DAY == 86400;
        },
        RelativeDate::Weeks(n) => {
            assert(n * WEEK <= secs < (n + 1) * WEEK) by (nonlinear_arith)
                requires n == secs / WEEK, WEEK == 604800;
        },
        RelativeDate::Months(n) => {
            assert(n * MONTH <= secs < (n + 1) * MONTH) by (nonlinear_arith)
                requires n == secs / MONTH, MONTH == 2592000;
        },
        RelativeDate::Years(n) => {
            assert(n * YEAR <= secs < (n + 1) * YEAR) by (nonlinear_arith)
                requires n == secs / YEAR, YEAR == 31536000;
        },
        _ => {},
    }
}

/// The older of two modification times never looks more recent:
/// the buckets are ordered as the elapsed times are.
pub proof fn law_older_is_not_newer(a: u64, b: u64, now: u64)
    requires
        a <= b <= now,
    ensures
        bucket_rank(relative_date(b, now)) <= bucket_rank(relative_date(a, now)),
{
}

/// The position of a bucket, from the most recent to the oldest.
pub open spec fn bucket_rank(r: RelativeDate) -> int {
    match r {
        RelativeDate::Unknown => -1,
        RelativeDate::Now => 0,
        RelativeDate::Minutes(_) => 1,
        RelativeDate::Hours(_) => 2,
        RelativeDate::Days(_) => 3,
        RelativeDate::Weeks(_) => 4,
        RelativeDate::Months(_) => 5,
        RelativeDate::Years(_) => 6,
    }
}

/// Division that truncates toward zero, as `/` on Rust's signed integers.
pub open spec fn div_toward_zero(a: int, b: int) -> int
    recommends
        b > 0,
{
    if a >= 0 {
        a / b
    } else {
        -((-a) / b)
    }
}

/// The age of a file in the older phrasing, from the whole minutes, hours
/// and days elapsed (negative for a date in the future).
#[derive(Clone, Copy, Debug, PartialEq, Eq, Structural)]
pub enum LegacyAge {
    Minutes(i32),
    Hours(i32),
    Days(i32),
    /// Whole weeks of seven days.
    Weeks(i32),
    /// Whole months of four weeks.
    Months(i32),
    /// Whole years of twelve such months; only from two years on.
    Years(i32),
    /// Between twelve and twenty-three months of four weeks.
    Unknown,
}

/// The age buckets of the older phrasing: minutes below an hour, hours
/// below a day, days below a week, then weeks, months and years counted from
/// the days (a month being four weeks, a year twelve months); an age of one
/// such year is not told.
pub open spec fn legacy_age_spec(min: i32, hours: i32, days: i32) -> LegacyAge {
    let weeks = div_toward_zero(days as int, 7);
    let months = div_toward_zero(weeks, 4);
    let years = div_toward_zero(months, 12);
    if min < 60 {
        LegacyAge::Minutes(min)
    } else if hours < 24 {
        LegacyAge::Hours(hours)
    } else if days < 7 {
        LegacyAge::Days(days)
    } else if weeks < 4 {
        LegacyAge::Weeks(weeks as i32)
    } else if months < 12 {
        LegacyAge::Months(months as i32)
    } else if years > 1 {
        LegacyAge::Years(years as i32)
    } else {
        LegacyAge::Unknown
    }
}

fn div_i32(a: i32, b: i32) -> (q: i32)
    requires
        b > 0,
    ensures
        q == div_toward_zero(a as int, b as int),
{
    if a >= 0 {
        a / b
    } else {
        let m: i64 = 0i64 - (a as i64);
        let q: i64 = m / (b as i64);
        (0i64 - q) as i32
    }
}

/// Chooses the bucket of the older phrasing.
pub fn legacy_age(min: i32, hours: i32, days: i32) -> (r: LegacyAge)
    ensures
        r == legacy_age_spec(min, hours, days),
{
    let weeks = div_i32(days, 7);
    let months = div_i32(weeks, 4);
    let years = div_i32(months, 12);
    if min < 60 {
        LegacyAge::Minutes(min)
    } else if hours < 24 {
        LegacyAge::Hours(hours)
    } else if days < 7 {
        LegacyAge::Days(days)
    } else if weeks < 4 {
        LegacyAge::Weeks(weeks)
    } else if months < 12 {
        LegacyAge::Months(months)
    } else if years > 1 {
        LegacyAge::Years(years)
    } else {
        LegacyAge::Unknown
    }
}

/// The older phrasing tells the age in minutes under an hour, in hours
/// under a day, in days under a week, then in whole weeks (seven days) under
/// four weeks, in whole months (four weeks) under twelve months, and in
/// whole years (twelve months) from two years on; a year-old file gets no
/// count.
pub proof fn law_legacy_age_buckets(min: i32, hours: i32, days: i32)
    ensures
        min < 60 ==> legacy_age_spec(min, hours, days) == LegacyAge::Minutes(min),
        min >= 60 && hours < 24 ==> legacy_age_spec(min, hours, days) == LegacyAge::Hours(hours),
        min >= 60 && hours >= 24 && days < 7 ==> legacy_age_spec(min, hours, days) == LegacyAge::Days(days),
        min >= 60 && hours >= 24 && 7 <= days < 28 ==> legacy_age_spec(min, hours, days) == LegacyAge::Weeks(
            (days / 7) as i32,
        ),
        min >= 60 && hours >= 24 && 28 <= days < 336 ==> legacy_age_spec(min, hours, days) == LegacyAge::Months(
            (days / 28) as i32,
        ),
        min >= 60 && hours >= 24 && 336 <= days < 672 ==> legacy_age_spec(min, hours, days) == LegacyAge::Unknown,
        min >= 60 && hours >= 24 && days >= 672 ==> legacy_age_spec(min, hours, days) == LegacyAge::Years(
            (days / 336) as i32,
        ),
{
    if days >= 7 {
        let w = days as int / 7;
        assert(w / 4 == days as int / 28) by (nonlinear_arith)
            requires w == days as int / 7, days >= 7;
        assert((w / 4) / 12 == days as int / 336) by (nonlinear_arith)
            requires w == days as int / 7, days >= 7;
    }
}

/// The Spanish phrase of an age in the older phrasing.
pub open spec fn legacy_age_text(a: LegacyAge) -> Seq<char> {
    match a {
        LegacyAge::Minutes(n) => "Hace "@ + signed_decimal(n as int) + "min"@,
        LegacyAge::Hours(n) => "Hace "@ + signed_decimal(n as int) + "h"@,
        LegacyAge::Days(n) => "Hace "@ + signed_decimal(n as int) + " dia/s"@,
        LegacyAge::Weeks(n) => "Hace "@ + signed_decimal(n as int) + " semana/s"@,
        LegacyAge::Months(n) => "Hace "@ + signed_decimal(n as int) + " mes/ses"@,
        LegacyAge::Years(n) => "Hace "@ + signed_decimal(n as int) + " año/s"@,
        LegacyAge::Unknown => "desconocido"@,
    }
}

impl LegacyAge {
    /// Writes the phrase of the age.
    pub fn text(&self) -> (s: String)
        ensures
            s@ == legacy_age_text(*self),
    {
        let (n, suffix) = match self {
            LegacyAge::Minutes(n) => (*n, "min"),
            LegacyAge::Hours(n) => (*n, "h"),
            LegacyAge::Days(n) => (*n, " dia/s"),
            LegacyAge::Weeks(n) => (*n, " semana/s"),
            LegacyAge::Months(n) => (*n, " mes/ses"),
            LegacyAge::Years(n) => (*n, " año/s"),
            LegacyAge::Unknown => {
                return "desconocido".to_owned();
            },
        };
        let mut s = "Hace ".to_owned();
        let digits = i32_to_decimal(n);
        append_str(&mut s, digits.as_str());
        append_str(&mut s, suffix);
        s
    }
}

} // verus!
