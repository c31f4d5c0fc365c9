//! 7z timestamp: a 64-bit count of 100-nanosecond ticks since
//! 1601-01-01 00:00:00 UTC, with fallible conversions from and to
//! calendar time.

use vstd::prelude::*;
use vstd::arithmetic::div_mod::{
    lemma_div_multiples_vanish,
    lemma_fundamental_div_mod,
    lemma_mod_multiples_vanish,
};

verus! {

/// The error type for 7z timestamp.
#[derive(Clone, Copy, Debug, PartialEq, Eq, Structural)]
pub enum Error {
    /// Out of range of the timestamp.
    InvalidFileTime,
    /// The timestamp is too big.
    FileTimeTooBig,
}

impl Error {
    /// Renders the fixed message of this error kind.
    pub fn to_message(&self) -> (r: String)
        ensures
            (match self {
                Error::InvalidFileTime => r@ == "out of range of 7z timestamp"@,
                Error::FileTimeTooBig => r@ == "7z timestamp is too big"@,
            }),
    {
        match self {
            Error::InvalidFileTime => String::from_str("out of range of 7z timestamp"),
            Error::FileTimeTooBig => String::from_str("7z timestamp is too big"),
        }
    }
}

/// Nanoseconds from the timestamp epoch (1601-01-01 00:00:00 UTC) to the
/// Unix epoch (1970-01-01 00:00:00 UTC): 134,774 days.
pub const NT_EPOCH_UNIX_OFFSET_NANOS: i128 = 11_644_473_600_000_000_000;

/// The largest tick count whose calendar time stays within the ordinary
/// calendar range, which ends at 9999-12-31 23:59:59.999999999 UTC.
pub const MAX_ORDINARY_TICKS: u64 = 2_650_467_743_999_999_999;

/// True when a year has 366 days in the proleptic Gregorian calendar.
pub open spec fn spec_is_leap_year(year: int) -> bool {
    year % 4 == 0 && (year % 100 != 0 || year % 400 == 0)
}

/// The number of days of a month in the proleptic Gregorian calendar.
pub open spec fn spec_days_in_month(year: int, month: int) -> int {
    if month == 2 {
        if spec_is_leap_year(year) {
            29
        } else {
            28
        }
    } else if month == 4 || month == 6 || month == 9 || month == 11 {
        30
    } else {
        31
    }
}

/// Decides whether a year has 366 days in the proleptic Gregorian calendar.
pub fn is_leap_year(year: i32) -> (r: bool)
    requires
        -1_000_000 <= year <= 1_000_000,
    ensures
        r == spec_is_leap_year(year as int),
{
    // Shift by a positive multiple of 400 so that the remainders are taken
    // of a non-negative number.
    let y = year + 1_200_000_000;
    proof {
        lemma_mod_multiples_vanish(300_000_000, year as int, 4);
        lemma_mod_multiples_vanish(12_000_000, year as int, 100);
        lemma_mod_multiples_vanish(3_000_000, year as int, 400);
    }
    y % 4 == 0 && (y % 100 != 0 || y % 400 == 0)
}

/// Gets the number of days of a month in the proleptic Gregorian calendar.
pub fn days_in_month(year: i32, month: u8) -> (r: u8)
    requires
        -1_000_000 <= year <= 1_000_000,
        1 <= month <= 12,
    ensures
        r as int == spec_days_in_month(year as int, month as int),
{
    if month == 2 {
        if is_leap_year(year) {
            29
        } else {
            28
        }
    } else if month == 4 || month == 6 || month == 9 || month == 11 {
        30
    } else {
        31
    }
}

/// A calendar time: a UTC instant written out as its proleptic Gregorian
/// calendar components.
#[derive(Clone, Copy, Debug, PartialEq, Eq, Structural)]
pub struct DateTime {
    /// Year, between -999,999 and 999,999.
    pub year: i32,
    /// Month of the year, from 1.
    pub month: u8,
    /// Day of the month, from 1.
    pub day: u8,
    /// Hour of the day.
    pub hour: u8,
    /// Minute of the hour.
    pub minute: u8,
    /// Second of the minute.
    pub second: u8,
    /// Nanoseconds below one second.
    pub nanosecond: u32,
}

impl DateTime {
    /// True when the components denote a real calendar time within the
    /// supported year range.
    pub open spec fn valid(self) -> bool {
        &&& -999_999 <= self.year <= 999_999
        &&& 1 <= self.month <= 12
        &&& 1 <= self.day <= spec_days_in_month(self.year as int, self.month as int)
        &&& self.hour < 24
        &&& self.minute < 60
        &&& self.second < 60
        &&& self.nanosecond < 1_000_000_000
    }

    /// Decides whether the components denote a real calendar time within
    /// the supported year range.
    pub fn is_valid(&self) -> (r: bool)
        ensures
            r == self.valid(),
    {
        if !(-999_999 <= self.year && self.year <= 999_999) {
            return false;
        }
        if !(1 <= self.month && self.month <= 12) {
            return false;
        }
        1 <= self.day && self.day <= days_in_month(self.year, self.month) && self.hour < 24
            && self.minute < 60 && self.second < 60 && self.nanosecond < 1_000_000_000
    }

    /// Builds a calendar time from components, or nothing where they do
    /// not denote a real calendar time.
    pub fn new(year: i32, month: u8, day: u8, hour: u8, minute: u8, second: u8, nanosecond: u32)
        -> (r: Option<DateTime>)
        ensures
            (match r {
                Some(dt) => dt == (DateTime { year, month, day, hour, minute, second, nanosecond })
                    && dt.valid(),
                None => !(DateTime { year, month, day, hour, minute, second, nanosecond }).valid(),
            }),
    {
        let dt = DateTime { year, month, day, hour, minute, second, nanosecond };
        if dt.is_valid() {
            Some(dt)
        } else {
            None
        }
    }
}

/// The number of nanoseconds from the Unix epoch to a calendar time, in
/// the proleptic Gregorian calendar, UTC, without leap seconds. Named
/// here; the `time` crate computes it.
pub uninterp spec fn unix_nanos_of_calendar(
    year: int,
    month: int,
    day: int,
    hour: int,
    minute: int,
    second: int,
    nanosecond: int,
) -> int;

/// The number of nanoseconds from the Unix epoch to the instant a
/// calendar time denotes.
pub open spec fn unix_nanos_of(dt: DateTime) -> int {
    unix_nanos_of_calendar(
        dt.year as int,
        dt.month as int,
        dt.day as int,
        dt.hour as int,
        dt.minute as int,
        dt.second as int,
        dt.nanosecond as int,
    )
}

/// The number of nanoseconds from the timestamp epoch to the instant a
/// calendar time denotes.
pub open spec fn nt_nanos_of(dt: DateTime) -> int {
    unix_nanos_of(dt) + NT_EPOCH_UNIX_OFFSET_NANOS as int
}

/// Relies on time::Date::from_calendar_date, time::Date::with_hms_nano,
/// time::PlainDateTime::assume_utc and
/// time::OffsetDateTime::unix_timestamp_nanos: the number of nanoseconds
/// between the Unix epoch and a valid calendar time. The result depends
/// on the calendar components alone.
#[verifier::external_body]
fn calendar_unix_nanos(dt: &DateTime) -> (r: i128)
    requires
        dt.valid(),
    ensures
        r as int == unix_nanos_of_calendar(
            dt.year as int,
            dt.month as int,
            dt.day as int,
            dt.hour as int,
            dt.minute as int,
            dt.second as int,
            dt.nanosecond as int,
        ),
{
    let month = time::Month::try_from(dt.month).unwrap();
    let date = time::Date::from_calendar_date(dt.year, month, dt.day).unwrap();
    let plain = date.with_hms_nano(dt.hour, dt.minute, dt.second, dt.nanosecond).unwrap();
    plain.assume_utc().unix_timestamp_nanos()
}

/// Relies on time::OffsetDateTime::from_unix_timestamp_nanos and its
/// component accessors: the UTC calendar time lying `nanos` nanoseconds
/// after the Unix epoch. The components identify that instant exactly, so
/// measuring the same calendar time back gives `nanos` again.
#[verifier::external_body]
fn unix_nanos_calendar(nanos: i128) -> (r: DateTime)
    requires
        -11_644_473_600_000_000_000 <= nanos as int <= 1_850_000_000_000_000_000_000,
    ensures
        r.valid(),
        unix_nanos_of_calendar(
            r.year as int,
            r.month as int,
            r.day as int,
            r.hour as int,
            r.minute as int,
            r.second as int,
            r.nanosecond as int,
        ) == nanos as int,
{
    let odt = time::OffsetDateTime::from_unix_timestamp_nanos(nanos).unwrap();
    DateTime {
        year: odt.year(),
        month: odt.month() as u8,
        day: odt.day(),
        hour: odt.hour(),
        minute: odt.minute(),
        second: odt.second(),
        nanosecond: odt.nanosecond(),
    }
}

#[verifier::external_type_specification]
#[verifier::external_body]
pub struct ExSystemTime(std::time::SystemTime);

/// Relies on std::time::SystemTime::duration_since: the offset of `t`
/// from the Unix epoch, as a sign, whole seconds and sub-second
/// nanoseconds.
#[verifier::external_body]
fn system_time_unix_offset(t: &std::time::SystemTime) -> (r: (bool, u64, u32))
    ensures
        r.2 < 1_000_000_000,
{
    match t.duration_since(std::time::UNIX_EPOCH) {
        Ok(d) => (false, d.as_secs(), d.subsec_nanos()),
        Err(e) => (true, e.duration().as_secs(), e.duration().subsec_nanos()),
    }
}

/// Relies on std::time::SystemTime::checked_add: the instant the given
/// duration after the Unix epoch, where the platform can represent it.
#[verifier::external_body]
fn system_time_after_unix(secs: u64, nanos: u32) -> (r: Option<std::time::SystemTime>)
    requires
        nanos < 1_000_000_000,
{
    std::time::UNIX_EPOCH.checked_add(std::time::Duration::new(secs, nanos))
}

/// Relies on std::time::SystemTime::checked_sub: the instant the given
/// duration before the Unix epoch, where the platform can represent it.
#[verifier::external_body]
fn system_time_before_unix(secs: u64, nanos: u32) -> (r: Option<std::time::SystemTime>)
    requires
        nanos < 1_000_000_000,
{
    std::time::UNIX_EPOCH.checked_sub(std::time::Duration::new(secs, nanos))
}

/// What converting an offset of `nanos` nanoseconds from the Unix epoch
/// into a timestamp owes: a timestamp exactly for the instants on or
/// after the 1601 epoch whose tick count fits in 64 bits, truncating
/// below the 100-nanosecond resolution, and an invalid-range error for
/// every other instant.
pub open spec fn unix_nanos_outcome(nanos: int, r: Result<FileTime, Error>) -> bool {
    let nt = nanos + (NT_EPOCH_UNIX_OFFSET_NANOS as int);
    match r {
        Ok(ft) => 0 <= nt && nt / 100 <= u64::MAX && ft@ as int == nt / 100,
        Err(e) => e == Error::InvalidFileTime && (nt < 0 || nt / 100 > u64::MAX),
    }
}

/// Represents 7z timestamp.
///
/// This is the same as the Windows NT system time: an unsigned 64-bit
/// count of 100-nanosecond ticks since 1601-01-01 00:00:00 UTC.
#[derive(Clone, Copy, Debug, Eq, PartialEq, Structural)]
pub struct FileTime(u64);

impl View for FileTime {
    type V = u64;

    closed spec fn view(&self) -> u64 {
        self.0
    }
}

impl Default for FileTime {
    /// Returns the default value of "1601-01-01 00:00:00 UTC".
    fn default() -> (r: Self)
        ensures
            r@ == 0u64,
    {
        FileTime(u64::MIN)
    }
}

impl From<u64> for FileTime {
    /// Converts the Windows NT system time to a `FileTime`.
    fn from(time: u64) -> (r: Self)
        ensures
            r@ == time,
    {
        FileTime(time)
    }
}

impl vstd::std_specs::convert::FromSpecImpl<u64> for FileTime {
    open spec fn obeys_from_spec() -> bool {
        true
    }

    closed spec fn from_spec(time: u64) -> FileTime {
        FileTime(time)
    }
}

impl From<FileTime> for u64 {
    /// Converts a `FileTime` to the Windows NT system time.
    fn from(time: FileTime) -> (r: u64)
        ensures
            r == time@,
    {
        time.0
    }
}

impl vstd::std_specs::convert::FromSpecImpl<FileTime> for u64 {
    open spec fn obeys_from_spec() -> bool {
        true
    }

    open spec fn from_spec(time: FileTime) -> u64 {
        time@
    }
}

impl FileTime {
    /// Converts an offset of nanoseconds from the Unix epoch to a
    /// `FileTime`: the tick count of the instant, where the instant is on
    /// or after the 1601 epoch and the count fits in 64 bits, and an
    /// invalid-range error otherwise.
    pub fn from_unix_nanos(nanos: i128) -> (r: Result<FileTime, Error>)
        ensures
            unix_nanos_outcome(nanos as int, r),
    {
        if nanos > i128::MAX - NT_EPOCH_UNIX_OFFSET_NANOS {
            proof {
                lemma_fundamental_div_mod(nanos as int + NT_EPOCH_UNIX_OFFSET_NANOS as int, 100);
            }
            return Err(Error::InvalidFileTime);
        }
        let nt = nanos + NT_EPOCH_UNIX_OFFSET_NANOS;
        if nt < 0 {
            return Err(Error::InvalidFileTime);
        }
        let ticks = (nt as u128) / 100;
        if ticks > u64::MAX as u128 {
            return Err(Error::InvalidFileTime);
        }
        Ok(FileTime(ticks as u64))
    }

    /// Converts a calendar time to a `FileTime`: the tick count of the
    /// instant, where the instant is on or after the 1601 epoch and the
    /// count fits in 64 bits, and an invalid-range error otherwise.
    pub fn from_date_time(dt: &DateTime) -> (r: Result<FileTime, Error>)
        requires
            dt.valid(),
        ensures
            unix_nanos_outcome(unix_nanos_of(*dt), r),
    {
        let nanos = calendar_unix_nanos(dt);
        Self::from_unix_nanos(nanos)
    }

    /// Converts a `FileTime` to the calendar time of its instant.
    ///
    /// Without the extended range, a tick count beyond the ordinary
    /// calendar range is a too-big error; with it, the whole 64-bit tick
    /// space converts.
    pub fn to_date_time(&self, extended: bool) -> (r: Result<DateTime, Error>)
        ensures
            (match r {
                Ok(dt) => dt.valid() && nt_nanos_of(dt) == self@ as int * 100 && (extended || self@
                    <= MAX_ORDINARY_TICKS),
                Err(e) => e == Error::FileTimeTooBig && !extended && self@ > MAX_ORDINARY_TICKS,
            }),
    {
        if !extended && self.0 > MAX_ORDINARY_TICKS {
            return Err(Error::FileTimeTooBig);
        }
        let nanos = self.0 as i128 * 100 - NT_EPOCH_UNIX_OFFSET_NANOS;
        Ok(unix_nanos_calendar(nanos))
    }

    /// Converts a system time to a `FileTime`, by the rule of
    /// [`FileTime::from_unix_nanos`] applied to the system clock's offset
    /// from the Unix epoch.
    pub fn from_system_time(t: &std::time::SystemTime) -> (r: Result<FileTime, Error>)
        ensures
            exists|nanos: int| unix_nanos_outcome(nanos, r),
    {
        let (neg, secs, sub) = system_time_unix_offset(t);
        Self::from_unix_nanos(unix_nanos_from_parts(neg, secs, sub))
    }

    /// Converts a `FileTime` to the system time of its instant.
    ///
    /// Without the extended range, a tick count beyond the ordinary
    /// calendar range is a too-big error, as is an instant the platform's
    /// system time cannot represent. The duration handed to the platform
    /// is the exact Unix-epoch offset of the tick count, by
    /// [`unix_duration_parts`].
    pub fn to_system_time(&self, extended: bool) -> (r: Result<std::time::SystemTime, Error>)
        ensures
            !extended && self@ > MAX_ORDINARY_TICKS ==> r is Err,
            r matches Err(e) ==> e == Error::FileTimeTooBig,
    {
        if !extended && self.0 > MAX_ORDINARY_TICKS {
            return Err(Error::FileTimeTooBig);
        }
        let (neg, secs, sub) = unix_duration_parts(self.0);
        let st = if neg {
            system_time_before_unix(secs, sub)
        } else {
            system_time_after_unix(secs, sub)
        };
        match st {
            Some(t) => Ok(t),
            None => Err(Error::FileTimeTooBig),
        }
    }
}

/// Combines a sign, whole seconds and sub-second nanoseconds into the
/// signed offset of nanoseconds they denote.
pub fn unix_nanos_from_parts(neg: bool, secs: u64, sub: u32) -> (r: i128)
    ensures
        r as int == (if neg {
            -(secs as int * 1_000_000_000 + sub as int)
        } else {
            secs as int * 1_000_000_000 + sub as int
        }),
{
    let magnitude = secs as i128 * 1_000_000_000 + sub as i128;
    if neg {
        -magnitude
    } else {
        magnitude
    }
}

/// Splits a tick count into its offset from the Unix epoch, as a sign,
/// whole seconds and sub-second nanoseconds: the parts denote exactly
/// `ticks * 100 - NT_EPOCH_UNIX_OFFSET_NANOS` nanoseconds.
pub fn unix_duration_parts(ticks: u64) -> (r: (bool, u64, u32))
    ensures
        (if r.0 {
            -(r.1 as int * 1_000_000_000 + r.2 as int)
        } else {
            r.1 as int * 1_000_000_000 + r.2 as int
        }) == ticks as int * 100 - (NT_EPOCH_UNIX_OFFSET_NANOS as int),
        r.2 < 1_000_000_000,
{
    let nanos = ticks as i128 * 100 - NT_EPOCH_UNIX_OFFSET_NANOS;
    if nanos >= 0 {
        let n = nanos as u128;
        proof {
            lemma_fundamental_div_mod(n as int, 1_000_000_000);
        }
        (false, (n / 1_000_000_000) as u64, (n % 1_000_000_000) as u32)
    } else {
        let m = (-nanos) as u128;
        proof {
            lemma_fundamental_div_mod(m as int, 1_000_000_000);
        }
        (true, (m / 1_000_000_000) as u64, (m % 1_000_000_000) as u32)
    }
}

/// Ticks to calendar and back: a calendar time that denotes the instant
/// of a tick count converts back to exactly that tick count.
pub proof fn lemma_ticks_round_trip(ticks: u64, dt: DateTime, r: Result<FileTime, Error>)
    requires
        nt_nanos_of(dt) == ticks as int * 100,
        unix_nanos_outcome(unix_nanos_of(dt), r),
    ensures
        r matches Ok(ft) && ft@ == ticks,
{
    lemma_div_multiples_vanish(ticks as int, 100);
}

/// A calendar time earlier than the 1601 epoch converts to an
/// invalid-range error, never to a timestamp.
pub proof fn lemma_pre_epoch_rejected(nanos: int, r: Result<FileTime, Error>)
    requires
        nanos + (NT_EPOCH_UNIX_OFFSET_NANOS as int) < 0,
        unix_nanos_outcome(nanos, r),
    ensures
        r == Err::<FileTime, Error>(Error::InvalidFileTime),
{
}

} // verus!
