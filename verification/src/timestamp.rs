//! Points in time as the feeder reads them: a count of seconds since the start of 1970 in UTC,
//! together with the offset of the zone in which the wall clock is read.

use crate::weekday::Weekday;
use vstd::arithmetic::div_mod::*;
use vstd::prelude::*;

verus! {

/// Seconds in a day.
pub const SECONDS_PER_DAY: i64 = 86_400;

/// Wall-clock seconds, counted from 1970-01-01T00:00:00, of 0000-01-01T00:00:00.
pub const MIN_LOCAL_SECONDS: i64 = -62_167_219_200;

/// Wall-clock seconds, counted from 1970-01-01T00:00:00, of 9999-12-31T23:59:59.
pub const MAX_LOCAL_SECONDS: i64 = 253_402_300_799;

/// Nanoseconds in a second.
pub const NANOS_PER_SECOND: u32 = 1_000_000_000;

/// Days from 0000-01-01 to 1970-01-01.
pub const DAYS_BEFORE_EPOCH: i64 = 719_528;

/// The mathematical content of a [`Timestamp`].
pub struct Instant {
    /// Seconds since 1970-01-01T00:00:00 UTC, leap seconds not counted.
    pub seconds: int,
    /// Nanoseconds since the last whole second.
    pub nanos: int,
    /// Seconds that the zone's wall clock is ahead of UTC.
    pub offset: int,
}

impl Instant {
    /// Seconds on the zone's wall clock since 1970-01-01T00:00:00 on that clock.
    pub open spec fn local_seconds(self) -> int {
        self.seconds + self.offset
    }

    /// Whole days on the zone's wall clock since 1970-01-01.
    pub open spec fn local_day(self) -> int {
        self.local_seconds() / 86_400
    }

    /// Seconds since midnight on the zone's wall clock.
    pub open spec fn second_of_day(self) -> int {
        self.local_seconds() % 86_400
    }

    /// Hour of the day on the zone's wall clock, 0 to 23.
    pub open spec fn hour(self) -> int {
        self.second_of_day() / 3600
    }

    /// Minute of the hour on the zone's wall clock, 0 to 59.
    pub open spec fn minute(self) -> int {
        (self.second_of_day() % 3600) / 60
    }

    /// Second of the minute on the zone's wall clock, 0 to 59.
    pub open spec fn second(self) -> int {
        self.second_of_day() % 60
    }

    /// Day of the week on the zone's wall clock. 1970-01-01 was a Thursday.
    pub open spec fn weekday(self) -> Weekday {
        Weekday::at(self.local_day() + 3)
    }

    /// Whether the wall-clock year lies in 0 to 9999, the offset is less than a day either way
    /// and the nanoseconds stay below a second.
    pub open spec fn in_range(self) -> bool {
        &&& 0 <= self.nanos < NANOS_PER_SECOND
        &&& -SECONDS_PER_DAY < self.offset < SECONDS_PER_DAY
        &&& MIN_LOCAL_SECONDS <= self.local_seconds() <= MAX_LOCAL_SECONDS
    }

    /// The RFC 3339 text that is written for the point in time.
    pub open spec fn rfc3339(self) -> Seq<char> {
        rfc3339_text(self.seconds, self.nanos, self.offset)
    }

    /// What the written text of the point in time is read as, if it is read at all and as a
    /// time in range.
    pub open spec fn read_back(self) -> Option<Instant> {
        instant_of_text(self.rfc3339())
    }
}

/// The point in time with these UTC seconds, nanoseconds and offset.
pub open spec fn instant(seconds: int, nanos: int, offset: int) -> Instant {
    Instant { seconds, nanos, offset }
}

/// The text that chrono's `DateTime::to_rfc3339` gives for the date-time with these UTC seconds
/// and nanoseconds in the zone with this offset.
pub uninterp spec fn rfc3339_text(seconds: int, nanos: int, offset: int) -> Seq<char>;

/// What chrono's `FromStr` for `DateTime<FixedOffset>` reads from a text: the UTC seconds,
/// the nanoseconds and the offset of the date-time, or nothing where it rejects the text.
pub uninterp spec fn rfc3339_instant(text: Seq<char>) -> Option<(i64, u32, i32)>;

/// The point in time that three numbers stand for, if they are in range.
pub open spec fn instant_of_parts(parts: Option<(i64, u32, i32)>) -> Option<Instant> {
    match parts {
        Some((seconds, nanos, offset)) => {
            let read = instant(seconds as int, nanos as int, offset as int);
            if read.in_range() {
                Some(read)
            } else {
                None
            }
        },
        None => None,
    }
}

/// The point in time that a text is read as, if it is read at all and lies in range.
pub open spec fn instant_of_text(text: Seq<char>) -> Option<Instant> {
    instant_of_parts(rfc3339_instant(text))
}

/// The content of a timestamp that may be missing.
pub open spec fn instant_of(timestamp: Option<Timestamp>) -> Option<Instant> {
    match timestamp {
        Some(t) => Some(t@),
        None => None,
    }
}

/// Calls chrono's `FixedOffset::east_opt`, `DateTime::from_timestamp`, `DateTime::with_timezone`
/// and `DateTime::to_rfc3339`. Trusted: for numbers in range chrono makes the date-time, and
/// the text is the one that `to_rfc3339` gives for it, which depends on the three numbers alone.
#[verifier::external_body]
fn write_rfc3339(seconds: i64, nanos: u32, offset: i32) -> (text: Option<String>)
    ensures
        instant(seconds as int, nanos as int, offset as int).in_range() ==> text is Some,
        text matches Some(t) ==> t@ == rfc3339_text(seconds as int, nanos as int, offset as int),
{
    let zone = chrono::FixedOffset::east_opt(offset)?;
    let utc = chrono::DateTime::from_timestamp(seconds, nanos)?;
    Some(utc.with_timezone(&zone).to_rfc3339())
}

/// Calls chrono's `FromStr` for `DateTime<FixedOffset>`, then `DateTime::timestamp`,
/// `DateTime::timestamp_subsec_nanos` and `FixedOffset::local_minus_utc`. Trusted: what is read
/// depends on the text alone. Nothing is claimed about which texts are read, nor as what.
#[verifier::external_body]
fn read_rfc3339(text: &str) -> (parts: Option<(i64, u32, i32)>)
    ensures
        parts == rfc3339_instant(text@),
{
    let read = text.parse::<chrono::DateTime<chrono::FixedOffset>>().ok()?;
    Some((read.timestamp(), read.timestamp_subsec_nanos(), read.offset().local_minus_utc()))
}

/// A point in time with the offset of the zone it is read in. Every value is in range.
#[derive(Clone, Copy, Debug)]
pub struct Timestamp {
    seconds: i64,
    nanos: u32,
    offset: i32,
}

impl View for Timestamp {
    type V = Instant;

    closed spec fn view(&self) -> Instant {
        instant(self.seconds as int, self.nanos as int, self.offset as int)
    }
}

impl Timestamp {
    #[verifier::type_invariant]
    closed spec fn inv(self) -> bool {
        self@.in_range()
    }

    /// Makes a timestamp from UTC seconds, nanoseconds and the zone's offset in seconds,
    /// if the three are in range.
    pub fn new(seconds: i64, nanos: u32, offset: i32) -> (made: Option<Timestamp>)
        ensures
            made is Some <==> instant(seconds as int, nanos as int, offset as int).in_range(),
            made matches Some(t) ==> t@ == instant(seconds as int, nanos as int, offset as int),
    {
        if nanos >= NANOS_PER_SECOND {
            return None;
        }
        if offset <= -86_400 || offset >= 86_400 {
            return None;
        }
        let wide: i128 = seconds as i128 + offset as i128;
        if wide < MIN_LOCAL_SECONDS as i128 || wide > MAX_LOCAL_SECONDS as i128 {
            return None;
        }
        Some(Timestamp { seconds, nanos, offset })
    }

    /// Makes the timestamp at which a wall clock with the given offset shows the given time
    /// of day on 1970-01-01, if the fields are those of a time of day and an offset.
    pub fn at_epoch_day(hour: u32, minute: u32, second: u32, offset: i32) -> (made: Option<
        Timestamp,
    >)
        ensures
            made is Some <==> hour < 24 && minute < 60 && second < 60 && -SECONDS_PER_DAY < offset
                < SECONDS_PER_DAY,
            made matches Some(t) ==> {
                &&& t@.seconds == hour * 3600 + minute * 60 + second - offset
                &&& t@.nanos == 0
                &&& t@.offset == offset
                &&& t@.hour() == hour
                &&& t@.minute() == minute
                &&& t@.second() == second
                &&& t@.weekday() == Weekday::Thu
            },
    {
        if hour >= 24 || minute >= 60 || second >= 60 {
            return None;
        }
        if offset <= -86_400 || offset >= 86_400 {
            return None;
        }
        let local: i64 = (hour as i64) * 3600 + (minute as i64) * 60 + second as i64;
        let made = Timestamp { seconds: local - offset as i64, nanos: 0, offset };
        proof {
            lemma_time_of_day(local as int, hour as int, minute as int, second as int);
        }
        Some(made)
    }

    /// Makes a timestamp from what was read from a text, if anything was read and it is in
    /// range.
    pub fn from_parts(parts: Option<(i64, u32, i32)>) -> (made: Option<Timestamp>)
        ensures
            instant_of(made) == instant_of_parts(parts),
    {
        match parts {
            Some((seconds, nanos, offset)) => Timestamp::new(seconds, nanos, offset),
            None => None,
        }
    }

    /// Reads a timestamp from its RFC 3339 text. The timestamp keeps the offset that the text
    /// names. A text that is not read, or that names a time out of range, gives nothing.
    pub fn parse_rfc3339(text: &str) -> (made: Option<Timestamp>)
        ensures
            instant_of(made) == instant_of_text(text@),
    {
        Timestamp::from_parts(read_rfc3339(text))
    }

    /// The RFC 3339 text of the timestamp: date and time on the zone's wall clock, then the
    /// offset.
    pub fn to_rfc3339(&self) -> (text: String)
        ensures
            text@ == self@.rfc3339(),
    {
        proof {
            use_type_invariant(self);
        }
        write_rfc3339(self.seconds, self.nanos, self.offset).unwrap()
    }

    /// Seconds since 1970-01-01T00:00:00 UTC.
    pub fn seconds(&self) -> (s: i64)
        ensures
            s == self@.seconds,
            self@.in_range(),
    {
        proof {
            use_type_invariant(self);
        }
        self.seconds
    }

    /// Nanoseconds since the last whole second.
    pub fn nanos(&self) -> (n: u32)
        ensures
            n == self@.nanos,
            self@.in_range(),
    {
        proof {
            use_type_invariant(self);
        }
        self.nanos
    }

    /// Seconds that the zone's wall clock is ahead of UTC.
    pub fn offset(&self) -> (o: i32)
        ensures
            o == self@.offset,
            self@.in_range(),
    {
        proof {
            use_type_invariant(self);
        }
        self.offset
    }

    /// Wall-clock seconds since 0000-01-01T00:00:00, which are never negative.
    fn seconds_since_year_zero(&self) -> (s: u64)
        ensures
            s == self@.local_seconds() - MIN_LOCAL_SECONDS,
            s / 86_400 == self@.local_day() + DAYS_BEFORE_EPOCH,
            s % 86_400 == self@.second_of_day(),
    {
        proof {
            use_type_invariant(self);
        }
        let shifted: i64 = self.seconds + self.offset as i64 - MIN_LOCAL_SECONDS;
        proof {
            let local = self@.local_seconds();
            assert(shifted == local + 719_528 * 86_400);
            lemma_fundamental_div_mod(local, 86_400);
            lemma_fundamental_div_mod_converse(
                shifted as int,
                86_400,
                local / 86_400 + 719_528,
                local % 86_400,
            );
        }
        shifted as u64
    }

    /// Hour of the day on the zone's wall clock.
    pub fn hour(&self) -> (h: u32)
        ensures
            h == self@.hour(),
            h < 24,
    {
        let of_day: u64 = self.seconds_since_year_zero() % 86_400;
        (of_day / 3600) as u32
    }

    /// Minute of the hour on the zone's wall clock.
    pub fn minute(&self) -> (m: u32)
        ensures
            m == self@.minute(),
            m < 60,
    {
        let of_day: u64 = self.seconds_since_year_zero() % 86_400;
        ((of_day % 3600) / 60) as u32
    }

    /// Second of the minute on the zone's wall clock.
    pub fn second(&self) -> (s: u32)
        ensures
            s == self@.second(),
            s < 60,
    {
        let of_day: u64 = self.seconds_since_year_zero() % 86_400;
        (of_day % 60) as u32
    }

    /// Day of the week on the zone's wall clock.
    pub fn weekday(&self) -> (day: Weekday)
        ensures
            day == self@.weekday(),
    {
        let days: u64 = self.seconds_since_year_zero() / 86_400;
        proof {
            // 719_528 days are 102_789 weeks and 5 days, so the shifted count runs 2 days behind.
            let d = self@.local_day();
            assert((d + 719_528 + 5) % 7 == (d + 3) % 7) by {
                lemma_mod_multiples_vanish(102_790, d + 3, 7);
            }
        }
        Weekday::from_position(days + 5)
    }
}

/// A count of seconds below a day splits into the hour, minute and second it was made of.
pub proof fn lemma_time_of_day(local: int, hour: int, minute: int, second: int)
    requires
        0 <= hour < 24,
        0 <= minute < 60,
        0 <= second < 60,
        local == hour * 3600 + minute * 60 + second,
    ensures
        local / 86_400 == 0,
        local % 86_400 == local,
        local / 3600 == hour,
        (local % 3600) / 60 == minute,
        local % 60 == second,
{
    lemma_fundamental_div_mod_converse(local, 86_400, 0, local);
    lemma_fundamental_div_mod_converse(local, 3600, hour, minute * 60 + second);
    lemma_fundamental_div_mod_converse(minute * 60 + second, 60, minute, second);
    lemma_fundamental_div_mod_converse(local, 60, hour * 60 + minute, second);
}

} // verus!
