//! Instants and calendar dates as the hub reports them.
//!
//! An instant is kept as three integers: the seconds since the Unix epoch, the
//! nanoseconds within that second and the offset from UTC in seconds. Reading
//! and writing the RFC 3339 text of an instant is left to `chrono`.

use vstd::prelude::*;
use vstd::std_specs::cmp::PartialEqSpecImpl;
use crate::scalar::{digit_value, is_digit};

verus! {

/// The error `chrono` reports for a text it cannot read as a date or time.
#[verifier::external_type_specification]
#[verifier::external_body]
pub struct ExChronoParseError(chrono::ParseError);

/// How many digits of the fraction of a second are written.
#[derive(Clone, Copy, Debug, PartialEq, Eq, Structural)]
pub enum SecondsFormat {
    /// No fraction.
    Secs,
    /// Exactly three digits.
    Millis,
    /// Exactly six digits.
    Micros,
    /// Exactly nine digits.
    Nanos,
    /// None, three, six or nine digits: the fewest that lose nothing.
    AutoSi,
}

/// The farthest instant from the epoch, in seconds either way, that a
/// [`Timestamp`] holds. It lies about 256,000 years out, a little inside what
/// `chrono` can hold, so that the local time of every instant can be held too.
pub const MAX_SECONDS: i64 = 8_100_000_000_000;

/// The instant that `chrono` reads from an RFC 3339 text; `None` for a text
/// that it refuses.
pub uninterp spec fn rfc3339_parsed(text: Seq<char>) -> Option<Instant>;

/// The RFC 3339 text that `chrono` writes for an instant, with as many digits
/// of the fraction as lose nothing and a numeric offset.
pub uninterp spec fn rfc3339_text(secs: int, nanos: int, offset: int) -> Seq<char>;

/// The RFC 3339 text that `chrono` writes for an instant with a chosen number
/// of fraction digits, and with `Z` for a zero offset where `use_z` is set.
pub uninterp spec fn rfc3339_opts_text(
    secs: int,
    nanos: int,
    offset: int,
    format: SecondsFormat,
    use_z: bool,
) -> Seq<char>;

/// Whether three integers describe an instant that a [`Timestamp`] holds.
///
/// A nanosecond count of a billion or more stands for a leap second, and is
/// allowed only in the last second of a minute.
pub open spec fn instant_in_range(secs: int, nanos: int, offset: int) -> bool {
    &&& -MAX_SECONDS <= secs <= MAX_SECONDS
    &&& 0 <= nanos < 2_000_000_000
    &&& (nanos >= 1_000_000_000 ==> secs % 60 == 59)
    &&& -86_400 < offset < 86_400
}

/// An absolute instant together with the offset from UTC it was given in.
#[derive(Clone, Copy, Debug)]
pub struct Timestamp {
    secs: i64,
    nanos: u32,
    offset: i32,
}

/// A [`Timestamp`] as plain values.
pub struct Instant {
    pub secs: int,
    pub nanos: int,
    pub offset: int,
}

impl DeepView for Timestamp {
    type V = Instant;

    open spec fn deep_view(&self) -> Instant {
        Instant {
            secs: self.seconds(),
            nanos: self.subsec_nanos(),
            offset: self.offset_seconds(),
        }
    }
}

/// A calendar date without a time of day.
#[derive(Clone, Copy, Debug, PartialEq, Eq, Structural)]
pub struct PlainDate {
    pub year: i32,
    pub month: u32,
    pub day: u32,
}

impl DeepView for PlainDate {
    type V = PlainDate;

    open spec fn deep_view(&self) -> PlainDate {
        *self
    }
}

/// Trusted: `DateTime::parse_from_rfc3339` of `chrono`. What it read is handed
/// back as the three integers of a [`Timestamp`], which `timestamp`,
/// `timestamp_subsec_nanos` and `local_minus_utc` give. The contract names
/// what was read and claims that it lies in range: the parser takes years 0
/// to 9999, offsets of whole minutes within a day, and a sixtieth second,
/// which it holds as the fifty-ninth with a billion nanoseconds more.
#[verifier::external_body]
fn chrono_parse_rfc3339(text: &str) -> (r: Result<Timestamp, chrono::ParseError>)
    ensures
        match r {
            Ok(t) => rfc3339_parsed(text@) == Some(t.deep_view()) && instant_in_range(
                t.secs as int,
                t.nanos as int,
                t.offset as int,
            ),
            Err(_) => rfc3339_parsed(text@) is None,
        },
{
    match chrono::DateTime::parse_from_rfc3339(text) {
        Ok(at) => Ok(
            Timestamp {
                secs: at.timestamp(),
                nanos: at.timestamp_subsec_nanos(),
                offset: at.offset().local_minus_utc(),
            },
        ),
        Err(e) => Err(e),
    }
}

/// Trusted: `DateTime::to_rfc3339` of `chrono`, on the instant that the three
/// integers describe. The instant is made with `DateTime::from_timestamp`,
/// `FixedOffset::east_opt` and `with_timezone`, which take every instant in
/// range. The contract only names the text.
#[verifier::external_body]
fn chrono_to_rfc3339(secs: i64, nanos: u32, offset: i32) -> (r: String)
    requires
        instant_in_range(secs as int, nanos as int, offset as int),
    ensures
        r@ == rfc3339_text(secs as int, nanos as int, offset as int),
{
    let zone = chrono::FixedOffset::east_opt(offset).unwrap();
    chrono::DateTime::from_timestamp(secs, nanos).unwrap().with_timezone(&zone).to_rfc3339()
}

/// Trusted: `DateTime::to_rfc3339_opts` of `chrono`, on the instant that the
/// three integers describe, made as for `to_rfc3339`. It panics where the
/// local time cannot be held, which is no instant in range. The contract
/// only names the text.
#[verifier::external_body]
fn chrono_to_rfc3339_opts(
    secs: i64,
    nanos: u32,
    offset: i32,
    format: SecondsFormat,
    use_z: bool,
) -> (r: String)
    requires
        instant_in_range(secs as int, nanos as int, offset as int),
    ensures
        r@ == rfc3339_opts_text(secs as int, nanos as int, offset as int, format, use_z),
{
    let zone = chrono::FixedOffset::east_opt(offset).unwrap();
    let digits = match format {
        SecondsFormat::Secs => chrono::SecondsFormat::Secs,
        SecondsFormat::Millis => chrono::SecondsFormat::Millis,
        SecondsFormat::Micros => chrono::SecondsFormat::Micros,
        SecondsFormat::Nanos => chrono::SecondsFormat::Nanos,
        SecondsFormat::AutoSi => chrono::SecondsFormat::AutoSi,
    };
    chrono::DateTime::from_timestamp(secs, nanos).unwrap().with_timezone(&zone).to_rfc3339_opts(
        digits,
        use_z,
    )
}

/// Trusted: `NaiveDate::parse_from_str` of `chrono`, under the format
/// `%Y-%m-%d` and on a text of the shape `YYYY-MM-DD` only. What it read is
/// handed back as the year, month and day that `Datelike` gives. On such a
/// text `chrono` reads the three numbers as they stand, and refuses them
/// where the month is none of the twelve or the month has no such day in
/// that year.
#[verifier::external_body]
fn chrono_parse_date(text: &str, format: &str) -> (r: Result<PlainDate, chrono::ParseError>)
    requires
        is_date_shape(text@),
        format@ == DATE_FORMAT@,
    ensures
        match r {
            Ok(date) => plain_date(text@) == Some(date),
            Err(_) => plain_date(text@) is None,
        },
{
    match chrono::NaiveDate::parse_from_str(text, format) {
        Ok(date) => Ok(
            PlainDate {
                year: chrono::Datelike::year(&date),
                month: chrono::Datelike::month(&date),
                day: chrono::Datelike::day(&date),
            },
        ),
        Err(e) => Err(e),
    }
}

impl Timestamp {
    #[verifier::type_invariant]
    spec fn well_formed(self) -> bool {
        instant_in_range(self.secs as int, self.nanos as int, self.offset as int)
    }

    /// Seconds since the Unix epoch, leap seconds not counted.
    pub closed spec fn seconds(self) -> int {
        self.secs as int
    }

    /// Nanoseconds since the last full second; a billion or more in a leap second.
    pub closed spec fn subsec_nanos(self) -> int {
        self.nanos as int
    }

    /// Seconds that local time is ahead of UTC.
    pub closed spec fn offset_seconds(self) -> int {
        self.offset as int
    }

    /// The instant that three integers describe, if a `Timestamp` holds it.
    pub fn new(secs: i64, nanos: u32, offset: i32) -> (r: Option<Timestamp>)
        ensures
            match r {
                Some(t) => {
                    &&& instant_in_range(secs as int, nanos as int, offset as int)
                    &&& t.seconds() == secs
                    &&& t.subsec_nanos() == nanos
                    &&& t.offset_seconds() == offset
                },
                None => !instant_in_range(secs as int, nanos as int, offset as int),
            },
    {
        if secs < -MAX_SECONDS || secs > MAX_SECONDS {
            return None;
        }
        if offset <= -86_400 || offset >= 86_400 || nanos >= 2_000_000_000 {
            return None;
        }
        if nanos >= 1_000_000_000 {
            let shifted: u64 = (secs + MAX_SECONDS) as u64;
            if shifted % 60 != 59 {
                return None;
            }
        }
        Some(Timestamp { secs, nanos, offset })
    }

    /// Whether this is the Unix epoch, given in UTC.
    pub open spec fn is_epoch(self) -> bool {
        self.seconds() == 0 && self.subsec_nanos() == 0 && self.offset_seconds() == 0
    }

    /// Seconds since the Unix epoch.
    pub fn timestamp(&self) -> (r: i64)
        ensures
            r == self.seconds(),
    {
        self.secs
    }

    /// Nanoseconds since the last full second.
    pub fn timestamp_subsec_nanos(&self) -> (r: u32)
        ensures
            r == self.subsec_nanos(),
    {
        self.nanos
    }

    /// Seconds that local time is ahead of UTC.
    pub fn local_minus_utc(&self) -> (r: i32)
        ensures
            r == self.offset_seconds(),
    {
        self.offset
    }

    /// Reads an RFC 3339 text with an offset, such as
    /// `2016-12-29T11:22:33+02:00`. The offset that the text gives is kept.
    pub fn parse_from_rfc3339(text: &str) -> (r: Result<Timestamp, chrono::ParseError>)
        ensures
            match r {
                Ok(t) => rfc3339_parsed(text@) == Some(t.deep_view()),
                Err(_) => rfc3339_parsed(text@) is None,
            },
    {
        chrono_parse_rfc3339(text)
    }

    /// The RFC 3339 text of this instant in its own offset.
    pub fn to_rfc3339(&self) -> (r: String)
        ensures
            r@ == rfc3339_text(self.seconds(), self.subsec_nanos(), self.offset_seconds()),
    {
        proof {
            use_type_invariant(self);
        }
        chrono_to_rfc3339(self.secs, self.nanos, self.offset)
    }

    /// The RFC 3339 text of this instant with a chosen number of fraction
    /// digits; with `use_z`, a zero offset is written as `Z`.
    pub fn to_rfc3339_opts(&self, format: SecondsFormat, use_z: bool) -> (r: String)
        ensures
            r@ == rfc3339_opts_text(
                self.seconds(),
                self.subsec_nanos(),
                self.offset_seconds(),
                format,
                use_z,
            ),
    {
        proof {
            use_type_invariant(self);
        }
        chrono_to_rfc3339_opts(self.secs, self.nanos, self.offset, format, use_z)
    }
}

impl Default for Timestamp {
    /// The Unix epoch in UTC.
    fn default() -> (r: Timestamp)
        ensures
            r.is_epoch(),
    {
        Timestamp { secs: 0, nanos: 0, offset: 0 }
    }
}

/// Two timestamps are equal when they name the same instant, whatever offset
/// each was given in.
impl PartialEq for Timestamp {
    fn eq(&self, other: &Timestamp) -> (r: bool) {
        self.secs == other.secs && self.nanos == other.nanos
    }
}

impl Eq for Timestamp {

}

impl PartialEqSpecImpl for Timestamp {
    open spec fn obeys_eq_spec() -> bool {
        true
    }

    open spec fn eq_spec(&self, other: &Timestamp) -> bool {
        self.seconds() == other.seconds() && self.subsec_nanos() == other.subsec_nanos()
    }
}

/// The format of a plain date: four-digit year, month and day, with hyphens.
pub const DATE_FORMAT: &'static str = "%Y-%m-%d";

/// Whether a text has the shape of a plain date: four digits, a hyphen,
/// two digits, a hyphen and two digits, and nothing else.
pub open spec fn is_date_shape(text: Seq<char>) -> bool {
    &&& text.len() == 10
    &&& is_digit(text[0])
    &&& is_digit(text[1])
    &&& is_digit(text[2])
    &&& is_digit(text[3])
    &&& text[4] == '-'
    &&& is_digit(text[5])
    &&& is_digit(text[6])
    &&& text[7] == '-'
    &&& is_digit(text[8])
    &&& is_digit(text[9])
}

/// The number that two digits stand for.
pub open spec fn two_digits(tens: char, ones: char) -> int {
    digit_value(tens) * 10 + digit_value(ones)
}

/// Whether a year of the Gregorian calendar has a 29th of February.
pub open spec fn is_leap_year(year: int) -> bool {
    year % 4 == 0 && (year % 100 != 0 || year % 400 == 0)
}

/// How many days a month has in a year.
pub open spec fn days_in_month(year: int, month: int) -> int {
    if month == 2 {
        if is_leap_year(year) {
            29
        } else {
            28
        }
    } else if month == 4 || month == 6 || month == 9 || month == 11 {
        30
    } else {
        31
    }
}

/// The plain date that a text stands for: a text of the shape `YYYY-MM-DD`
/// stands for its year, month and day where there is such a day, and no
/// other text stands for any.
pub open spec fn plain_date(text: Seq<char>) -> Option<PlainDate> {
    let year = two_digits(text[0], text[1]) * 100 + two_digits(text[2], text[3]);
    let month = two_digits(text[5], text[6]);
    let day = two_digits(text[8], text[9]);
    if is_date_shape(text) && 1 <= month <= 12 && 1 <= day <= days_in_month(year, month) {
        Some(PlainDate { year: year as i32, month: month as u32, day: day as u32 })
    } else {
        None
    }
}

fn digit_at(text: &str, at: usize) -> (r: bool)
    requires
        text.is_ascii(),
        at < text@.len(),
    ensures
        r == is_digit(text@[at as int]),
{
    let b = text.get_ascii(at);
    48u8 <= b && b <= 57u8
}

fn hyphen_at(text: &str, at: usize) -> (r: bool)
    requires
        text.is_ascii(),
        at < text@.len(),
    ensures
        r == (text@[at as int] == '-'),
{
    text.get_ascii(at) == 45u8
}

fn has_date_shape(text: &str) -> (r: bool)
    ensures
        r == is_date_shape(text@),
{
    if !text.is_ascii() {
        proof {
            let s = text@;
            if s.len() == 10 {
                let i = choose|i: int| 0 <= i < s.len() && !('\0' <= #[trigger] s[i] <= '\u{7f}');
                assert(!is_digit(s[i]) && s[i] != '-');
            }
        }
        return false;
    }
    if text.unicode_len() != 10 {
        return false;
    }
    digit_at(text, 0) && digit_at(text, 1) && digit_at(text, 2) && digit_at(text, 3) && hyphen_at(
        text,
        4,
    ) && digit_at(text, 5) && digit_at(text, 6) && hyphen_at(text, 7) && digit_at(text, 8)
        && digit_at(text, 9)
}

impl PlainDate {
    /// Reads a date of the form `YYYY-MM-DD`: four digits for the year, two
    /// for the month and two for the day, which must name a day that there
    /// is in the Gregorian calendar. Every other text is refused.
    pub fn parse(text: &str) -> (r: Option<PlainDate>)
        ensures
            r == plain_date(text@),
    {
        if !has_date_shape(text) {
            return None;
        }
        match chrono_parse_date(text, DATE_FORMAT) {
            Ok(date) => Some(date),
            Err(_) => None,
        }
    }
}

} // verus!
