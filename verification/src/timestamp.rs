//! Creation times and their storage text.
//!
//! A creation time is a civil date and time of day in UTC, to the whole
//! second. In the store it is written as `YYYY-MM-DDTHH:MM:SS`: nineteen
//! characters, every field padded with zeros, no zone suffix.

use vstd::prelude::*;
use chrono::Datelike;
use chrono::Timelike;
use crate::error::ServiceError;

verus! {

/// A civil date and time of day: the mathematical model of a creation time.
pub struct CivilTime {
    pub year: int,
    pub month: int,
    pub day: int,
    pub hour: int,
    pub minute: int,
    pub second: int,
}

/// Whether `year` has a 29th of February in the proleptic Gregorian
/// calendar.
pub open spec fn is_leap_year(year: int) -> bool {
    year % 4 == 0 && (year % 100 != 0 || year % 400 == 0)
}

/// The number of days of `month` in `year`.
pub open spec fn days_in_month(year: int, month: int) -> int {
    if month == 2 {
        if is_leap_year(year) { 29 } else { 28 }
    } else if month == 4 || month == 6 || month == 9 || month == 11 {
        30
    } else {
        31
    }
}

impl CivilTime {
    /// Whether the fields name a moment that the storage format can write:
    /// a year of four digits, a day that the month has, and a time of day in
    /// which the second may be 60, a leap second.
    pub open spec fn is_valid(self) -> bool {
        &&& 0 <= self.year <= 9999
        &&& 1 <= self.month <= 12
        &&& 1 <= self.day <= days_in_month(self.year, self.month)
        &&& 0 <= self.hour <= 23
        &&& 0 <= self.minute <= 59
        &&& 0 <= self.second <= 60
    }
}

/// The decimal digit that stands for `d`, for `d` below ten.
pub open spec fn digit_char(d: int) -> char {
    if d == 0 { '0' }
    else if d == 1 { '1' }
    else if d == 2 { '2' }
    else if d == 3 { '3' }
    else if d == 4 { '4' }
    else if d == 5 { '5' }
    else if d == 6 { '6' }
    else if d == 7 { '7' }
    else if d == 8 { '8' }
    else { '9' }
}

/// What a decimal digit stands for; `None` for any other character.
pub open spec fn digit_value(c: char) -> Option<int> {
    match c {
        '0' => Some(0),
        '1' => Some(1),
        '2' => Some(2),
        '3' => Some(3),
        '4' => Some(4),
        '5' => Some(5),
        '6' => Some(6),
        '7' => Some(7),
        '8' => Some(8),
        '9' => Some(9),
        _ => None,
    }
}

/// The tens digit of `n`, for `n` below a hundred.
pub open spec fn tens(n: int) -> char {
    digit_char(n / 10)
}

/// The units digit of `n`.
pub open spec fn units(n: int) -> char {
    digit_char(n % 10)
}

/// The storage text of a civil time.
pub open spec fn storage_text(t: CivilTime) -> Seq<char> {
    seq![
        tens(t.year / 100), units(t.year / 100), tens(t.year % 100), units(t.year % 100), '-',
        tens(t.month), units(t.month), '-',
        tens(t.day), units(t.day), 'T',
        tens(t.hour), units(t.hour), ':',
        tens(t.minute), units(t.minute), ':',
        tens(t.second), units(t.second),
    ]
}

/// The character that the storage format fixes at position `i`, if any.
pub open spec fn separator_at(i: int) -> Option<char> {
    if i == 4 || i == 7 {
        Some('-')
    } else if i == 10 {
        Some('T')
    } else if i == 13 || i == 16 {
        Some(':')
    } else {
        None
    }
}

/// Whether `s` has the shape of a storage text: nineteen characters, the
/// separators in their places and a decimal digit everywhere else.
pub open spec fn has_storage_shape(s: Seq<char>) -> bool {
    &&& s.len() == 19
    &&& forall|i: int|
        0 <= i < 19 ==> match separator_at(i) {
            Some(c) => s[i] == c,
            None => digit_value(#[trigger] s[i]) is Some,
        }
}

/// The number that the two digits of `s` from position `i` write.
pub open spec fn two_digit_number(s: Seq<char>, i: int) -> int {
    digit_value(s[i]).unwrap() * 10 + digit_value(s[i + 1]).unwrap()
}

/// The number that the four digits of `s` from position `i` write.
pub open spec fn four_digit_number(s: Seq<char>, i: int) -> int {
    two_digit_number(s, i) * 100 + two_digit_number(s, i + 2)
}

/// The fields that a text of storage shape writes.
pub open spec fn text_fields(s: Seq<char>) -> CivilTime {
    CivilTime {
        year: four_digit_number(s, 0),
        month: two_digit_number(s, 5),
        day: two_digit_number(s, 8),
        hour: two_digit_number(s, 11),
        minute: two_digit_number(s, 14),
        second: two_digit_number(s, 17),
    }
}

/// Whether `s` is the storage text of a moment: it has the shape, and its
/// fields name a real date and time of day.
pub open spec fn is_storage_text(s: Seq<char>) -> bool {
    has_storage_shape(s) && text_fields(s).is_valid()
}

/// A number below a hundred is what its two digits write.
proof fn lemma_two_digits(n: int)
    requires
        0 <= n < 100,
    ensures
        digit_value(tens(n)) is Some,
        digit_value(units(n)) is Some,
        digit_value(tens(n)).unwrap() * 10 + digit_value(units(n)).unwrap() == n,
{
}

/// Reading the storage text of a moment gives the moment back: the text is
/// a storage text, and its fields are the moment's.
pub proof fn lemma_storage_text_round_trip(t: CivilTime)
    requires
        t.is_valid(),
    ensures
        is_storage_text(storage_text(t)),
        text_fields(storage_text(t)) == t,
{
    let s = storage_text(t);
    lemma_two_digits(t.year / 100);
    lemma_two_digits(t.year % 100);
    lemma_two_digits(t.month);
    lemma_two_digits(t.day);
    lemma_two_digits(t.hour);
    lemma_two_digits(t.minute);
    lemma_two_digits(t.second);
}

/// A date and time of day as the `chrono` crate hands it out field by
/// field. A leap second is second 59 with a nanosecond part of a thousand
/// million or more.
#[derive(Debug, Clone, Copy, PartialEq, Eq, Structural)]
pub struct NaiveParts {
    pub year: i32,
    pub month: u32,
    pub day: u32,
    pub hour: u32,
    pub minute: u32,
    pub second: u32,
    pub nanosecond: u32,
}

impl NaiveParts {
    /// The civil time that the parts stand for, to the whole second: the
    /// fraction of a second is dropped and a leap second becomes second 60.
    pub open spec fn civil(self) -> CivilTime {
        CivilTime {
            year: self.year as int,
            month: self.month as int,
            day: self.day as int,
            hour: self.hour as int,
            minute: self.minute as int,
            second: self.second + self.nanosecond / 1_000_000_000,
        }
    }

    /// Whether the parts name a real date and time of day with a year of
    /// four digits.
    pub open spec fn is_valid(self) -> bool {
        &&& 0 <= self.year <= 9999
        &&& 1 <= self.month <= 12
        &&& 1 <= self.day <= days_in_month(self.year as int, self.month as int)
        &&& self.hour <= 23
        &&& self.minute <= 59
        &&& self.second <= 59
        &&& self.nanosecond < 2_000_000_000
        &&& self.nanosecond >= 1_000_000_000 ==> self.second == 59
    }
}

/// The parts of a civil time that has no fraction of a second.
pub open spec fn whole_second_parts(t: CivilTime) -> NaiveParts {
    NaiveParts {
        year: t.year as i32,
        month: t.month as u32,
        day: t.day as u32,
        hour: t.hour as u32,
        minute: t.minute as u32,
        second: if t.second == 60 { 59u32 } else { t.second as u32 },
        nanosecond: if t.second == 60 { 1_000_000_000u32 } else { 0u32 },
    }
}

/// The error type of `chrono`'s parser.
#[verifier::external_type_specification]
#[verifier::external_body]
pub struct ExParseError(chrono::format::ParseError);

/// Calls `chrono::Utc::now` and takes the reading apart.
///
/// Trusted: nothing is claimed of the reading, which depends on the clock.
/// The call panics only where the clock stands before 1970.
#[verifier::external_body]
fn chrono_now() -> (parts: NaiveParts) {
    let t = chrono::Utc::now().naive_utc();
    NaiveParts {
        year: t.year(),
        month: t.month(),
        day: t.day(),
        hour: t.hour(),
        minute: t.minute(),
        second: t.second(),
        nanosecond: t.nanosecond(),
    }
}

/// Builds a `chrono::NaiveDateTime` from the parts and calls its `format`
/// with the pattern `%Y-%m-%dT%H:%M:%S`.
///
/// Trusted: valid parts are accepted, and the text is the storage text of
/// the civil time they stand for. `None` is what `chrono` answers to parts
/// that name no date or no time of day.
#[verifier::external_body]
fn chrono_format(parts: &NaiveParts) -> (text: Option<String>)
    ensures
        parts.is_valid() ==> text is Some && text->Some_0@ == storage_text(parts.civil()),
{
    let date = chrono::NaiveDate::from_ymd_opt(parts.year, parts.month, parts.day)?;
    let t = date.and_hms_nano_opt(parts.hour, parts.minute, parts.second, parts.nanosecond)?;
    Some(t.format("%Y-%m-%dT%H:%M:%S").to_string())
}

/// Calls `chrono::NaiveDateTime::parse_from_str` with the pattern
/// `%Y-%m-%dT%H:%M:%S` and takes the result apart.
///
/// Trusted, and only of a text of storage shape: where `chrono` accepts it,
/// the parts are those that its digits write, and it is accepted where
/// they name a real date and time of day. Nothing is claimed of any other
/// text; `chrono` also reads fields of fewer digits, signs and leading
/// blanks.
#[verifier::external_body]
fn chrono_parse(s: &str) -> (parsed: Result<NaiveParts, chrono::format::ParseError>)
    ensures
        has_storage_shape(s@) && parsed is Ok ==> parsed->Ok_0 == whole_second_parts(
            text_fields(s@),
        ),
        is_storage_text(s@) ==> parsed is Ok,
{
    match chrono::NaiveDateTime::parse_from_str(s, "%Y-%m-%dT%H:%M:%S") {
        Ok(t) => Ok(
            NaiveParts {
                year: t.year(),
                month: t.month(),
                day: t.day(),
                hour: t.hour(),
                minute: t.minute(),
                second: t.second(),
                nanosecond: t.nanosecond(),
            },
        ),
        Err(e) => Err(e),
    }
}

/// The creation time of a todo item: a valid civil time in UTC.
#[derive(Debug, Clone, Copy, PartialEq, Eq, Structural)]
pub struct Timestamp {
    year: u16,
    month: u8,
    day: u8,
    hour: u8,
    minute: u8,
    second: u8,
}

impl View for Timestamp {
    type V = CivilTime;

    closed spec fn view(&self) -> CivilTime {
        CivilTime {
            year: self.year as int,
            month: self.month as int,
            day: self.day as int,
            hour: self.hour as int,
            minute: self.minute as int,
            second: self.second as int,
        }
    }
}

/// Computes [`days_in_month`].
fn days_in(year: i32, month: u32) -> (days: u32)
    requires
        1 <= month <= 12,
    ensures
        days == days_in_month(year as int, month as int),
{
    if month == 2 {
        if year % 4 == 0 && (year % 100 != 0 || year % 400 == 0) {
            29
        } else {
            28
        }
    } else if month == 4 || month == 6 || month == 9 || month == 11 {
        30
    } else {
        31
    }
}

impl Timestamp {
    /// Every `Timestamp` is a valid civil time.
    #[verifier::type_invariant]
    pub open spec fn well_formed(self) -> bool {
        self@.is_valid()
    }

    /// What reading the text `s` yields: the moment that `s` writes, or
    /// `MalformedRecord` where `s` is not a storage text.
    pub open spec fn spec_parse_from_str(s: Seq<char>) -> Result<CivilTime, ServiceError> {
        if is_storage_text(s) {
            Ok(text_fields(s))
        } else {
            Err(ServiceError::MalformedRecord)
        }
    }

    /// The moment with the given fields. There is one exactly where the
    /// fields are valid; a `second` of 60 is a leap second.
    pub fn new(year: u16, month: u8, day: u8, hour: u8, minute: u8, second: u8) -> (made: Option<
        Timestamp,
    >)
        ensures
            made is Some <==> (CivilTime {
                year: year as int,
                month: month as int,
                day: day as int,
                hour: hour as int,
                minute: minute as int,
                second: second as int,
            }).is_valid(),
            made is Some ==> made->Some_0@ == (CivilTime {
                year: year as int,
                month: month as int,
                day: day as int,
                hour: hour as int,
                minute: minute as int,
                second: second as int,
            }),
    {
        if year > 9999 || month < 1 || month > 12 || hour > 23 || minute > 59 || second > 60 {
            return None;
        }
        if day < 1 || day as u32 > days_in(year as i32, month as u32) {
            return None;
        }
        Some(Timestamp { year, month, day, hour, minute, second })
    }

    /// The moment that the parts stand for, to the whole second. There is
    /// one exactly where the parts are valid.
    pub fn from_parts(parts: &NaiveParts) -> (made: Option<Timestamp>)
        ensures
            made is Some <==> parts.is_valid(),
            made is Some ==> made->Some_0@ == parts.civil(),
            made is Some ==> made->Some_0@.is_valid(),
    {
        if parts.year < 0 || parts.year > 9999 || parts.month < 1 || parts.month > 12 {
            return None;
        }
        if parts.day < 1 || parts.day > days_in(parts.year, parts.month) {
            return None;
        }
        if parts.hour > 23 || parts.minute > 59 || parts.second > 59 {
            return None;
        }
        if parts.nanosecond >= 2_000_000_000 || (parts.nanosecond >= 1_000_000_000 && parts.second
            != 59) {
            return None;
        }
        let leap: u32 = parts.nanosecond / 1_000_000_000;
        Some(
            Timestamp {
                year: parts.year as u16,
                month: parts.month as u8,
                day: parts.day as u8,
                hour: parts.hour as u8,
                minute: parts.minute as u8,
                second: (parts.second + leap) as u8,
            },
        )
    }

    /// The parts of this moment, as `chrono` takes them.
    pub fn to_parts(&self) -> (parts: NaiveParts)
        ensures
            parts == whole_second_parts(self@),
            parts.is_valid(),
            parts.civil() == self@,
    {
        proof {
            use_type_invariant(self);
        }
        let leap = self.second == 60;
        NaiveParts {
            year: self.year as i32,
            month: self.month as u32,
            day: self.day as u32,
            hour: self.hour as u32,
            minute: self.minute as u32,
            second: if leap { 59 } else { self.second as u32 },
            nanosecond: if leap { 1_000_000_000 } else { 0 },
        }
    }

    /// The present moment in UTC, cut to the whole second. `None` where the
    /// clock reads a moment that the storage format cannot write.
    pub fn now() -> (read: Option<Timestamp>)
        ensures
            read is Some ==> read->Some_0@.is_valid(),
    {
        let parts = chrono_now();
        Timestamp::from_parts(&parts)
    }

    /// The storage text of this moment.
    pub fn format(&self) -> (text: String)
        ensures
            text@ == storage_text(self@),
    {
        let parts = self.to_parts();
        match chrono_format(&parts) {
            Some(text) => text,
            // Cannot be: the parts of a moment are valid.
            None => String::new(),
        }
    }

    /// Decides whether `s` has the shape of a storage text.
    pub fn has_shape(s: &str) -> (yes: bool)
        ensures
            yes == has_storage_shape(s@),
    {
        if s.unicode_len() != 19 {
            return false;
        }
        let mut i: usize = 0;
        while i < 19
            invariant
                i <= 19,
                s@.len() == 19,
                forall|j: int|
                    0 <= j < i ==> match separator_at(j) {
                        Some(c) => s@[j] == c,
                        None => digit_value(#[trigger] s@[j]) is Some,
                    },
            decreases 19 - i,
        {
            let c = s.get_char(i);
            let fits = if i == 4 || i == 7 {
                c == '-'
            } else if i == 10 {
                c == 'T'
            } else if i == 13 || i == 16 {
                c == ':'
            } else {
                is_digit(c)
            };
            if !fits {
                return false;
            }
            i += 1;
        }
        true
    }

    /// Reads a moment from its storage text. A text of any other shape, or
    /// one whose fields name no real date and time of day, is a malformed
    /// record.
    pub fn parse_from_str(s: &str) -> (parsed: Result<Timestamp, ServiceError>)
        ensures
            match parsed {
                Ok(t) => Self::spec_parse_from_str(s@) == Ok::<CivilTime, ServiceError>(t@),
                Err(e) => Self::spec_parse_from_str(s@) == Err::<CivilTime, ServiceError>(e),
            },
    {
        if !Self::has_shape(s) {
            return Err(ServiceError::MalformedRecord);
        }
        match chrono_parse(s) {
            Ok(parts) => match Timestamp::from_parts(&parts) {
                Some(t) => Ok(t),
                None => Err(ServiceError::MalformedRecord),
            },
            Err(_) => Err(ServiceError::MalformedRecord),
        }
    }
}

/// Writing a moment as storage text and reading the text back gives the
/// same moment, to the whole second.
pub proof fn lemma_timestamp_round_trip(t: CivilTime)
    requires
        t.is_valid(),
    ensures
        Timestamp::spec_parse_from_str(storage_text(t)) == Ok::<CivilTime, ServiceError>(t),
{
    lemma_storage_text_round_trip(t);
}

/// Whether `c` is a decimal digit.
fn is_digit(c: char) -> (yes: bool)
    ensures
        yes == (digit_value(c) is Some),
{
    match c {
        '0' | '1' | '2' | '3' | '4' | '5' | '6' | '7' | '8' | '9' => true,
        _ => false,
    }
}

} // verus!
