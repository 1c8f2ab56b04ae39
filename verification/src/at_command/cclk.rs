//! Date-time arguments of responses, and the clock query.
//!
//! Each date-time format is a list of [FormatItem]s that
//! [parse_items] reads into [DateFields], with the same scanning rules as
//! `chrono::format::parse_and_remainder`. Turning the fields into a
//! `chrono::DateTime` (calendar validity, offsets, timestamps) is left to
//! chrono itself.
use vstd::prelude::*;
use chrono::format::{ParseError, ParseErrorKind, Parsed};
use chrono::{DateTime, FixedOffset, Utc};
use embassy_time::{Duration, Instant};
use super::{AtParseErr, AtParseLine, AtRequest, GenericOk, RequestType};
use crate::numeral::{all_ascii_digits, lemma_ascii_utf8_len};
use crate::out::{
    decimal, digit_char, lemma_decimal_padded_reads_back, lemma_decimal_reads_back, lemma_digit_char,
    pow10, signed_decimal,
};
use crate::text::{
    chars_of, digit_value, digits_value, find_char, find_char_exec, fits_in_bytes, is_number_char,
    lemma_find_char, lemma_find_non_number, lemma_split_first_piece, parse_signed,
    parse_signed_exec, split_once, split_once_exec, split_once_non_number,
    split_once_non_number_exec, split_number_prefix, split_number_prefix_exec, string_from_chars,
    strip_circumfix, strip_circumfix_exec,
    strip_prefix, strip_prefix_exec, trim, trim_exec, trim_start, trim_start_exec, utf8_len,
};

verus! {


#[verifier::external_type_specification]
#[verifier::external_body]
pub struct ExFixedOffset(FixedOffset);

#[verifier::external_type_specification]
#[verifier::external_body]
pub struct ExUtc(Utc);

#[verifier::external_type_specification]
#[verifier::external_body]
pub struct ExParseError(ParseError);

/// A UTC date-time read from a response: a `chrono::DateTime<Utc>`.
///
/// Verus cannot declare `chrono::DateTime` itself (its `TimeZone` bound is
/// refused), so the value is held here, opaque to the proofs.
#[verifier::external_body]
#[derive(PartialEq, Eq, Debug)]
pub struct UtcDateTime(pub DateTime<Utc>);

impl Clone for UtcDateTime {
    /// A copy of the date-time (`DateTime<Utc>` is `Copy`).
    #[verifier::external_body]
    fn clone(&self) -> (r: Self)
        ensures
            r == *self,
    {
        *self
    }
}

impl Copy for UtcDateTime {

}

/// A local date-time with its offset, read from a response: a
/// `chrono::DateTime<FixedOffset>`, held as [UtcDateTime] is.
#[verifier::external_body]
#[derive(PartialEq, Eq, Debug)]
pub struct LocalDateTime(pub DateTime<FixedOffset>);

impl Clone for LocalDateTime {
    /// A copy of the date-time (`DateTime<FixedOffset>` is `Copy`).
    #[verifier::external_body]
    fn clone(&self) -> (r: Self)
        ensures
            r == *self,
    {
        *self
    }
}

impl Copy for LocalDateTime {

}

/// A time zone offset, with its daylight-saving part in quarter hours.
pub type LocalTimeOffset = (FixedOffset, u8);

/// The offset with its daylight-saving part replaced by the one reported.
pub fn set_dst(tz_offset: LocalTimeOffset, dst_quarter_hours: u8) -> (r: LocalTimeOffset)
    ensures
        r == (tz_offset.0, dst_quarter_hours),
{
    (tz_offset.0, dst_quarter_hours)
}

/// AT+CCLK
#[derive(Debug)]
pub struct GetTime;

impl GetTime {
    pub fn new() -> (t: Self)
        ensures
            t == GetTime,
    {
        Self
    }
}

impl AtRequest for GetTime {
    type Response = (CclkTime, GenericOk);

    open spec fn spec_encode(&self) -> Seq<char> {
        "AT+CCLK?\r"@
    }

    open spec fn spec_request_type() -> RequestType {
        RequestType::NonCommand
    }

    fn request_type() -> (t: RequestType) {
        RequestType::NonCommand
    }

    fn encode(&self) -> (s: String) {
        let mut s = String::new();
        s.append("AT+CCLK?\r");
        s
    }

    fn default_timeout() -> (t: Option<Duration>) {
        None
    }
}

/// The kinds of `chrono::format::ParseErrorKind`.
#[derive(Clone, Copy, Debug, PartialEq, Eq)]
pub enum DateErrorKind {
    OutOfRange,
    Impossible,
    NotEnough,
    Invalid,
    TooShort,
    TooLong,
    BadFormat,
    /// Any kind that chrono may add.
    Other,
}

/// The fields of a date-time that a format has filled so far, as
/// `chrono::format::Parsed` keeps them.
#[derive(Clone, Copy, Debug, PartialEq, Eq)]
pub struct DateFields {
    pub year: Option<i32>,
    pub month: Option<u32>,
    pub day: Option<u32>,
    pub hour_div_12: Option<u32>,
    pub hour_mod_12: Option<u32>,
    pub minute: Option<u32>,
    pub second: Option<u32>,
    pub nanosecond: Option<u32>,
    pub timestamp: Option<i64>,
    pub offset: Option<i32>,
}

pub open spec fn no_fields() -> DateFields {
    DateFields {
        year: None,
        month: None,
        day: None,
        hour_div_12: None,
        hour_mod_12: None,
        minute: None,
        second: None,
        nanosecond: None,
        timestamp: None,
        offset: None,
    }
}

pub fn new_fields() -> (f: DateFields)
    ensures
        f == no_fields(),
{
    DateFields {
        year: None,
        month: None,
        day: None,
        hour_div_12: None,
        hour_mod_12: None,
        minute: None,
        second: None,
        nanosecond: None,
        timestamp: None,
        offset: None,
    }
}

/// The fields a numeric format item fills.
#[derive(Clone, Copy, Debug, PartialEq, Eq)]
pub enum DateField {
    Year,
    Month,
    Day,
    Hour,
    Minute,
    Second,
    Nanosecond,
    Timestamp,
    Offset,
}

/// A field is set once; setting it again to another value is impossible.
pub open spec fn set_once<T>(old: Option<T>, new: T) -> Result<Option<T>, DateErrorKind> {
    match old {
        Some(o) => if o == new {
            Ok(Some(new))
        } else {
            Err(DateErrorKind::Impossible)
        },
        None => Ok(Some(new)),
    }
}

/// The `set_*` methods of `chrono::format::Parsed`: a range check per field,
/// then [set_once].
pub open spec fn spec_set_field(f: DateFields, field: DateField, v: i64) -> Result<
    DateFields,
    DateErrorKind,
> {
    match field {
        DateField::Year => if i32::MIN <= v <= i32::MAX {
            match set_once(f.year, v as i32) {
                Ok(x) => Ok(DateFields { year: x, ..f }),
                Err(e) => Err(e),
            }
        } else {
            Err(DateErrorKind::OutOfRange)
        },
        DateField::Month => if 1 <= v <= 12 {
            match set_once(f.month, v as u32) {
                Ok(x) => Ok(DateFields { month: x, ..f }),
                Err(e) => Err(e),
            }
        } else {
            Err(DateErrorKind::OutOfRange)
        },
        DateField::Day => if 1 <= v <= 31 {
            match set_once(f.day, v as u32) {
                Ok(x) => Ok(DateFields { day: x, ..f }),
                Err(e) => Err(e),
            }
        } else {
            Err(DateErrorKind::OutOfRange)
        },
        DateField::Hour => if 0 <= v <= 23 {
            match set_once(f.hour_div_12, (v / 12) as u32) {
                Ok(d) => match set_once(f.hour_mod_12, (v % 12) as u32) {
                    Ok(m) => Ok(DateFields { hour_div_12: d, hour_mod_12: m, ..f }),
                    Err(e) => Err(e),
                },
                Err(e) => Err(e),
            }
        } else {
            Err(DateErrorKind::OutOfRange)
        },
        DateField::Minute => if 0 <= v <= 59 {
            match set_once(f.minute, v as u32) {
                Ok(x) => Ok(DateFields { minute: x, ..f }),
                Err(e) => Err(e),
            }
        } else {
            Err(DateErrorKind::OutOfRange)
        },
        DateField::Second => if 0 <= v <= 60 {
            match set_once(f.second, v as u32) {
                Ok(x) => Ok(DateFields { second: x, ..f }),
                Err(e) => Err(e),
            }
        } else {
            Err(DateErrorKind::OutOfRange)
        },
        DateField::Nanosecond => if 0 <= v <= 999_999_999 {
            match set_once(f.nanosecond, v as u32) {
                Ok(x) => Ok(DateFields { nanosecond: x, ..f }),
                Err(e) => Err(e),
            }
        } else {
            Err(DateErrorKind::OutOfRange)
        },
        DateField::Timestamp => match set_once(f.timestamp, v) {
            Ok(x) => Ok(DateFields { timestamp: x, ..f }),
            Err(e) => Err(e),
        },
        DateField::Offset => if i32::MIN <= v <= i32::MAX {
            match set_once(f.offset, v as i32) {
                Ok(x) => Ok(DateFields { offset: x, ..f }),
                Err(e) => Err(e),
            }
        } else {
            Err(DateErrorKind::OutOfRange)
        },
    }
}

fn set_once_u32(old: Option<u32>, new: u32) -> (r: Result<Option<u32>, DateErrorKind>)
    ensures
        r == set_once(old, new),
{
    match old {
        Some(o) => if o == new {
            Ok(Some(new))
        } else {
            Err(DateErrorKind::Impossible)
        },
        None => Ok(Some(new)),
    }
}

fn set_once_i32(old: Option<i32>, new: i32) -> (r: Result<Option<i32>, DateErrorKind>)
    ensures
        r == set_once(old, new),
{
    match old {
        Some(o) => if o == new {
            Ok(Some(new))
        } else {
            Err(DateErrorKind::Impossible)
        },
        None => Ok(Some(new)),
    }
}

fn set_once_i64(old: Option<i64>, new: i64) -> (r: Result<Option<i64>, DateErrorKind>)
    ensures
        r == set_once(old, new),
{
    match old {
        Some(o) => if o == new {
            Ok(Some(new))
        } else {
            Err(DateErrorKind::Impossible)
        },
        None => Ok(Some(new)),
    }
}

/// Sets one field, as the `set_*` methods of `chrono::format::Parsed` do.
pub fn set_field(f: DateFields, field: DateField, v: i64) -> (r: Result<DateFields, DateErrorKind>)
    ensures
        r == spec_set_field(f, field, v),
{
    match field {
        DateField::Year => if i32::MIN as i64 <= v && v <= i32::MAX as i64 {
            let x = set_once_i32(f.year, v as i32)?;
            Ok(DateFields { year: x, ..f })
        } else {
            Err(DateErrorKind::OutOfRange)
        },
        DateField::Month => if 1 <= v && v <= 12 {
            let x = set_once_u32(f.month, v as u32)?;
            Ok(DateFields { month: x, ..f })
        } else {
            Err(DateErrorKind::OutOfRange)
        },
        DateField::Day => if 1 <= v && v <= 31 {
            let x = set_once_u32(f.day, v as u32)?;
            Ok(DateFields { day: x, ..f })
        } else {
            Err(DateErrorKind::OutOfRange)
        },
        DateField::Hour => if 0 <= v && v <= 23 {
            let d = set_once_u32(f.hour_div_12, (v / 12) as u32)?;
            let m = set_once_u32(f.hour_mod_12, (v % 12) as u32)?;
            Ok(DateFields { hour_div_12: d, hour_mod_12: m, ..f })
        } else {
            Err(DateErrorKind::OutOfRange)
        },
        DateField::Minute => if 0 <= v && v <= 59 {
            let x = set_once_u32(f.minute, v as u32)?;
            Ok(DateFields { minute: x, ..f })
        } else {
            Err(DateErrorKind::OutOfRange)
        },
        DateField::Second => if 0 <= v && v <= 60 {
            let x = set_once_u32(f.second, v as u32)?;
            Ok(DateFields { second: x, ..f })
        } else {
            Err(DateErrorKind::OutOfRange)
        },
        DateField::Nanosecond => if 0 <= v && v <= 999_999_999 {
            let x = set_once_u32(f.nanosecond, v as u32)?;
            Ok(DateFields { nanosecond: x, ..f })
        } else {
            Err(DateErrorKind::OutOfRange)
        },
        DateField::Timestamp => {
            let x = set_once_i64(f.timestamp, v)?;
            Ok(DateFields { timestamp: x, ..f })
        },
        DateField::Offset => if i32::MIN as i64 <= v && v <= i32::MAX as i64 {
            let x = set_once_i32(f.offset, v as i32)?;
            Ok(DateFields { offset: x, ..f })
        } else {
            Err(DateErrorKind::OutOfRange)
        },
    }
}

/// One item of a date-time format.
#[derive(Clone, Copy, Debug, PartialEq, Eq)]
pub enum FormatItem {
    /// This exact character.
    Literal(char),
    /// Any amount of whitespace.
    Space,
    /// A number for a field (leading whitespace allowed); the year may be
    /// signed, the other fields take at most two digits.
    Numeric(DateField),
    /// Optionally `.` and exactly three digits of fractional seconds.
    Nanosecond3,
}

pub open spec fn is_ascii_digit(c: char) -> bool {
    '0' <= c && c <= '9'
}

/// The number of leading ASCII digits of `s`, counting at most `max`.
pub open spec fn leading_digits(s: Seq<char>, max: nat) -> nat
    decreases max,
{
    if max == 0 || s.len() == 0 || !is_ascii_digit(s[0]) {
        0
    } else {
        1 + leading_digits(s.drop_first(), (max - 1) as nat)
    }
}

/// `scan::number(s, 1, max)` of chrono: at least one digit, at most `max`.
pub open spec fn scan_number(s: Seq<char>, max: nat) -> Result<(Seq<char>, i64), DateErrorKind> {
    if s.len() == 0 {
        Err(DateErrorKind::TooShort)
    } else {
        let k = leading_digits(s, max);
        if k == 0 {
            Err(DateErrorKind::Invalid)
        } else {
            let v = digits_value(s.subrange(0, k as int), 10);
            if v > i64::MAX {
                Err(DateErrorKind::OutOfRange)
            } else {
                Ok((s.subrange(k as int, s.len() as int), v as i64))
            }
        }
    }
}

/// The value of a numeric item and what follows it.
pub open spec fn scan_numeric(s: Seq<char>, field: DateField) -> Result<
    (Seq<char>, i64),
    DateErrorKind,
> {
    let s = trim_start(s);
    if field == DateField::Year && s.len() > 0 && s[0] == '-' {
        match scan_number(s.drop_first(), s.len()) {
            Ok((rest, v)) => Ok((rest, (-v) as i64)),
            Err(e) => Err(e),
        }
    } else if field == DateField::Year && s.len() > 0 && s[0] == '+' {
        scan_number(s.drop_first(), s.len())
    } else if field == DateField::Year {
        scan_number(s, 4)
    } else {
        scan_number(s, 2)
    }
}

/// Reading one format item: the fields after it, and what follows it or
/// why it could not be read.
pub open spec fn spec_parse_item(s: Seq<char>, item: FormatItem, f: DateFields) -> (
    DateFields,
    Result<Seq<char>, DateErrorKind>,
) {
    match item {
        FormatItem::Literal(c) => if s.len() == 0 {
            (f, Err(DateErrorKind::TooShort))
        } else if s[0] != c {
            (f, Err(DateErrorKind::Invalid))
        } else {
            (f, Ok(s.drop_first()))
        },
        FormatItem::Space => (f, Ok(trim_start(s))),
        FormatItem::Numeric(field) => match scan_numeric(s, field) {
            Err(e) => (f, Err(e)),
            Ok((rest, v)) => match spec_set_field(f, field, v) {
                Ok(f2) => (f2, Ok(rest)),
                Err(e) => (f, Err(e)),
            },
        },
        FormatItem::Nanosecond3 => if s.len() > 0 && s[0] == '.' {
            let t = s.drop_first();
            if utf8_len(t) < 3 {
                (f, Err(DateErrorKind::TooShort))
            } else if leading_digits(t, 3) < 3 {
                (f, Err(DateErrorKind::Invalid))
            } else {
                let v = digits_value(t.subrange(0, 3), 10) * 1_000_000;
                match spec_set_field(f, DateField::Nanosecond, v as i64) {
                    Ok(f2) => (f2, Ok(t.subrange(3, t.len() as int))),
                    Err(e) => (f, Err(e)),
                }
            }
        } else {
            (f, Ok(s))
        },
    }
}

/// Reading a format: the fields filled, and what follows the format or
/// why it could not be read (the fields read before the error are kept).
pub open spec fn spec_parse_items(s: Seq<char>, items: Seq<FormatItem>, f: DateFields) -> (
    DateFields,
    Result<Seq<char>, DateErrorKind>,
)
    decreases items.len(),
{
    if items.len() == 0 {
        (f, Ok(s))
    } else {
        match spec_parse_item(s, items[0], f) {
            (f2, Ok(rest)) => spec_parse_items(rest, items.drop_first(), f2),
            (f2, Err(e)) => (f2, Err(e)),
        }
    }
}

proof fn lemma_leading_digits(s: Seq<char>, max: nat, i: nat)
    requires
        i <= max,
        i <= s.len(),
        forall|j: int| 0 <= j < i ==> is_ascii_digit(s[j]),
    ensures
        i == max || i == s.len() || !is_ascii_digit(s[i as int]) ==> leading_digits(s, max) == i,
        leading_digits(s, max) >= i,
    decreases i,
{
    if i > 0 {
        lemma_leading_digits(s.drop_first(), (max - 1) as nat, (i - 1) as nat);
    }
}

proof fn lemma_leading_digits_bound(s: Seq<char>, max: nat)
    ensures
        leading_digits(s, max) <= max,
        leading_digits(s, max) <= s.len(),
        forall|j: int| 0 <= j < leading_digits(s, max) ==> is_ascii_digit(s[j]),
    decreases max,
{
    if !(max == 0 || s.len() == 0 || !is_ascii_digit(s[0])) {
        lemma_leading_digits_bound(s.drop_first(), (max - 1) as nat);
        assert forall|j: int| 0 < j < leading_digits(s, max) implies is_ascii_digit(s[j]) by {
            assert(s[j] == s.drop_first()[j - 1]);
        }
    }
}

proof fn lemma_digits_prefix_value(s: Seq<char>, i: int)
    requires
        0 <= i < s.len(),
        is_ascii_digit(s[i]),
    ensures
        digits_value(s.subrange(0, i + 1), 10) == digits_value(s.subrange(0, i), 10) * 10 + (
        s[i] as int - '0' as int),
{
    assert(s.subrange(0, i + 1).drop_last() =~= s.subrange(0, i));
}

proof fn lemma_digits_value_grows(s: Seq<char>, i: int, k: int)
    requires
        0 <= i <= k <= s.len(),
        forall|j: int| 0 <= j < k ==> is_ascii_digit(s[j]),
    ensures
        digits_value(s.subrange(0, k), 10) >= digits_value(s.subrange(0, i), 10),
    decreases k - i,
{
    if i < k {
        lemma_digits_prefix_value(s, k - 1);
        lemma_digits_value_grows(s, i, k - 1);
    }
}

/// `scan::number(s, 1, max)`.
fn scan_number_exec(s: &[char], max: usize) -> (r: Result<(&[char], i64), DateErrorKind>)
    ensures
        match r {
            Ok((rest, v)) => scan_number(s@, max as nat) == Ok::<(Seq<char>, i64), DateErrorKind>(
                (rest@, v),
            ),
            Err(e) => scan_number(s@, max as nat) == Err::<(Seq<char>, i64), DateErrorKind>(e),
        },
{
    if s.len() == 0 {
        return Err(DateErrorKind::TooShort);
    }
    let mut i: usize = 0;
    let mut n: i64 = 0;
    while i < max && i < s.len() && '0' <= s[i] && s[i] <= '9'
        invariant
            i <= max,
            i <= s@.len(),
            forall|j: int| 0 <= j < i ==> is_ascii_digit(s@[j]),
            n == digits_value(s@.subrange(0, i as int), 10),
        decreases s@.len() - i,
    {
        proof {
            lemma_digits_prefix_value(s@, i as int);
        }
        let d = (s[i] as i64) - ('0' as i64);
        if n > (i64::MAX - d) / 10 {
            proof {
                lemma_leading_digits(s@, max as nat, (i + 1) as nat);
                lemma_leading_digits_bound(s@, max as nat);
                lemma_digits_value_grows(s@, i + 1, leading_digits(s@, max as nat) as int);
                assert(n * 10 + d > i64::MAX) by (nonlinear_arith)
                    requires
                        n > (i64::MAX - d) / 10,
                        0 <= d <= 9,
                ;
            }
            return Err(DateErrorKind::OutOfRange);
        }
        assert(n * 10 + d <= i64::MAX) by (nonlinear_arith)
            requires
                n <= (i64::MAX - d) / 10,
                0 <= d <= 9,
                n >= 0,
        ;
        n = n * 10 + d;
        i = i + 1;
    }
    proof {
        lemma_leading_digits(s@, max as nat, i as nat);
    }
    if i == 0 {
        return Err(DateErrorKind::Invalid);
    }
    Ok((vstd::slice::slice_subrange(s, i, s.len()), n))
}

fn scan_numeric_exec(s: &[char], field: DateField) -> (r: Result<(&[char], i64), DateErrorKind>)
    ensures
        match r {
            Ok((rest, v)) => scan_numeric(s@, field) == Ok::<(Seq<char>, i64), DateErrorKind>(
                (rest@, v),
            ),
            Err(e) => scan_numeric(s@, field) == Err::<(Seq<char>, i64), DateErrorKind>(e),
        },
{
    let s = trim_start_exec(s);
    let is_year = match field {
        DateField::Year => true,
        _ => false,
    };
    if is_year && s.len() > 0 && s[0] == '-' {
        let t = vstd::slice::slice_subrange(s, 1, s.len());
        assert(t@ == s@.drop_first());
        match scan_number_exec(t, s.len()) {
            Ok((rest, v)) => Ok((rest, 0 - v)),
            Err(e) => Err(e),
        }
    } else if is_year && s.len() > 0 && s[0] == '+' {
        let t = vstd::slice::slice_subrange(s, 1, s.len());
        assert(t@ == s@.drop_first());
        scan_number_exec(t, s.len())
    } else if is_year {
        scan_number_exec(s, 4)
    } else {
        scan_number_exec(s, 2)
    }
}

/// Reads one format item (see [spec_parse_item]).
pub fn parse_item<'a>(s: &'a [char], item: FormatItem, f: DateFields) -> (r: (
    DateFields,
    Result<&'a [char], DateErrorKind>,
))
    ensures
        r.0 == spec_parse_item(s@, item, f).0,
        match r.1 {
            Ok(rest) => spec_parse_item(s@, item, f).1 == Ok::<Seq<char>, DateErrorKind>(rest@),
            Err(e) => spec_parse_item(s@, item, f).1 == Err::<Seq<char>, DateErrorKind>(e),
        },
{
    match item {
        FormatItem::Literal(c) => if s.len() == 0 {
            (f, Err(DateErrorKind::TooShort))
        } else if s[0] != c {
            (f, Err(DateErrorKind::Invalid))
        } else {
            let t = vstd::slice::slice_subrange(s, 1, s.len());
            assert(t@ == s@.drop_first());
            (f, Ok(t))
        },
        FormatItem::Space => (f, Ok(trim_start_exec(s))),
        FormatItem::Numeric(field) => match scan_numeric_exec(s, field) {
            Err(e) => (f, Err(e)),
            Ok((rest, v)) => match set_field(f, field, v) {
                Ok(f2) => (f2, Ok(rest)),
                Err(e) => (f, Err(e)),
            },
        },
        FormatItem::Nanosecond3 => if s.len() > 0 && s[0] == '.' {
            let t = vstd::slice::slice_subrange(s, 1, s.len());
            assert(t@ == s@.drop_first());
            if fits_in_bytes(t, 2) {
                return (f, Err(DateErrorKind::TooShort));
            }
            proof {
                assert(utf8_len(t@) >= 3);
                assert(t@.len() >= 1);
            }
            if t.len() < 3 || !('0' <= t[0] && t[0] <= '9') || !('0' <= t[1] && t[1] <= '9') || !(
            '0' <= t[2] && t[2] <= '9') {
                proof {
                    lemma_leading_digits_bound(t@, 3);
                }
                return (f, Err(DateErrorKind::Invalid));
            }
            proof {
                lemma_leading_digits(t@, 3, 3);
                lemma_digits_prefix_value(t@, 0);
                lemma_digits_prefix_value(t@, 1);
                lemma_digits_prefix_value(t@, 2);
                assert(t@.subrange(0, 0) =~= Seq::<char>::empty());
            }
            let v = ((t[0] as i64) - ('0' as i64)) * 100 + ((t[1] as i64) - ('0' as i64)) * 10 + ((
            t[2] as i64) - ('0' as i64));
            match set_field(f, DateField::Nanosecond, v * 1_000_000) {
                Ok(f2) => (f2, Ok(vstd::slice::slice_subrange(t, 3, t.len()))),
                Err(e) => (f, Err(e)),
            }
        } else {
            (f, Ok(s))
        },
    }
}

/// Reads a format (see [spec_parse_items]).
pub fn parse_items<'a>(s: &'a [char], items: &Vec<FormatItem>, f: DateFields) -> (r: (
    DateFields,
    Result<&'a [char], DateErrorKind>,
))
    ensures
        r.0 == spec_parse_items(s@, items@, f).0,
        match r.1 {
            Ok(rest) => spec_parse_items(s@, items@, f).1 == Ok::<Seq<char>, DateErrorKind>(
                rest@,
            ),
            Err(e) => spec_parse_items(s@, items@, f).1 == Err::<Seq<char>, DateErrorKind>(e),
        },
{
    let mut cur = s;
    let mut fields = f;
    let mut i: usize = 0;
    assert(items@.subrange(0, items@.len() as int) =~= items@);
    while i < items.len()
        invariant
            i <= items@.len(),
            spec_parse_items(s@, items@, f) == spec_parse_items(
                cur@,
                items@.subrange(i as int, items@.len() as int),
                fields,
            ),
        decreases items@.len() - i,
    {
        let ghost tail = items@.subrange(i as int, items@.len() as int);
        assert(tail.drop_first() =~= items@.subrange(i + 1, items@.len() as int));
        assert(tail[0] == items@[i as int]);
        let (f2, r) = parse_item(cur, items[i], fields);
        match r {
            Ok(rest) => {
                cur = rest;
                fields = f2;
            },
            Err(e) => {
                return (f2, Err(e));
            },
        }
        i = i + 1;
    }
    assert(items@.subrange(i as int, items@.len() as int) =~= Seq::<FormatItem>::empty());
    (fields, Ok(cur))
}

/// The `chrono::DateTime<FixedOffset>` that `Parsed::to_datetime` makes of
/// the fields (or its error).
pub uninterp spec fn parsed_to_datetime(f: DateFields) -> Result<LocalDateTime, ParseError>;

/// The `chrono::DateTime<Utc>` that `Parsed::to_datetime_with_timezone(&Utc)`
/// makes of the fields (or its error).
pub uninterp spec fn parsed_to_utc_datetime(f: DateFields) -> Result<UtcDateTime, ParseError>;

/// What `chrono::DateTime::to_utc` makes of a local date-time: the same
/// instant, without the offset.
pub uninterp spec fn datetime_to_utc(d: LocalDateTime) -> UtcDateTime;

/// The `FixedOffset` that `FixedOffset::east_opt` makes of a number of
/// seconds east of UTC.
pub uninterp spec fn fixed_offset_east(secs: i32) -> FixedOffset;

/// The kind of a chrono parse error (`ParseError::kind`).
pub uninterp spec fn parse_error_kind(e: ParseError) -> DateErrorKind;

/// The smallest timestamp chrono represents: `-262143-01-01T00:00:00` UTC.
pub open spec fn chrono_min_timestamp() -> int {
    -8_334_601_315_200
}

/// Fields that chrono cannot resolve without panicking: a leap second (60)
/// with a timestamp that, moved by `offset`, is chrono's smallest one. The
/// resolution then steps one second back from the smallest date-time.
pub open spec fn leap_second_at_minimum(f: DateFields, offset: int) -> bool {
    &&& f.second == Some(60u32)
    &&& f.timestamp is Some
    &&& f.timestamp->0 + offset == chrono_min_timestamp()
}

/// The offset that `Parsed::to_datetime` resolves a timestamp with.
pub open spec fn assumed_offset(f: DateFields) -> int {
    match f.offset {
        Some(o) => o as int,
        None => 0,
    }
}

/// Calls `chrono::format::Parsed::to_datetime` on a `Parsed` holding the
/// given fields (the remaining fields of `Parsed` empty). Which date-times
/// are valid, and how fields, offset and timestamp combine, is chrono's:
/// the result is given by name only. The `requires` leaves out the one
/// combination on which chrono panics (a leap second at its smallest
/// timestamp).
#[verifier::external_body]
fn resolve_local(f: &DateFields) -> (r: Result<LocalDateTime, ParseError>)
    requires
        !leap_second_at_minimum(*f, assumed_offset(*f)),
    ensures
        r == parsed_to_datetime(*f),
{
    let mut p = Parsed::new();
    p.year = f.year;
    p.month = f.month;
    p.day = f.day;
    p.hour_div_12 = f.hour_div_12;
    p.hour_mod_12 = f.hour_mod_12;
    p.minute = f.minute;
    p.second = f.second;
    p.nanosecond = f.nanosecond;
    p.timestamp = f.timestamp;
    p.offset = f.offset;
    p.to_datetime().map(LocalDateTime)
}

/// Calls `chrono::format::Parsed::to_datetime_with_timezone(&Utc)` on a
/// `Parsed` holding the given fields. As for [resolve_local], the result is
/// given by name only. The `requires` leaves out the combination on which
/// chrono panics, as for [resolve_local] (the offset guessed for UTC is 0).
#[verifier::external_body]
fn resolve_utc(f: &DateFields) -> (r: Result<UtcDateTime, ParseError>)
    requires
        !leap_second_at_minimum(*f, 0),
    ensures
        r == parsed_to_utc_datetime(*f),
{
    let mut p = Parsed::new();
    p.year = f.year;
    p.month = f.month;
    p.day = f.day;
    p.hour_div_12 = f.hour_div_12;
    p.hour_mod_12 = f.hour_mod_12;
    p.minute = f.minute;
    p.second = f.second;
    p.nanosecond = f.nanosecond;
    p.timestamp = f.timestamp;
    p.offset = f.offset;
    p.to_datetime_with_timezone(&Utc).map(UtcDateTime)
}

/// Whether the fields are the combination that chrono cannot resolve.
fn at_minimum(f: &DateFields, offset: i32) -> (b: bool)
    ensures
        b == leap_second_at_minimum(*f, offset as int),
{
    match (f.second, f.timestamp) {
        (Some(60), Some(t)) => (t as i128) + (offset as i128) == -8_334_601_315_200i128,
        _ => false,
    }
}

/// Resolving fields into a local date-time: chrono's result, except that
/// a leap second at chrono's smallest timestamp is out of range.
pub open spec fn spec_resolve_local(f: DateFields) -> Result<LocalDateTime, AtParseErr> {
    if leap_second_at_minimum(f, assumed_offset(f)) {
        Err(spec_date_error(DateErrorKind::OutOfRange))
    } else {
        match parsed_to_datetime(f) {
            Ok(d) => Ok(d),
            Err(e) => Err(spec_map_chrono_err(e)),
        }
    }
}

fn checked_resolve_local(f: &DateFields) -> (r: Result<LocalDateTime, AtParseErr>)
    ensures
        r == spec_resolve_local(*f),
{
    let offset: i32 = match f.offset {
        Some(o) => o,
        None => 0,
    };
    if at_minimum(f, offset) {
        return Err(date_error(DateErrorKind::OutOfRange));
    }
    match resolve_local(f) {
        Ok(d) => Ok(d),
        Err(e) => Err(map_chrono_err(e)),
    }
}

/// Resolving fields into a UTC date-time, as [spec_resolve_local].
pub open spec fn spec_resolve_utc(f: DateFields) -> Result<UtcDateTime, AtParseErr> {
    if leap_second_at_minimum(f, 0) {
        Err(spec_date_error(DateErrorKind::OutOfRange))
    } else {
        match parsed_to_utc_datetime(f) {
            Ok(d) => Ok(d),
            Err(e) => Err(spec_map_chrono_err(e)),
        }
    }
}

fn checked_resolve_utc(f: &DateFields) -> (r: Result<UtcDateTime, AtParseErr>)
    ensures
        r == spec_resolve_utc(*f),
{
    if at_minimum(f, 0) {
        return Err(date_error(DateErrorKind::OutOfRange));
    }
    match resolve_utc(f) {
        Ok(d) => Ok(d),
        Err(e) => Err(map_chrono_err(e)),
    }
}

/// Calls `chrono::DateTime::to_utc`; the result is given by name.
#[verifier::external_body]
pub(crate) fn to_utc(d: &LocalDateTime) -> (r: UtcDateTime)
    ensures
        r == datetime_to_utc(*d),
{
    UtcDateTime(d.0.to_utc())
}

/// Calls `chrono::FixedOffset::east_opt`, which gives an offset exactly
/// when `-86_400 < secs < 86_400`; the offset itself is given by name.
#[verifier::external_body]
fn east_opt(secs: i32) -> (r: Option<FixedOffset>)
    ensures
        r == (if -86_400 < secs < 86_400 {
            Some(fixed_offset_east(secs))
        } else {
            None
        }),
{
    FixedOffset::east_opt(secs)
}

/// Calls `chrono::format::ParseError::kind`, naming each kind.
#[verifier::external_body]
fn error_kind(e: &ParseError) -> (k: DateErrorKind)
    ensures
        k == parse_error_kind(*e),
{
    match e.kind() {
        ParseErrorKind::OutOfRange => DateErrorKind::OutOfRange,
        ParseErrorKind::Impossible => DateErrorKind::Impossible,
        ParseErrorKind::NotEnough => DateErrorKind::NotEnough,
        ParseErrorKind::Invalid => DateErrorKind::Invalid,
        ParseErrorKind::TooShort => DateErrorKind::TooShort,
        ParseErrorKind::TooLong => DateErrorKind::TooLong,
        ParseErrorKind::BadFormat => DateErrorKind::BadFormat,
        _ => DateErrorKind::Other,
    }
}

/// The message reported for each kind of date error.
pub open spec fn spec_date_error(k: DateErrorKind) -> AtParseErr {
    match k {
        DateErrorKind::OutOfRange => AtParseErr::Parsing("A date or time field is out of range"),
        DateErrorKind::Impossible => AtParseErr::Parsing(
            "Date and time fields represent an impossible date",
        ),
        DateErrorKind::NotEnough => AtParseErr::Parsing("Not enough data to parse a date"),
        DateErrorKind::Invalid => AtParseErr::Parsing("Invalid characters"),
        DateErrorKind::TooShort => AtParseErr::Parsing("Too few fields"),
        DateErrorKind::TooLong => AtParseErr::Parsing("Too many fields"),
        DateErrorKind::BadFormat => AtParseErr::Parsing("Bad date format"),
        DateErrorKind::Other => AtParseErr::Parsing("Unknown error while parsing date"),
    }
}

pub fn date_error(k: DateErrorKind) -> (e: AtParseErr)
    ensures
        e == spec_date_error(k),
{
    match k {
        DateErrorKind::OutOfRange => AtParseErr::Parsing("A date or time field is out of range"),
        DateErrorKind::Impossible => AtParseErr::Parsing(
            "Date and time fields represent an impossible date",
        ),
        DateErrorKind::NotEnough => AtParseErr::Parsing("Not enough data to parse a date"),
        DateErrorKind::Invalid => AtParseErr::Parsing("Invalid characters"),
        DateErrorKind::TooShort => AtParseErr::Parsing("Too few fields"),
        DateErrorKind::TooLong => AtParseErr::Parsing("Too many fields"),
        DateErrorKind::BadFormat => AtParseErr::Parsing("Bad date format"),
        DateErrorKind::Other => AtParseErr::Parsing("Unknown error while parsing date"),
    }
}

/// The message for a chrono parse error.
pub open spec fn spec_map_chrono_err(e: ParseError) -> AtParseErr {
    spec_date_error(parse_error_kind(e))
}

pub fn map_chrono_err(e: ParseError) -> (r: AtParseErr)
    ensures
        r == spec_map_chrono_err(e),
{
    date_error(error_kind(&e))
}

/// `80/01/06,00:37:28` as returned from +CCLK (a time zone may follow).
pub open spec fn cclk_items() -> Seq<FormatItem> {
    seq![
        FormatItem::Numeric(DateField::Year),
        FormatItem::Literal('/'),
        FormatItem::Numeric(DateField::Month),
        FormatItem::Literal('/'),
        FormatItem::Numeric(DateField::Day),
        FormatItem::Literal(','),
        FormatItem::Numeric(DateField::Hour),
        FormatItem::Literal(':'),
        FormatItem::Numeric(DateField::Minute),
        FormatItem::Literal(':'),
        FormatItem::Numeric(DateField::Second),
    ]
}

fn cclk_items_exec() -> (v: Vec<FormatItem>)
    ensures
        v@ == cclk_items(),
{
    let v = vec![
        FormatItem::Numeric(DateField::Year),
        FormatItem::Literal('/'),
        FormatItem::Numeric(DateField::Month),
        FormatItem::Literal('/'),
        FormatItem::Numeric(DateField::Day),
        FormatItem::Literal(','),
        FormatItem::Numeric(DateField::Hour),
        FormatItem::Literal(':'),
        FormatItem::Numeric(DateField::Minute),
        FormatItem::Literal(':'),
        FormatItem::Numeric(DateField::Second),
    ];
    assert(v@ =~= cclk_items());
    v
}

/// `i64::saturating_mul`
pub open spec fn saturating_mul(a: int, b: int) -> i64 {
    if a * b > i64::MAX {
        i64::MAX
    } else if a * b < i64::MIN {
        i64::MIN
    } else {
        (a * b) as i64
    }
}

/// The time zone right after a CCLK date-time: a signed number of quarter
/// hours, running to the end of the text or to a character that cannot
/// belong to it (which is consumed with it).
pub open spec fn spec_cclk_zone(remain: Seq<char>) -> Option<(i64, Seq<char>)> {
    if remain.len() > 0 && (remain[0] == '+' || remain[0] == '-') {
        let (tzoff, rest) = split_number_prefix(remain);
        match parse_signed(tzoff, 10, i64::MIN as int, i64::MAX as int) {
            Some(q) => Some((q as i64, rest)),
            None => None,
        }
    } else {
        None
    }
}

/// A CCLK date-time and what follows it. With a readable time zone the
/// offset is `15 * 60 * quarters` seconds; otherwise the offset is 0 and
/// nothing after the seconds is consumed.
pub open spec fn spec_cclk_local(s: Seq<char>) -> Result<(LocalDateTime, Seq<char>), AtParseErr> {
    let (f, r) = spec_parse_items(s, cclk_items(), no_fields());
    match r {
        Err(k) => Err(spec_date_error(k)),
        Ok(remain) => match spec_cclk_zone(remain) {
            Some((q, rest)) => {
                let f2 = match spec_set_field(f, DateField::Offset, saturating_mul(900, q as int)) {
                    Ok(f2) => f2,
                    Err(_) => f,
                };
                match spec_resolve_local(f2) {
                    Ok(dt) => Ok((dt, rest)),
                    Err(e) => Err(e),
                }
            },
            None => {
                let f2 = match spec_set_field(f, DateField::Offset, 0) {
                    Ok(f2) => f2,
                    Err(_) => f,
                };
                match spec_resolve_local(f2) {
                    Ok(dt) => Ok((dt, remain)),
                    Err(e) => Err(e),
                }
            },
        },
    }
}

fn cclk_zone(remain: &[char]) -> (r: Option<(i64, &[char])>)
    ensures
        match r {
            Some((q, rest)) => spec_cclk_zone(remain@) == Some((q, rest@)),
            None => spec_cclk_zone(remain@) is None,
        },
{
    if remain.len() > 0 && (remain[0] == '+' || remain[0] == '-') {
        let (tzoff, rest) = split_number_prefix_exec(remain);
        match parse_signed_exec(tzoff, 10, i64::MIN, i64::MAX) {
            Some(q) => Some((q, rest)),
            None => None,
        }
    } else {
        None
    }
}

fn cclk_local(s: &[char]) -> (r: Result<(LocalDateTime, &[char]), AtParseErr>)
    ensures
        match r {
            Ok((d, rest)) => spec_cclk_local(s@) == Ok::<(LocalDateTime, Seq<char>), AtParseErr>(
                (d, rest@),
            ),
            Err(e) => spec_cclk_local(s@) == Err::<(LocalDateTime, Seq<char>), AtParseErr>(e),
        },
{
    let items = cclk_items_exec();
    let (f, r) = parse_items(s, &items, new_fields());
    let remain = match r {
        Err(k) => return Err(date_error(k)),
        Ok(remain) => remain,
    };
    match cclk_zone(remain) {
        Some((q, rest)) => {
            let secs: i64 = if q > i64::MAX / 900 {
                i64::MAX
            } else if q < i64::MIN / 900 {
                i64::MIN
            } else {
                900 * q
            };
            let f2 = match set_field(f, DateField::Offset, secs) {
                Ok(f2) => f2,
                Err(_) => f,
            };
            match checked_resolve_local(&f2) {
                Ok(dt) => Ok((dt, rest)),
                Err(e) => Err(e),
            }
        },
        None => {
            let f2 = match set_field(f, DateField::Offset, 0) {
                Ok(f2) => f2,
                Err(_) => f,
            };
            match checked_resolve_local(&f2) {
                Ok(dt) => Ok((dt, remain)),
                Err(e) => Err(e),
            }
        },
    }
}

/// Reading a `80/01/06,00:37:28+00` type date-time (as returned from CCLK):
/// the value and the text after it.
pub trait FromCclkStr: Sized {
    spec fn spec_from_cclk(s: Seq<char>) -> Result<(Self, Seq<char>), AtParseErr>;

    fn from_cclk_chars<'a>(s: &'a [char]) -> (r: Result<(Self, &'a [char]), AtParseErr>)
        ensures
            match r {
                Ok((d, rest)) => Self::spec_from_cclk(s@) == Ok::<(Self, Seq<char>), AtParseErr>(
                    (d, rest@),
                ),
                Err(e) => Self::spec_from_cclk(s@) == Err::<(Self, Seq<char>), AtParseErr>(e),
            },
    ;

    /// The parsed value and the unparsed rest of the text.
    fn from_cclk_str(s: &str) -> (r: Result<(Self, String), AtParseErr>)
        ensures
            match r {
                Ok((d, rest)) => Self::spec_from_cclk(s@) == Ok::<(Self, Seq<char>), AtParseErr>(
                    (d, rest@),
                ),
                Err(e) => Self::spec_from_cclk(s@) == Err::<(Self, Seq<char>), AtParseErr>(e),
            },
    ;
}

impl FromCclkStr for LocalDateTime {
    open spec fn spec_from_cclk(s: Seq<char>) -> Result<(Self, Seq<char>), AtParseErr> {
        spec_cclk_local(s)
    }

    fn from_cclk_chars<'a>(s: &'a [char]) -> (r: Result<(Self, &'a [char]), AtParseErr>) {
        cclk_local(s)
    }

    fn from_cclk_str(s: &str) -> (r: Result<(Self, String), AtParseErr>) {
        let v = chars_of(s);
        match cclk_local(v.as_slice()) {
            Ok((d, rest)) => Ok((d, string_from_chars(rest))),
            Err(e) => Err(e),
        }
    }
}

/// A CCLK date-time, turned into UTC.
pub open spec fn spec_cclk_utc(s: Seq<char>) -> Result<(UtcDateTime, Seq<char>), AtParseErr> {
    match spec_cclk_local(s) {
        Ok((d, rest)) => Ok((datetime_to_utc(d), rest)),
        Err(e) => Err(e),
    }
}

impl FromCclkStr for UtcDateTime {
    open spec fn spec_from_cclk(s: Seq<char>) -> Result<(Self, Seq<char>), AtParseErr> {
        spec_cclk_utc(s)
    }

    fn from_cclk_chars<'a>(s: &'a [char]) -> (r: Result<(Self, &'a [char]), AtParseErr>) {
        match cclk_local(s) {
            Ok((d, rest)) => Ok((to_utc(&d), rest)),
            Err(e) => Err(e),
        }
    }

    fn from_cclk_str(s: &str) -> (r: Result<(Self, String), AtParseErr>) {
        let v = chars_of(s);
        match Self::from_cclk_chars(v.as_slice()) {
            Ok((d, rest)) => Ok((d, string_from_chars(rest))),
            Err(e) => Err(e),
        }
    }
}

/// Time returned by +CCLK
#[derive(Clone, Copy, PartialEq, Debug)]
pub struct CclkTime {
    pub time: LocalDateTime,
    pub instant: Instant,
}

impl View for CclkTime {
    type V = CclkTime;

    open spec fn view(&self) -> CclkTime {
        *self
    }
}

/// `+CCLK: "<date-time>"`
pub open spec fn spec_cclk_time(line: Seq<char>, instant: Instant) -> Result<CclkTime, AtParseErr> {
    match strip_prefix(line, "+CCLK:"@) {
        None => Err(AtParseErr::Mismatch),
        Some(l) => match strip_circumfix(trim(l), '"') {
            None => Err(AtParseErr::Parsing("Missing string argument")),
            Some(d) => match spec_cclk_local(d) {
                Ok((time, _)) => Ok(CclkTime { time, instant }),
                Err(e) => Err(e),
            },
        },
    }
}

impl AtParseLine for CclkTime {
    open spec fn spec_from_line(line: Seq<char>, instant: Instant) -> Result<CclkTime, AtParseErr> {
        spec_cclk_time(line, instant)
    }

    fn from_line(line: &str, instant: &Instant) -> (r: Result<Self, AtParseErr>) {
        let v = chars_of(line);
        let l = match strip_prefix_exec(v.as_slice(), "+CCLK:") {
            Some(l) => l,
            None => return Err(AtParseErr::Mismatch),
        };
        let d = match strip_circumfix_exec(trim_exec(l), '"') {
            Some(d) => d,
            None => return Err(AtParseErr::Parsing("Missing string argument")),
        };
        let (time, _) = cclk_local(d)?;
        Ok(CclkTime { time, instant: *instant })
    }
}

/// `yyyymmddhhmmss.sss`
pub open spec fn gnss_items() -> Seq<FormatItem> {
    seq![
        FormatItem::Numeric(DateField::Year),
        FormatItem::Numeric(DateField::Month),
        FormatItem::Numeric(DateField::Day),
        FormatItem::Numeric(DateField::Hour),
        FormatItem::Numeric(DateField::Minute),
        FormatItem::Numeric(DateField::Second),
        FormatItem::Nanosecond3,
    ]
}

/// A `yyyymmddhhmmss.sss` UTC date-time (as in CGNSINF reports): the fields
/// that could be read, resolved by chrono; text after them is ignored.
pub open spec fn spec_parse_18char_str(s: Seq<char>) -> Option<UtcDateTime> {
    match spec_resolve_utc(spec_parse_items(s, gnss_items(), no_fields()).0) {
        Ok(d) => Some(d),
        Err(_) => None,
    }
}

pub fn parse_18char_chars(s: &[char]) -> (r: Option<UtcDateTime>)
    ensures
        r == spec_parse_18char_str(s@),
{
    let items = vec![
        FormatItem::Numeric(DateField::Year),
        FormatItem::Numeric(DateField::Month),
        FormatItem::Numeric(DateField::Day),
        FormatItem::Numeric(DateField::Hour),
        FormatItem::Numeric(DateField::Minute),
        FormatItem::Numeric(DateField::Second),
        FormatItem::Nanosecond3,
    ];
    assert(items@ =~= gnss_items());
    let (f, _) = parse_items(s, &items, new_fields());
    match checked_resolve_utc(&f) {
        Ok(d) => Some(d),
        Err(_) => None,
    }
}

/// Parses a `yyyymmddhhmmss.sss` UTC date-time.
pub fn parse_18char_str(s: &str) -> (r: Option<UtcDateTime>)
    ensures
        r == spec_parse_18char_str(s@),
{
    let v = chars_of(s);
    parse_18char_chars(v.as_slice())
}

/// The offset and daylight-saving quarter hours of a time zone argument:
/// `"<quarter hours>"[,<dst hours>]` (quotes optional). The quarter hours
/// run to the end of the argument or to a character that cannot belong to
/// them.
pub open spec fn spec_zone_seconds(s: Seq<char>) -> Option<(i32, i32)> {
    let (timezone, remain) = match split_once(s, ',') {
        Some((t, r)) => (t, r),
        None => (s, Seq::empty()),
    };
    let timezone = match strip_circumfix(timezone, '"') {
        Some(t) => t,
        None => timezone,
    };
    let (tzoff, _) = split_number_prefix(timezone);
    let dst: int = match parse_signed(remain, 10, i32::MIN as int, i32::MAX as int) {
        Some(d) => d,
        None => 0,
    };
    let dst_q = dst * 4;
    match parse_signed(tzoff, 10, i32::MIN as int, i32::MAX as int) {
        None => None,
        Some(q) => {
            let secs = 900 * (q + dst_q);
            if i32::MIN <= dst_q <= i32::MAX && i32::MIN <= q + dst_q <= i32::MAX && i32::MIN
                <= secs <= i32::MAX {
                Some((secs as i32, dst_q as i32))
            } else {
                None
            }
        },
    }
}

/// A time zone argument as an offset, with the daylight-saving quarter
/// hours (as `u8`, wrapping).
pub open spec fn spec_parse_timezone(s: Seq<char>) -> Option<LocalTimeOffset> {
    match spec_zone_seconds(s) {
        Some((secs, dst_q)) => if -86_400 < secs < 86_400 {
            Some((fixed_offset_east(secs), dst_q as u8))
        } else {
            None
        },
        None => None,
    }
}

fn zone_seconds(s: &[char]) -> (r: Option<(i32, i32)>)
    ensures
        r == spec_zone_seconds(s@),
{
    let (timezone, remain): (&[char], &[char]) = match split_once_exec(s, ',') {
        Some((t, r)) => (t, r),
        None => (s, vstd::slice::slice_subrange(s, 0, 0)),
    };
    assert(remain@ == (match split_once(s@, ',') {
        Some((t, r)) => r,
        None => Seq::<char>::empty(),
    }));
    let timezone = match strip_circumfix_exec(timezone, '"') {
        Some(t) => t,
        None => timezone,
    };
    let (tzoff, _) = split_number_prefix_exec(timezone);
    let dst: i64 = match parse_signed_exec(remain, 10, i32::MIN as i64, i32::MAX as i64) {
        Some(d) => d,
        None => 0,
    };
    let dst_q: i64 = dst * 4;
    let q = parse_signed_exec(tzoff, 10, i32::MIN as i64, i32::MAX as i64)?;
    if dst_q < i32::MIN as i64 || dst_q > i32::MAX as i64 {
        return None;
    }
    let sum = q + dst_q;
    if sum < i32::MIN as i64 || sum > i32::MAX as i64 {
        return None;
    }
    let secs = 900 * sum;
    if secs < i32::MIN as i64 || secs > i32::MAX as i64 {
        return None;
    }
    Some((secs as i32, dst_q as i32))
}

pub fn parse_timezone_chars(s: &[char]) -> (r: Option<LocalTimeOffset>)
    ensures
        r == spec_parse_timezone(s@),
{
    let (secs, dst_q) = zone_seconds(s)?;
    match east_opt(secs) {
        Some(o) => Some((o, #[verifier::truncate] (dst_q as u8))),
        None => None,
    }
}

/// Parses the quoted time zone argument of *PSUTTZ and +CTZV messages,
/// with a daylight-saving argument if one follows.
pub fn parse_timezone(s: &str) -> (r: Option<LocalTimeOffset>)
    ensures
        r == spec_parse_timezone(s@),
{
    let v = chars_of(s);
    parse_timezone_chars(v.as_slice())
}

/// `year, mo, da, hr, mn, sc` (spaces optional)
pub open spec fn psuttz_comma_items() -> Seq<FormatItem> {
    seq![
        FormatItem::Numeric(DateField::Year),
        FormatItem::Literal(','),
        FormatItem::Space,
        FormatItem::Numeric(DateField::Month),
        FormatItem::Literal(','),
        FormatItem::Space,
        FormatItem::Numeric(DateField::Day),
        FormatItem::Literal(','),
        FormatItem::Space,
        FormatItem::Numeric(DateField::Hour),
        FormatItem::Literal(','),
        FormatItem::Space,
        FormatItem::Numeric(DateField::Minute),
        FormatItem::Literal(','),
        FormatItem::Space,
        FormatItem::Numeric(DateField::Second),
    ]
}

/// `year/mo/da, hr:mn:sc`
pub open spec fn psuttz_slash_items() -> Seq<FormatItem> {
    seq![
        FormatItem::Numeric(DateField::Year),
        FormatItem::Literal('/'),
        FormatItem::Numeric(DateField::Month),
        FormatItem::Literal('/'),
        FormatItem::Numeric(DateField::Day),
        FormatItem::Literal(','),
        FormatItem::Space,
        FormatItem::Numeric(DateField::Hour),
        FormatItem::Literal(':'),
        FormatItem::Numeric(DateField::Minute),
        FormatItem::Literal(':'),
        FormatItem::Numeric(DateField::Second),
    ]
}

/// The time zone arguments after a *PSUTTZ date-time: the text after the
/// separator that follows the date-time (where it is followed by one).
pub open spec fn spec_zone_arguments(remainder: Seq<char>) -> Seq<char> {
    match strip_prefix(remainder, ","@) {
        Some(rest) => rest,
        None => remainder,
    }
}

/// *PSUTTZ message data: a UTC date-time, then `,"<time zone>",<dst>`.
pub open spec fn spec_parse_psuttz_time(s: Seq<char>) -> Result<
    (UtcDateTime, Option<LocalTimeOffset>),
    AtParseErr,
> {
    let items = if find_char(s, '/') is None {
        psuttz_comma_items()
    } else {
        psuttz_slash_items()
    };
    let (f, r) = spec_parse_items(s, items, no_fields());
    match r {
        Err(k) => Err(spec_date_error(k)),
        Ok(remainder) => match spec_set_field(f, DateField::Offset, 0) {
            Err(k) => Err(spec_date_error(k)),
            Ok(f2) => match spec_resolve_utc(f2) {
                Err(e) => Err(e),
                Ok(dt) => if find_char(remainder, ',') is None {
                    Err(AtParseErr::Parsing("Missing delimiter"))
                } else {
                    Ok((dt, spec_parse_timezone(spec_zone_arguments(remainder))))
                },
            },
        },
    }
}

pub fn parse_psuttz_chars(s: &[char]) -> (r: Result<(UtcDateTime, Option<LocalTimeOffset>), AtParseErr>)
    ensures
        r == spec_parse_psuttz_time(s@),
{
    let items = if find_char_exec(s, '/').is_none() {
        let v = vec![
            FormatItem::Numeric(DateField::Year),
            FormatItem::Literal(','),
            FormatItem::Space,
            FormatItem::Numeric(DateField::Month),
            FormatItem::Literal(','),
            FormatItem::Space,
            FormatItem::Numeric(DateField::Day),
            FormatItem::Literal(','),
            FormatItem::Space,
            FormatItem::Numeric(DateField::Hour),
            FormatItem::Literal(','),
            FormatItem::Space,
            FormatItem::Numeric(DateField::Minute),
            FormatItem::Literal(','),
            FormatItem::Space,
            FormatItem::Numeric(DateField::Second),
        ];
        assert(v@ =~= psuttz_comma_items());
        v
    } else {
        let v = vec![
            FormatItem::Numeric(DateField::Year),
            FormatItem::Literal('/'),
            FormatItem::Numeric(DateField::Month),
            FormatItem::Literal('/'),
            FormatItem::Numeric(DateField::Day),
            FormatItem::Literal(','),
            FormatItem::Space,
            FormatItem::Numeric(DateField::Hour),
            FormatItem::Literal(':'),
            FormatItem::Numeric(DateField::Minute),
            FormatItem::Literal(':'),
            FormatItem::Numeric(DateField::Second),
        ];
        assert(v@ =~= psuttz_slash_items());
        v
    };
    let (f, r) = parse_items(s, &items, new_fields());
    let remainder = match r {
        Err(k) => return Err(date_error(k)),
        Ok(rest) => rest,
    };
    let f2 = match set_field(f, DateField::Offset, 0) {
        Err(k) => return Err(date_error(k)),
        Ok(f2) => f2,
    };
    let dt = match checked_resolve_utc(&f2) {
        Err(e) => return Err(e),
        Ok(dt) => dt,
    };
    if find_char_exec(remainder, ',').is_none() {
        return Err(AtParseErr::Parsing("Missing delimiter"));
    }
    let args = match strip_prefix_exec(remainder, ",") {
        Some(rest) => rest,
        None => remainder,
    };
    Ok((dt, parse_timezone_chars(args)))
}

/// Parses the UTC date-time of *PSUTTZ message data, like
/// `year,mo,da,hr,mn,sc,"timezone",dst`, and its time zone.
pub fn parse_psuttz_time(s: &str) -> (r: Result<(UtcDateTime, Option<LocalTimeOffset>), AtParseErr>)
    ensures
        r == spec_parse_psuttz_time(s@),
{
    let v = chars_of(s);
    parse_psuttz_chars(v.as_slice())
}

/// `yyyy-mm-dd,` (the comma included)
pub open spec fn sgnscmd_date_items() -> Seq<FormatItem> {
    seq![
        FormatItem::Numeric(DateField::Year),
        FormatItem::Literal('-'),
        FormatItem::Numeric(DateField::Month),
        FormatItem::Literal('-'),
        FormatItem::Numeric(DateField::Day),
        FormatItem::Literal(','),
    ]
}

/// `hh:mm:ss`
pub open spec fn sgnscmd_time_items() -> Seq<FormatItem> {
    seq![
        FormatItem::Numeric(DateField::Hour),
        FormatItem::Literal(':'),
        FormatItem::Numeric(DateField::Minute),
        FormatItem::Literal(':'),
        FormatItem::Numeric(DateField::Second),
    ]
}

/// Milliseconds written in hexadecimal after `0x`, or else in decimal.
pub open spec fn spec_timestamp_millis(s: Seq<char>) -> Option<i64> {
    match strip_prefix(s, "0x"@) {
        Some(h) => match parse_signed(h, 16, i64::MIN as int, i64::MAX as int) {
            Some(v) => Some(v as i64),
            None => None,
        },
        None => match parse_signed(s, 10, i64::MIN as int, i64::MAX as int) {
            Some(v) => Some(v as i64),
            None => None,
        },
    }
}

pub fn timestamp_millis(s: &[char]) -> (r: Option<i64>)
    ensures
        r == spec_timestamp_millis(s@),
{
    match strip_prefix_exec(s, "0x") {
        Some(h) => parse_signed_exec(h, 16, i64::MIN, i64::MAX),
        None => parse_signed_exec(s, 10, i64::MIN, i64::MAX),
    }
}

/// Integer division rounding toward zero, as Rust's `/`.
pub open spec fn trunc_div(a: int, b: int) -> int {
    if a >= 0 {
        a / b
    } else {
        -((-a) / b)
    }
}

/// The remainder of [trunc_div], as Rust's `%`.
pub open spec fn trunc_rem(a: int, b: int) -> int {
    a - b * trunc_div(a, b)
}

/// +SGNSCMD date and time arguments with the millisecond timestamp: the
/// date (if given, with a following comma) and time fields, the
/// timestamp's whole seconds and its milliseconds as nanoseconds, resolved
/// by chrono; `None` if any step fails (a leap second at chrono's smallest
/// timestamp included, see [spec_resolve_utc]).
pub open spec fn spec_parse_sgnscmd_time(date: Option<Seq<char>>, time: Seq<char>, timestamp: Seq<
    char,
>) -> Option<UtcDateTime> {
    let f0 = no_fields();
    let f1 = match date {
        Some(d) => {
            let (f, r) = spec_parse_items(d, sgnscmd_date_items(), f0);
            if r is Ok {
                Some(f)
            } else {
                None
            }
        },
        None => Some(f0),
    };
    match f1 {
        None => None,
        Some(f1) => {
            let (f2, r) = spec_parse_items(time, sgnscmd_time_items(), f1);
            if r is Err {
                None
            } else {
                match spec_timestamp_millis(timestamp) {
                    None => None,
                    Some(ms) => match spec_set_field(
                        f2,
                        DateField::Nanosecond,
                        (trunc_rem(ms as int, 1000) * 1_000_000) as i64,
                    ) {
                        Err(_) => None,
                        Ok(f3) => match spec_set_field(
                            f3,
                            DateField::Timestamp,
                            trunc_div(ms as int, 1000) as i64,
                        ) {
                            Err(_) => None,
                            Ok(f4) => match spec_resolve_utc(f4) {
                                Ok(d) => Some(d),
                                Err(_) => None,
                            },
                        },
                    },
                }
            }
        },
    }
}

pub fn parse_sgnscmd_chars(date: Option<&[char]>, time: &[char], timestamp: &[char]) -> (r: Option<
    UtcDateTime,
>)
    ensures
        r == spec_parse_sgnscmd_time(
            match date {
                Some(d) => Some(d@),
                None => None,
            },
            time@,
            timestamp@,
        ),
{
    let f0 = new_fields();
    let f1 = match date {
        Some(d) => {
            let items = vec![
                FormatItem::Numeric(DateField::Year),
                FormatItem::Literal('-'),
                FormatItem::Numeric(DateField::Month),
                FormatItem::Literal('-'),
                FormatItem::Numeric(DateField::Day),
                FormatItem::Literal(','),
            ];
            assert(items@ =~= sgnscmd_date_items());
            let (f, r) = parse_items(d, &items, f0);
            if r.is_err() {
                return None;
            }
            f
        },
        None => f0,
    };
    let items = vec![
        FormatItem::Numeric(DateField::Hour),
        FormatItem::Literal(':'),
        FormatItem::Numeric(DateField::Minute),
        FormatItem::Literal(':'),
        FormatItem::Numeric(DateField::Second),
    ];
    assert(items@ =~= sgnscmd_time_items());
    let (f2, r) = parse_items(time, &items, f1);
    if r.is_err() {
        return None;
    }
    let ms = timestamp_millis(timestamp)?;
    let mag: u64 = if ms >= 0 {
        ms as u64
    } else {
        (0i128 - ms as i128) as u64
    };
    let q = (mag / 1000) as i64;
    let rem = (mag % 1000) as i64;
    let (secs, frac) = if ms >= 0 {
        (q, rem)
    } else {
        (0 - q, 0 - rem)
    };
    assert(secs == trunc_div(ms as int, 1000) && frac == trunc_rem(ms as int, 1000));
    let f3 = match set_field(f2, DateField::Nanosecond, frac * 1_000_000) {
        Ok(f3) => f3,
        Err(_) => return None,
    };
    let f4 = match set_field(f3, DateField::Timestamp, secs) {
        Ok(f4) => f4,
        Err(_) => return None,
    };
    match checked_resolve_utc(&f4) {
        Ok(d) => Some(d),
        Err(_) => None,
    }
}

/// Parses the UTC date and time arguments of +SGNSCMD message data, like
/// `yyyy-mm-dd,hh:mm:ss`, with its millisecond timestamp.
pub fn parse_sgnscmd_time(date: Option<&str>, time: &str, timestamp: &str) -> (r: Option<
    UtcDateTime,
>)
    ensures
        r == spec_parse_sgnscmd_time(
            match date {
                Some(d) => Some(d@),
                None => None,
            },
            time@,
            timestamp@,
        ),
{
    let dv = match date {
        Some(d) => Some(chars_of(d)),
        None => None,
    };
    let tv = chars_of(time);
    let sv = chars_of(timestamp);
    let ds: Option<&[char]> = match &dv {
        Some(v) => Some(v.as_slice()),
        None => None,
    };
    parse_sgnscmd_chars(ds, tv.as_slice(), sv.as_slice())
}

/// The two-digit text of a number below a hundred.
pub open spec fn two_digits(n: nat) -> Seq<char> {
    seq![digit_char(n / 10), digit_char(n % 10)]
}

proof fn lemma_scan_two_digits(n: nat, t: Seq<char>, field: DateField)
    requires
        n < 100,
        t.len() == 0 || !is_ascii_digit(t[0]),
    ensures
        scan_numeric(two_digits(n) + t, field) == Ok::<(Seq<char>, i64), DateErrorKind>(
            (t, n as i64),
        ),
{
    let s = two_digits(n) + t;
    lemma_digit_char(n / 10, 10);
    lemma_digit_char(n % 10, 10);
    assert(s[0] == digit_char(n / 10));
    assert(s[1] == digit_char(n % 10));
    assert(trim_start(s) == s);
    let max: nat = if field == DateField::Year {
        4
    } else {
        2
    };
    lemma_leading_digits(s, max, 2);
    assert(leading_digits(s, max) == 2) by {
        if t.len() > 0 {
            assert(s[2] == t[0]);
        }
    }
    let d = s.subrange(0, 2);
    assert(d.drop_last() =~= seq![digit_char(n / 10)]);
    assert(d.last() == digit_char(n % 10));
    assert(digits_value(seq![digit_char(n / 10)], 10) == n / 10) by {
        let a = seq![digit_char(n / 10)];
        assert(a.drop_last() =~= Seq::<char>::empty());
        assert(a.last() == digit_char(n / 10));
        assert(digits_value(Seq::<char>::empty(), 10) == 0);
        assert(digit_value(digit_char(n / 10), 10) == Some(n / 10));
    }
    assert(digits_value(d, 10) == (n / 10) * 10 + n % 10);
    assert(digits_value(d, 10) == n);
    assert(s.subrange(2, s.len() as int) =~= t);
}

proof fn lemma_items_step(s: Seq<char>, items: Seq<FormatItem>, k: int, f: DateFields)
    requires
        0 <= k < items.len(),
    ensures
        spec_parse_items(s, items.subrange(k, items.len() as int), f) == match spec_parse_item(
            s,
            items[k],
            f,
        ) {
            (f2, Ok(r)) => spec_parse_items(r, items.subrange(k + 1, items.len() as int), f2),
            (f2, Err(e)) => (f2, Err(e)),
        },
{
    assert(items.subrange(k, items.len() as int).drop_first() =~= items.subrange(
        k + 1,
        items.len() as int,
    ));
}

proof fn lemma_numeric_item_step(
    n: nat,
    t: Seq<char>,
    items: Seq<FormatItem>,
    k: int,
    f: DateFields,
    field: DateField,
    f2: DateFields,
)
    requires
        n < 100,
        t.len() == 0 || !is_ascii_digit(t[0]),
        0 <= k < items.len(),
        items[k] == FormatItem::Numeric(field),
        spec_set_field(f, field, n as i64) == Ok::<DateFields, DateErrorKind>(f2),
    ensures
        spec_parse_items(two_digits(n) + t, items.subrange(k, items.len() as int), f)
            == spec_parse_items(t, items.subrange(k + 1, items.len() as int), f2),
{
    lemma_scan_two_digits(n, t, field);
    lemma_items_step(two_digits(n) + t, items, k, f);
}

proof fn lemma_literal_item_step(c: char, t: Seq<char>, items: Seq<FormatItem>, k: int, f: DateFields)
    requires
        0 <= k < items.len(),
        items[k] == FormatItem::Literal(c),
    ensures
        spec_parse_items(seq![c] + t, items.subrange(k, items.len() as int), f) == spec_parse_items(
            t,
            items.subrange(k + 1, items.len() as int),
            f,
        ),
{
    assert((seq![c] + t).drop_first() =~= t);
    lemma_items_step(seq![c] + t, items, k, f);
}

/// The CCLK format `yy/MM/dd,hh:mm:ss` reads its six numbers as the year, month, day,
/// hour, minute and second, in that order, and leaves what follows the seconds.
pub proof fn law_cclk_fields_in_order(
    year: nat,
    month: nat,
    day: nat,
    hour: nat,
    minute: nat,
    second: nat,
    rest: Seq<char>,
)
    requires
        year < 100,
        1 <= month <= 12,
        1 <= day <= 31,
        hour <= 23,
        minute <= 59,
        second <= 60,
        rest.len() == 0 || !is_ascii_digit(rest[0]),
    ensures
        spec_parse_items(
            cclk_text(year, month, day, hour, minute, second, rest),
            cclk_items(),
            no_fields(),
        ) == (
            DateFields {
                year: Some(year as i32),
                month: Some(month as u32),
                day: Some(day as u32),
                hour_div_12: Some((hour / 12) as u32),
                hour_mod_12: Some((hour % 12) as u32),
                minute: Some(minute as u32),
                second: Some(second as u32),
                nanosecond: None,
                timestamp: None,
                offset: None,
            },
            Ok::<Seq<char>, DateErrorKind>(rest),
        ),
{
    let items = cclk_items();
    let t11 = rest;
    let t10 = two_digits(second) + t11;
    let t9 = seq![':'] + t10;
    let t8 = two_digits(minute) + t9;
    let t7 = seq![':'] + t8;
    let t6 = two_digits(hour) + t7;
    let t5 = seq![','] + t6;
    let t4 = two_digits(day) + t5;
    let t3 = seq!['/'] + t4;
    let t2 = two_digits(month) + t3;
    let t1 = seq!['/'] + t2;
    let t0 = two_digits(year) + t1;
    let f0 = no_fields();
    let f1 = DateFields {
        year: Some(year as i32),
        ..f0
    };
    let f2 = DateFields {
        month: Some(month as u32),
        ..f1
    };
    let f3 = DateFields {
        day: Some(day as u32),
        ..f2
    };
    let f4 = DateFields {
        hour_div_12: Some((hour / 12) as u32),
        hour_mod_12: Some((hour % 12) as u32),
        ..f3
    };
    let f5 = DateFields {
        minute: Some(minute as u32),
        ..f4
    };
    let f6 = DateFields {
        second: Some(second as u32),
        ..f5
    };
    assert(items[0] == FormatItem::Numeric(DateField::Year));
    assert(spec_set_field(f0, DateField::Year, year as i64) == Ok::<DateFields, DateErrorKind>(f1));
    lemma_numeric_item_step(year, t1, items, 0, f0, DateField::Year, f1);
    assert(items[1] == FormatItem::Literal('/'));
    lemma_literal_item_step('/', t2, items, 1, f1);
    assert(items[2] == FormatItem::Numeric(DateField::Month));
    assert(spec_set_field(f1, DateField::Month, month as i64) == Ok::<DateFields, DateErrorKind>(f2));
    lemma_numeric_item_step(month, t3, items, 2, f1, DateField::Month, f2);
    assert(items[3] == FormatItem::Literal('/'));
    lemma_literal_item_step('/', t4, items, 3, f2);
    assert(items[4] == FormatItem::Numeric(DateField::Day));
    assert(spec_set_field(f2, DateField::Day, day as i64) == Ok::<DateFields, DateErrorKind>(f3));
    lemma_numeric_item_step(day, t5, items, 4, f2, DateField::Day, f3);
    assert(items[5] == FormatItem::Literal(','));
    lemma_literal_item_step(',', t6, items, 5, f3);
    assert(items[6] == FormatItem::Numeric(DateField::Hour));
    assert(spec_set_field(f3, DateField::Hour, hour as i64) == Ok::<DateFields, DateErrorKind>(f4));
    lemma_numeric_item_step(hour, t7, items, 6, f3, DateField::Hour, f4);
    assert(items[7] == FormatItem::Literal(':'));
    lemma_literal_item_step(':', t8, items, 7, f4);
    assert(items[8] == FormatItem::Numeric(DateField::Minute));
    assert(spec_set_field(f4, DateField::Minute, minute as i64) == Ok::<DateFields, DateErrorKind>(f5));
    lemma_numeric_item_step(minute, t9, items, 8, f4, DateField::Minute, f5);
    assert(items[9] == FormatItem::Literal(':'));
    lemma_literal_item_step(':', t10, items, 9, f5);
    assert(items[10] == FormatItem::Numeric(DateField::Second));
    assert(spec_set_field(f5, DateField::Second, second as i64) == Ok::<DateFields, DateErrorKind>(f6));
    lemma_numeric_item_step(second, t11, items, 10, f5, DateField::Second, f6);
    assert(items.subrange(0, 11) =~= items);
    assert(items.subrange(11, 11) =~= Seq::<FormatItem>::empty());
}

/// A timestamp written after `0x` is read in hexadecimal, and every timestamp written
/// in decimal reads back as itself.
pub proof fn law_timestamp_radix(h: Seq<char>, n: u32)
    ensures
        spec_timestamp_millis("0x"@ + h) == match parse_signed(
            h,
            16,
            i64::MIN as int,
            i64::MAX as int,
        ) {
            Some(v) => Some(v as i64),
            None => None,
        },
        spec_timestamp_millis(decimal(n as nat)) == Some(n as i64),
{
    reveal_strlit("0x");
    let x = "0x"@ + h;
    assert(x.subrange(0, 2) =~= "0x"@);
    assert(x.subrange(2, x.len() as int) =~= h);
    let d = decimal(n as nat);
    lemma_decimal_reads_back(n as nat);
    lemma_decimal_padded_reads_back(n as nat, 0, i64::MAX as nat);
    assert(d[0] != '-');
    if d.len() >= 2 {
        assert(d.subrange(0, 2)[1] != "0x"@[1]);
    }
}

proof fn lemma_signed_decimal_number(q: int)
    requires
        i32::MIN <= q <= i32::MAX,
    ensures
        signed_decimal(q).len() >= 1,
        forall|i: int| 0 <= i < signed_decimal(q).len() ==> is_number_char(#[trigger] signed_decimal(q)[i]),
        signed_decimal(q)[0] != '"',
        parse_signed(signed_decimal(q), 10, i32::MIN as int, i32::MAX as int) == Some(q),
{
    let sd = signed_decimal(q);
    if q < 0 {
        let d = decimal((-q) as nat);
        lemma_decimal_reads_back((-q) as nat);
        assert(sd.drop_first() =~= d);
        assert forall|i: int| 0 <= i < sd.len() implies is_number_char(#[trigger] sd[i]) by {
            if i > 0 {
                assert(sd[i] == d[i - 1]);
            }
        }
    } else {
        lemma_decimal_reads_back(q as nat);
        lemma_decimal_padded_reads_back(q as nat, 0, i32::MAX as nat);
    }
}

/// A time zone argument counts quarter hours, and a daylight-saving argument after it
/// counts hours: the offset is 15 minutes per quarter plus one hour per daylight-saving
/// hour, and the daylight-saving part is kept in quarter hours.
pub proof fn law_zone_quarter_hours(q: int, dst: nat)
    requires
        -96 <= q <= 96,
        dst <= 24,
    ensures
        spec_zone_seconds(seq!['"'] + signed_decimal(q) + seq!['"', ','] + decimal(dst)) == Some(
            ((900 * (q + 4 * dst)) as i32, (4 * dst) as i32),
        ),
        spec_zone_seconds(signed_decimal(q)) == Some(((900 * q) as i32, 0i32)),
{
    let sd = signed_decimal(q);
    lemma_signed_decimal_number(q);
    lemma_find_non_number(sd, sd.len() as int);
    assert(split_number_prefix(sd) == (sd, Seq::<char>::empty()));
    lemma_decimal_reads_back(dst);
    lemma_decimal_padded_reads_back(dst, 0, i32::MAX as nat);
    let dd = decimal(dst);
    assert(parse_signed(dd, 10, i32::MIN as int, i32::MAX as int) == Some(dst as int)) by {
        assert(dd[0] != '-');
    }
    let a = seq!['"'] + sd + seq!['"'];
    assert forall|j: int| 0 <= j < a.len() implies a[j] != ',' by {
        if 0 < j < a.len() - 1 {
            assert(a[j] == sd[j - 1]);
        }
    }
    lemma_split_first_piece(a, dd, ',');
    assert(seq!['"'] + sd + seq!['"', ','] + dd =~= a + seq![','] + dd);
    assert(strip_circumfix(a, '"') == Some(sd)) by {
        assert(a.subrange(1, a.len() - 1) =~= sd);
    }
    lemma_find_char(sd, ',', sd.len() as int);
    assert(split_once(sd, ',') is None);
    assert(strip_circumfix(sd, '"') is None);
    assert(parse_signed(Seq::<char>::empty(), 10, i32::MIN as int, i32::MAX as int) is None);
}

/// The text of a CCLK date-time: `yy/MM/dd,hh:mm:ss` followed by `rest`.
pub open spec fn cclk_text(
    year: nat,
    month: nat,
    day: nat,
    hour: nat,
    minute: nat,
    second: nat,
    rest: Seq<char>,
) -> Seq<char> {
    two_digits(year) + (seq!['/'] + (two_digits(month) + (seq!['/'] + (two_digits(day) + (seq![
        ',',
    ] + (two_digits(hour) + (seq![':'] + (two_digits(minute) + (seq![':'] + (two_digits(second)
        + rest))))))))))
}

/// A CCLK date-time with a time zone of `q` quarter hours (written with its sign) is
/// handed to the resolver with an offset of `q` times 15 minutes, east of UTC for a
/// positive `q`; nothing of the text is left over.
pub proof fn law_cclk_zone_offset(
    year: nat,
    month: nat,
    day: nat,
    hour: nat,
    minute: nat,
    second: nat,
    q: int,
)
    requires
        year < 100,
        1 <= month <= 12,
        1 <= day <= 31,
        hour <= 23,
        minute <= 59,
        second <= 60,
        -96 <= q <= 96,
    ensures
        ({
            let zone = if q < 0 {
                seq!['-'] + decimal((-q) as nat)
            } else {
                seq!['+'] + decimal(q as nat)
            };
            let fields = DateFields {
                year: Some(year as i32),
                month: Some(month as u32),
                day: Some(day as u32),
                hour_div_12: Some((hour / 12) as u32),
                hour_mod_12: Some((hour % 12) as u32),
                minute: Some(minute as u32),
                second: Some(second as u32),
                nanosecond: None,
                timestamp: None,
                offset: Some((900 * q) as i32),
            };
            spec_cclk_local(cclk_text(year, month, day, hour, minute, second, zone)) == match spec_resolve_local(
                fields,
            ) {
                Ok(dt) => Ok((dt, Seq::<char>::empty())),
                Err(e) => Err(e),
            }
        }),
{
    let m: nat = if q < 0 {
        (-q) as nat
    } else {
        q as nat
    };
    let zone = if q < 0 {
        seq!['-'] + decimal(m)
    } else {
        seq!['+'] + decimal(m)
    };
    law_cclk_fields_in_order(year, month, day, hour, minute, second, zone);
    lemma_decimal_reads_back(m);
    lemma_decimal_padded_reads_back(m, 0, i64::MAX as nat);
    let d = decimal(m);
    assert(zone.drop_first() =~= d);
    assert forall|i: int| 0 <= i < zone.len() implies is_number_char(#[trigger] zone[i]) by {
        if i > 0 {
            assert(zone[i] == d[i - 1]);
        }
    }
    lemma_find_non_number(zone, zone.len() as int);
    assert(split_number_prefix(zone) == (zone, Seq::<char>::empty()));
    assert(parse_signed(zone, 10, i64::MIN as int, i64::MAX as int) == Some(q));
    assert(spec_cclk_zone(zone) == Some((q as i64, Seq::<char>::empty())));
    assert(saturating_mul(900, q) == 900 * q);
}

/// The SGNSCMD time `hh:mm:ss` reads its three numbers as the hour, minute and second,
/// in that order, and leaves what follows the seconds.
pub proof fn law_sgnscmd_time_in_order(hour: nat, minute: nat, second: nat, rest: Seq<char>)
    requires
        hour <= 23,
        minute <= 59,
        second <= 60,
        rest.len() == 0 || !is_ascii_digit(rest[0]),
    ensures
        spec_parse_items(
            two_digits(hour) + (seq![':'] + (two_digits(minute) + (seq![':'] + (two_digits(second)
                + rest)))),
            sgnscmd_time_items(),
            no_fields(),
        ) == (
            DateFields {
                hour_div_12: Some((hour / 12) as u32),
                hour_mod_12: Some((hour % 12) as u32),
                minute: Some(minute as u32),
                second: Some(second as u32),
                ..no_fields()
            },
            Ok::<Seq<char>, DateErrorKind>(rest),
        ),
{
    let items = sgnscmd_time_items();
    let t5 = rest;
    let t4 = two_digits(second) + t5;
    let t3 = seq![':'] + t4;
    let t2 = two_digits(minute) + t3;
    let t1 = seq![':'] + t2;
    let t0 = two_digits(hour) + t1;
    let f0 = no_fields();
    let f1 = DateFields {
        hour_div_12: Some((hour / 12) as u32),
        hour_mod_12: Some((hour % 12) as u32),
        ..f0
    };
    let f2 = DateFields { minute: Some(minute as u32), ..f1 };
    let f3 = DateFields { second: Some(second as u32), ..f2 };
    assert(items[0] == FormatItem::Numeric(DateField::Hour));
    assert(spec_set_field(f0, DateField::Hour, hour as i64) == Ok::<DateFields, DateErrorKind>(f1));
    lemma_numeric_item_step(hour, t1, items, 0, f0, DateField::Hour, f1);
    assert(items[1] == FormatItem::Literal(':'));
    lemma_literal_item_step(':', t2, items, 1, f1);
    assert(items[2] == FormatItem::Numeric(DateField::Minute));
    assert(spec_set_field(f1, DateField::Minute, minute as i64) == Ok::<DateFields, DateErrorKind>(
        f2,
    ));
    lemma_numeric_item_step(minute, t3, items, 2, f1, DateField::Minute, f2);
    assert(items[3] == FormatItem::Literal(':'));
    lemma_literal_item_step(':', t4, items, 3, f2);
    assert(items[4] == FormatItem::Numeric(DateField::Second));
    assert(spec_set_field(f2, DateField::Second, second as i64) == Ok::<DateFields, DateErrorKind>(
        f3,
    ));
    lemma_numeric_item_step(second, t5, items, 4, f2, DateField::Second, f3);
    assert(items.subrange(0, 5) =~= items);
    assert(items.subrange(5, 5) =~= Seq::<FormatItem>::empty());
}

/// The digits of a number below `10^w`, padded with zeros to `w` digits.
pub open spec fn fixed_digits(n: nat, w: nat) -> Seq<char>
    decreases w,
{
    if w == 0 {
        Seq::empty()
    } else {
        fixed_digits(n / 10, (w - 1) as nat).push(digit_char(n % 10))
    }
}

proof fn lemma_fixed_digits(n: nat, w: nat)
    ensures
        fixed_digits(n, w).len() == w,
        forall|i: int| 0 <= i < w ==> is_ascii_digit(#[trigger] fixed_digits(n, w)[i]),
        n < pow10(w) ==> digits_value(fixed_digits(n, w), 10) == n,
    decreases w,
{
    if w > 0 {
        lemma_fixed_digits(n / 10, (w - 1) as nat);
        lemma_digit_char(n % 10, 10);
        let s = fixed_digits(n, w);
        assert(s.drop_last() =~= fixed_digits(n / 10, (w - 1) as nat));
        if n < pow10(w) {
            assert(n / 10 < pow10((w - 1) as nat)) by (nonlinear_arith)
                requires
                    n < pow10(w),
                    pow10(w) == 10 * pow10((w - 1) as nat),
            ;
        }
    }
}

proof fn lemma_scan_fixed_digits(n: nat, w: nat, t: Seq<char>, field: DateField)
    requires
        n < pow10(w),
        1 <= w,
        field == DateField::Year ==> w == 4,
        field != DateField::Year ==> w == 2,
    ensures
        scan_numeric(fixed_digits(n, w) + t, field) == Ok::<(Seq<char>, i64), DateErrorKind>(
            (t, n as i64),
        ),
{
    let d = fixed_digits(n, w);
    let s = d + t;
    lemma_fixed_digits(n, w);
    assert(s[0] == d[0]);
    assert(trim_start(s) == s);
    assert forall|j: int| 0 <= j < w implies is_ascii_digit(#[trigger] s[j]) by {
        assert(s[j] == d[j]);
    }
    lemma_leading_digits(s, w, w);
    assert(s.subrange(0, w as int) =~= d);
    assert(s.subrange(w as int, s.len() as int) =~= t);
    assert(pow10(4) == 10000) by {
        reveal_with_fuel(pow10, 5);
    }
    assert(pow10(2) == 100) by {
        reveal_with_fuel(pow10, 3);
    }
}

proof fn lemma_fixed_item_step(
    n: nat,
    w: nat,
    t: Seq<char>,
    items: Seq<FormatItem>,
    k: int,
    f: DateFields,
    field: DateField,
    f2: DateFields,
)
    requires
        n < pow10(w),
        1 <= w,
        field == DateField::Year ==> w == 4,
        field != DateField::Year ==> w == 2,
        0 <= k < items.len(),
        items[k] == FormatItem::Numeric(field),
        spec_set_field(f, field, n as i64) == Ok::<DateFields, DateErrorKind>(f2),
    ensures
        spec_parse_items(fixed_digits(n, w) + t, items.subrange(k, items.len() as int), f)
            == spec_parse_items(t, items.subrange(k + 1, items.len() as int), f2),
{
    lemma_scan_fixed_digits(n, w, t, field);
    lemma_items_step(fixed_digits(n, w) + t, items, k, f);
}

proof fn lemma_millis_item_step(millis: nat, items: Seq<FormatItem>, k: int, f: DateFields)
    requires
        millis < 1000,
        0 <= k < items.len(),
        items[k] == FormatItem::Nanosecond3,
        f.nanosecond is None,
    ensures
        spec_parse_items(seq!['.'] + fixed_digits(millis, 3), items.subrange(k, items.len() as int), f)
            == spec_parse_items(
            Seq::<char>::empty(),
            items.subrange(k + 1, items.len() as int),
            DateFields { nanosecond: Some((millis * 1_000_000) as u32), ..f },
        ),
{
    assert(pow10(3) == 1000) by {
        reveal_with_fuel(pow10, 4);
    }
    let m = fixed_digits(millis, 3);
    let t = seq!['.'] + m;
    lemma_fixed_digits(millis, 3);
    assert(t.drop_first() =~= m);
    assert(all_ascii_digits(m));
    lemma_ascii_utf8_len(m);
    lemma_leading_digits(m, 3, 3);
    assert(m.subrange(0, 3) =~= m);
    assert(m.subrange(3, 3) =~= Seq::<char>::empty());
    lemma_items_step(t, items, k, f);
}

/// The GNSS time `yyyyMMddhhmmss.sss` reads its numbers as the year, month, day, hour,
/// minute, second and milliseconds, in that order, and that date-time is the one the
/// resolver is given.
pub proof fn law_gnss_time_in_order(
    year: nat,
    month: nat,
    day: nat,
    hour: nat,
    minute: nat,
    second: nat,
    millis: nat,
)
    requires
        year < 10000,
        1 <= month <= 12,
        1 <= day <= 31,
        hour <= 23,
        minute <= 59,
        second <= 60,
        millis < 1000,
    ensures
        spec_parse_18char_str(
            fixed_digits(year, 4) + (fixed_digits(month, 2) + (fixed_digits(day, 2) + (fixed_digits(
                hour,
                2,
            ) + (fixed_digits(minute, 2) + (fixed_digits(second, 2) + (seq!['.'] + fixed_digits(
                millis,
                3,
            ))))))),
        ) == match spec_resolve_utc(
            DateFields {
                year: Some(year as i32),
                month: Some(month as u32),
                day: Some(day as u32),
                hour_div_12: Some((hour / 12) as u32),
                hour_mod_12: Some((hour % 12) as u32),
                minute: Some(minute as u32),
                second: Some(second as u32),
                nanosecond: Some((millis * 1_000_000) as u32),
                timestamp: None,
                offset: None,
            },
        ) {
            Ok(d) => Some(d),
            Err(_) => None,
        },
{
    assert(pow10(4) == 10000 && pow10(2) == 100) by {
        reveal_with_fuel(pow10, 5);
    }
    let items = gnss_items();
    let t7 = seq!['.'] + fixed_digits(millis, 3);
    let t6 = fixed_digits(second, 2) + t7;
    let t5 = fixed_digits(minute, 2) + t6;
    let t4 = fixed_digits(hour, 2) + t5;
    let t3 = fixed_digits(day, 2) + t4;
    let t2 = fixed_digits(month, 2) + t3;
    let t1 = fixed_digits(year, 4) + t2;
    let f0 = no_fields();
    let f1 = DateFields { year: Some(year as i32), ..f0 };
    let f2 = DateFields { month: Some(month as u32), ..f1 };
    let f3 = DateFields { day: Some(day as u32), ..f2 };
    let f4 = DateFields {
        hour_div_12: Some((hour / 12) as u32),
        hour_mod_12: Some((hour % 12) as u32),
        ..f3
    };
    let f5 = DateFields { minute: Some(minute as u32), ..f4 };
    let f6 = DateFields { second: Some(second as u32), ..f5 };
    assert(items[0] == FormatItem::Numeric(DateField::Year));
    assert(spec_set_field(f0, DateField::Year, year as i64) == Ok::<DateFields, DateErrorKind>(f1));
    lemma_fixed_item_step(year, 4, t2, items, 0, f0, DateField::Year, f1);
    assert(items[1] == FormatItem::Numeric(DateField::Month));
    assert(spec_set_field(f1, DateField::Month, month as i64) == Ok::<DateFields, DateErrorKind>(f2));
    lemma_fixed_item_step(month, 2, t3, items, 1, f1, DateField::Month, f2);
    assert(items[2] == FormatItem::Numeric(DateField::Day));
    assert(spec_set_field(f2, DateField::Day, day as i64) == Ok::<DateFields, DateErrorKind>(f3));
    lemma_fixed_item_step(day, 2, t4, items, 2, f2, DateField::Day, f3);
    assert(items[3] == FormatItem::Numeric(DateField::Hour));
    assert(spec_set_field(f3, DateField::Hour, hour as i64) == Ok::<DateFields, DateErrorKind>(f4));
    lemma_fixed_item_step(hour, 2, t5, items, 3, f3, DateField::Hour, f4);
    assert(items[4] == FormatItem::Numeric(DateField::Minute));
    assert(spec_set_field(f4, DateField::Minute, minute as i64) == Ok::<DateFields, DateErrorKind>(
        f5,
    ));
    lemma_fixed_item_step(minute, 2, t6, items, 4, f4, DateField::Minute, f5);
    assert(items[5] == FormatItem::Numeric(DateField::Second));
    assert(spec_set_field(f5, DateField::Second, second as i64) == Ok::<DateFields, DateErrorKind>(
        f6,
    ));
    lemma_fixed_item_step(second, 2, t7, items, 5, f5, DateField::Second, f6);
    assert(items[6] == FormatItem::Nanosecond3);
    lemma_millis_item_step(millis, items, 6, f6);
    assert(items.subrange(0, 7) =~= items);
    assert(items.subrange(7, 7) =~= Seq::<FormatItem>::empty());
}

} // verus!
