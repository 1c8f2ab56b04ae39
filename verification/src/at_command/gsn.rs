//! The IMEI and its Luhn check digit.
use vstd::prelude::*;
use embassy_time::{Duration, Instant};
use super::{AtParseErr, AtParseLine, AtRequest, GenericOk, RequestType};
use crate::numeral::{all_ascii_digits, is_ascii_digit, lemma_ascii_utf8_len};
use crate::out::digit_char;
use crate::text::{chars_of, fits_in_bytes, string_from_chars, utf8_len};

verus! {

/// AT+GSN
#[derive(Debug)]
pub struct GetImei;

impl AtRequest for GetImei {
    type Response = (Imei, GenericOk);

    open spec fn spec_encode(&self) -> Seq<char> {
        "AT+GSN\r"@
    }

    open spec fn spec_request_type() -> RequestType {
        RequestType::NonCommand
    }

    fn request_type() -> (t: RequestType) {
        RequestType::NonCommand
    }

    fn encode(&self) -> (s: String) {
        String::from_str("AT+GSN\r")
    }

    fn default_timeout() -> (t: Option<Duration>) {
        None
    }
}

/// A checked IMEI: 15 or 16 decimal digits whose last is the check digit
/// of the others.
#[derive(Clone, Debug)]
pub struct Imei {
    pub imei: String,
}

impl View for Imei {
    type V = Seq<char>;

    open spec fn view(&self) -> Seq<char> {
        self.imei@
    }
}

/// The value of an ASCII digit.
pub open spec fn digit_of(c: char) -> nat {
    (c as int - '0' as int) as nat
}

/// The values of the decimal digits of `s`, in order; other characters are
/// skipped, as `char::to_digit(10)` under `flat_map` skips them.
pub open spec fn digit_values(s: Seq<char>) -> Seq<nat>
    decreases s.len(),
{
    if s.len() == 0 {
        seq![]
    } else if is_ascii_digit(s.last()) {
        digit_values(s.drop_last()).push(digit_of(s.last()))
    } else {
        digit_values(s.drop_last())
    }
}

/// The Luhn contribution of the digit `d` at position `i`: digits at odd
/// positions are doubled, and a doubled value of two digits is replaced by
/// the sum of its digits.
pub open spec fn luhn_term(i: int, d: nat) -> nat {
    if i % 2 == 0 {
        d
    } else if 2 * d >= 10 {
        ((2 * d) % 10 + 1) as nat
    } else {
        2 * d
    }
}

/// The Luhn sum of a digit sequence.
pub open spec fn luhn_sum(ds: Seq<nat>) -> nat
    decreases ds.len(),
{
    if ds.len() == 0 {
        0
    } else {
        luhn_sum(ds.drop_last()) + luhn_term(ds.len() - 1, ds.last())
    }
}

/// The check digit of the digits of `s`: what makes the Luhn sum a
/// multiple of ten.
pub open spec fn check_digit(s: Seq<char>) -> nat {
    ((10 - luhn_sum(digit_values(s)) % 10) % 10) as nat
}

/// Calculates the IMEI check digit of the digits of `imei` (which must not
/// already contain it). Characters other than decimal digits are skipped.
pub fn calculate_check_digit(imei: &str) -> (d: u8)
    ensures
        d == check_digit(imei@),
{
    let v = chars_of(imei);
    check_digit_of_chars(v.as_slice())
}

proof fn lemma_digit_values_push(pre: Seq<char>, c: char)
    ensures
        is_ascii_digit(c) ==> digit_values(pre.push(c)) == digit_values(pre).push(digit_of(c)),
        !is_ascii_digit(c) ==> digit_values(pre.push(c)) == digit_values(pre),
{
    assert(pre.push(c).drop_last() =~= pre);
}

proof fn lemma_luhn_step(ds: Seq<nat>, d: nat, acc: int, t: int)
    requires
        acc == luhn_sum(ds) % 10,
        t == luhn_term(ds.len() as int, d),
        0 <= t < 10,
    ensures
        luhn_sum(ds.push(d)) % 10 == (acc + t) % 10,
{
    assert(ds.push(d).drop_last() =~= ds);
    vstd::arithmetic::div_mod::lemma_add_mod_noop(luhn_sum(ds) as int, t, 10);
}

fn luhn_term_exec(count: usize, d: u64) -> (t: u64)
    requires
        d < 10,
    ensures
        t == luhn_term(count as int, d as nat),
        t < 10,
{
    if count % 2 == 0 {
        d
    } else if 2 * d >= 10 {
        (2 * d) % 10 + 1
    } else {
        2 * d
    }
}

fn check_digit_of_chars(v: &[char]) -> (d: u8)
    ensures
        d == check_digit(v@),
{
    let mut i: usize = 0;
    let mut count: usize = 0;
    let mut acc: u64 = 0;
    while i < v.len()
        invariant
            i <= v@.len(),
            count == digit_values(v@.take(i as int)).len(),
            count <= i,
            acc == luhn_sum(digit_values(v@.take(i as int))) % 10,
        decreases v@.len() - i,
    {
        let c = v[i];
        proof {
            assert(v@.take(i + 1) =~= v@.take(i as int).push(c));
            lemma_digit_values_push(v@.take(i as int), c);
        }
        if '0' <= c && c <= '9' {
            let d: u64 = (c as u64) - ('0' as u64);
            let t = luhn_term_exec(count, d);
            proof {
                lemma_luhn_step(digit_values(v@.take(i as int)), digit_of(c), acc as int, t as int);
            }
            acc = (acc + t) % 10;
            count = count + 1;
        }
        i = i + 1;
    }
    assert(v@.take(v@.len() as int) =~= v@);
    ((10 - acc) % 10) as u8
}

/// A line that holds only an IMEI.
///
/// A line that is not a run of decimal digits is of another type; a run of
/// the wrong length, or with the wrong check digit, is an error.
pub open spec fn spec_imei(line: Seq<char>) -> Result<Seq<char>, AtParseErr> {
    if line.len() == 0 || !all_ascii_digits(line) {
        Err(AtParseErr::Mismatch)
    } else if utf8_len(line) != 15 && utf8_len(line) != 16 {
        Err(AtParseErr::Parsing("Invalid length"))
    } else if digit_of(line.last()) != check_digit(line.drop_last()) {
        Err(AtParseErr::Parsing("Imei number has invalid check digit"))
    } else {
        Ok(line)
    }
}

fn all_digits_exec(s: &[char]) -> (b: bool)
    ensures
        b == all_ascii_digits(s@),
{
    let mut i: usize = 0;
    while i < s.len()
        invariant
            i <= s@.len(),
            forall|j: int| 0 <= j < i ==> is_ascii_digit(#[trigger] s@[j]),
        decreases s@.len() - i,
    {
        if !('0' <= s[i] && s[i] <= '9') {
            return false;
        }
        i = i + 1;
    }
    true
}

impl Imei {
    pub fn from_chars(line: &[char]) -> (r: Result<Self, AtParseErr>)
        ensures
            match r {
                Ok(imei) => spec_imei(line@) == Ok::<Seq<char>, AtParseErr>(imei@),
                Err(e) => spec_imei(line@) == Err::<Seq<char>, AtParseErr>(e),
            },
    {
        if line.len() == 0 || !all_digits_exec(line) {
            return Err(AtParseErr::Mismatch);
        }
        proof {
            lemma_ascii_utf8_len(line@);
        }
        let n = line.len();
        if n != 15 && n != 16 {
            return Err(AtParseErr::Parsing("Invalid length"));
        }
        let prefix = vstd::slice::slice_subrange(line, 0, n - 1);
        let expected = check_digit_of_chars(prefix);
        let provided = (line[n - 1] as u32) - ('0' as u32);
        assert(prefix@ =~= line@.drop_last());
        if provided != expected as u32 {
            return Err(AtParseErr::Parsing("Imei number has invalid check digit"));
        }
        Ok(Imei { imei: string_from_chars(line) })
    }
}

impl AtParseLine for Imei {
    open spec fn spec_from_line(line: Seq<char>, instant: Instant) -> Result<Seq<char>, AtParseErr> {
        spec_imei(line)
    }

    fn from_line(line: &str, instant: &Instant) -> (r: Result<Self, AtParseErr>) {
        let v = chars_of(line);
        Self::from_chars(v.as_slice())
    }
}

/// Appending its check digit to fourteen decimal digits makes an IMEI that
/// the parser accepts.
pub proof fn law_check_digit_completes_imei(body: Seq<char>)
    requires
        body.len() == 14,
        all_ascii_digits(body),
    ensures
        spec_imei(body.push(digit_char(check_digit(body)))) == Ok::<Seq<char>, AtParseErr>(
            body.push(digit_char(check_digit(body))),
        ),
{
    let d = check_digit(body);
    let line = body.push(digit_char(d));
    assert(d < 10);
    assert(is_ascii_digit(digit_char(d)));
    assert forall|i: int| 0 <= i < line.len() implies is_ascii_digit(#[trigger] line[i]) by {
        if i < 14 {
            assert(line[i] == body[i]);
        }
    }
    lemma_ascii_utf8_len(line);
    assert(line.drop_last() =~= body);
    assert(digit_of(digit_char(d)) == d);
}

/// With its check digit after an even number of digits, the Luhn sum of
/// an IMEI is a multiple of ten.
pub proof fn law_check_digit_balances_luhn_sum(body: Seq<char>)
    requires
        digit_values(body).len() % 2 == 0,
    ensures
        luhn_sum(digit_values(body.push(digit_char(check_digit(body))))) % 10 == 0,
{
    let d = check_digit(body);
    let ds = digit_values(body);
    assert(d < 10);
    assert(is_ascii_digit(digit_char(d)));
    assert(digit_of(digit_char(d)) == d);
    lemma_digit_values_push(body, digit_char(d));
    assert(ds.push(d).drop_last() =~= ds);
    assert(luhn_term(ds.len() as int, d) == d);
    let sum = luhn_sum(ds);
    assert(luhn_sum(ds.push(d)) == sum + d);
    assert((sum + (10 - sum % 10) % 10) % 10 == 0) by (nonlinear_arith);
}

} // verus!
