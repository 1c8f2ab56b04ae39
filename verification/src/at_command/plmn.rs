//! Mobile country and network codes.
use vstd::prelude::*;
use crate::numeral::{all_ascii_digits, is_ascii_digit, lemma_ascii_utf8_len};
use crate::out::{decimal, digit_char, decimal_padded, lemma_decimal_len, lemma_decimal_padded_reads_back, pow10, push_decimal_padded};
use crate::text::{digit_value, digits_value, parse_unsigned, parse_unsigned_exec, utf8_len, fits_in_bytes, chars_of};

verus! {

/// Mobile country code.
#[derive(Default, Debug, Clone, Copy, PartialEq, Eq, PartialOrd, Ord)]
pub struct Mcc(u16);

/// Whether a network code was written with two or three digits.
#[derive(Debug, Clone, Copy, PartialEq, Eq, PartialOrd, Ord)]
pub enum MncLen {
    Short,
    Long,
}

impl Default for MncLen {
    fn default() -> (l: Self)
        ensures
            l == MncLen::Long,
    {
        Self::Long
    }
}

/// Mobile network code.
#[derive(Debug, Clone, Copy, PartialEq, Eq, PartialOrd, Ord)]
pub struct Mnc(u16, MncLen);

impl Default for Mnc {
    fn default() -> (m: Self)
        ensures
            m == Mnc::spec_new(0, false),
    {
        Mnc(0, MncLen::Long)
    }
}

/// A code of `len` bytes, read as a decimal number (`u16::from_str_radix`).
pub open spec fn spec_code(digits: Seq<char>, len: nat) -> Option<u16> {
    if utf8_len(digits) == len {
        match parse_unsigned(digits, 10, u16::MAX as nat) {
            Some(v) => Some(v as u16),
            None => None,
        }
    } else {
        None
    }
}

fn code_exec(digits: &[char], len: usize) -> (r: Option<u16>)
    requires
        len >= 1,
    ensures
        r == spec_code(digits@, len as nat),
{
    if fits_in_bytes(digits, len) && !fits_in_bytes(digits, len - 1) {
        match parse_unsigned_exec(digits, 10, u16::MAX as u64) {
            Some(v) => Some(v as u16),
            None => None,
        }
    } else {
        None
    }
}

impl Mcc {
    pub closed spec fn num(&self) -> u16 {
        self.0
    }

    pub closed spec fn spec_new(num: u16) -> Mcc {
        Mcc(num)
    }

    pub broadcast proof fn lemma_new(num: u16)
        ensures
            #[trigger] Mcc::spec_new(num).num() == num,
    {
    }


    pub fn new(num: u16) -> (m: Self)
        ensures
            m == Mcc::spec_new(num),
    {
        Self(num)
    }

    /// Reads a three-byte decimal code.
    pub open spec fn spec_from_str(digits: Seq<char>) -> Option<Mcc> {
        match spec_code(digits, 3) {
            Some(v) => Some(Mcc::spec_new(v)),
            None => None,
        }
    }

    pub fn from_chars(digits: &[char]) -> (m: Option<Self>)
        ensures
            m == Self::spec_from_str(digits@),
    {
        match code_exec(digits, 3) {
            Some(v) => Some(Self(v)),
            None => None,
        }
    }

    pub fn from_str(digits: &str) -> (m: Option<Self>)
        ensures
            m == Self::spec_from_str(digits@),
    {
        let v = chars_of(digits);
        Self::from_chars(v.as_slice())
    }

    pub fn to_num(&self) -> (n: u16)
        ensures
            n == self.num(),
    {
        self.0
    }

    /// The code as three zero-padded digits.
    pub fn format(&self) -> (s: String)
        ensures
            s@ == decimal_padded(self.num() as nat, 3),
    {
        let mut s = String::new();
        push_decimal_padded(&mut s, self.0 as u64, 3);
        s
    }
}

impl Mnc {
    pub closed spec fn num(&self) -> u16 {
        self.0
    }

    pub closed spec fn short(&self) -> bool {
        self.1 == MncLen::Short
    }

    pub closed spec fn spec_new(num: u16, short: bool) -> Mnc {
        Mnc(num, if short { MncLen::Short } else { MncLen::Long })
    }

    pub broadcast proof fn lemma_new(num: u16, short: bool)
        ensures
            #[trigger] Mnc::spec_new(num, short).num() == num,
            Mnc::spec_new(num, short).short() == short,
    {
    }


    pub fn new_short(num: u16) -> (m: Self)
        ensures
            m == Mnc::spec_new(num, true),
    {
        Self(num, MncLen::Short)
    }

    pub fn new_long(num: u16) -> (m: Self)
        ensures
            m == Mnc::spec_new(num, false),
    {
        Self(num, MncLen::Long)
    }

    /// Reads a three-byte (long) or two-byte (short) decimal code.
    pub open spec fn spec_from_str(digits: Seq<char>) -> Option<Mnc> {
        match spec_code(digits, 3) {
            Some(v) => Some(Mnc::spec_new(v, false)),
            None => match spec_code(digits, 2) {
                Some(v) => Some(Mnc::spec_new(v, true)),
                None => None,
            },
        }
    }

    pub fn from_chars(digits: &[char]) -> (m: Option<Self>)
        ensures
            m == Self::spec_from_str(digits@),
    {
        match code_exec(digits, 3) {
            Some(v) => Some(Self(v, MncLen::Long)),
            None => match code_exec(digits, 2) {
                Some(v) => Some(Self(v, MncLen::Short)),
                None => None,
            },
        }
    }

    pub fn from_str(digits: &str) -> (m: Option<Self>)
        ensures
            m == Self::spec_from_str(digits@),
    {
        let v = chars_of(digits);
        Self::from_chars(v.as_slice())
    }

    /// The numeric code; how many digits it was written with is lost.
    pub fn to_num(&self) -> (n: u16)
        ensures
            n == self.num(),
    {
        self.0
    }

    pub fn is_two_digits(&self) -> (b: bool)
        ensures
            b == self.short(),
    {
        match self.1 {
            MncLen::Short => true,
            MncLen::Long => false,
        }
    }

    /// The code, zero-padded to the number of digits it was written with.
    pub fn format(&self) -> (s: String)
        ensures
            s@ == decimal_padded(self.num() as nat, if self.short() { 2 } else { 3 }),
    {
        let mut s = String::new();
        match self.1 {
            MncLen::Long => push_decimal_padded(&mut s, self.0 as u64, 3),
            MncLen::Short => push_decimal_padded(&mut s, self.0 as u64, 2),
        }
        s
    }
}

/// The zero-padded code of width `w` reads back as `n` where it fits.
proof fn lemma_code_round_trip(n: u16, w: nat)
    requires
        w == 2 || w == 3,
        n < pow10(w),
    ensures
        spec_code(decimal_padded(n as nat, w), w) == Some(n),
        utf8_len(decimal_padded(n as nat, w)) == w,
{
    reveal_with_fuel(pow10, 4);
    lemma_decimal_padded_reads_back(n as nat, w, u16::MAX as nat);
    lemma_decimal_len(n as nat, w);
    lemma_ascii_utf8_len(decimal_padded(n as nat, w));
}

/// Formatting a country code of at most three digits and reading the text
/// back gives the same code.
pub proof fn law_mcc_format_round_trip(m: Mcc)
    requires
        m.num() < 1000,
    ensures
        Mcc::spec_from_str(decimal_padded(m.num() as nat, 3)) == Some(m),
{
    reveal_with_fuel(pow10, 4);
    lemma_code_round_trip(m.num(), 3);
}

/// Formatting a network code that fits its width (two digits for a short
/// code, three for a long one) and reading the text back gives the same
/// code, its width included.
pub proof fn law_mnc_format_round_trip(m: Mnc)
    requires
        m.short() ==> m.num() < 100,
        !m.short() ==> m.num() < 1000,
    ensures
        Mnc::spec_from_str(decimal_padded(m.num() as nat, if m.short() { 2 } else { 3 })) == Some(
            m,
        ),
{
    reveal_with_fuel(pow10, 4);
    if m.short() {
        lemma_code_round_trip(m.num(), 2);
    } else {
        lemma_code_round_trip(m.num(), 3);
    }
}

/// The value of an ASCII digit, and the digit of that value.
proof fn lemma_digit_round(c: char)
    requires
        is_ascii_digit(c),
    ensures
        digit_value(c, 10) == Some((c as int - '0' as int) as nat),
        (c as int - '0' as int) < 10,
        digit_char((c as int - '0' as int) as nat) == c,
{
}

/// Two or three ASCII digits read as a number that, padded to their count,
/// gives the same digits.
proof fn lemma_code_digits(s: Seq<char>)
    requires
        s.len() == 2 || s.len() == 3,
        all_ascii_digits(s),
    ensures
        parse_unsigned(s, 10, u16::MAX as nat) == Some(digits_value(s, 10)),
        decimal_padded(digits_value(s, 10), s.len()) == s,
        utf8_len(s) == s.len(),
        digits_value(s, 10) < 1000,
{
    lemma_ascii_utf8_len(s);
    assert(is_ascii_digit(s[0]) && is_ascii_digit(s[1]));
    lemma_digit_round(s[0]);
    lemma_digit_round(s[1]);
    let a = (s[0] as int - '0' as int) as nat;
    let b = (s[1] as int - '0' as int) as nat;
    reveal_with_fuel(digits_value, 4);
    reveal_with_fuel(decimal, 4);
    if s.len() == 2 {
        assert(s.drop_last().drop_last() =~= Seq::<char>::empty());
        assert(s.drop_last() =~= seq![s[0]]);
        let v = a * 10 + b;
        assert(digits_value(s, 10) == v);
        assert(v / 10 == a && v % 10 == b) by (nonlinear_arith)
            requires
                v == a * 10 + b,
                a < 10,
                b < 10,
        ;
        if a == 0 {
            assert(decimal(v) =~= seq![digit_char(b)]);
            assert(decimal_padded(v, 2) =~= s);
        } else {
            assert(decimal(v) =~= seq![digit_char(a), digit_char(b)]);
            assert(decimal_padded(v, 2) =~= s);
        }
    } else {
        assert(is_ascii_digit(s[2]));
        lemma_digit_round(s[2]);
        let c = (s[2] as int - '0' as int) as nat;
        assert(s.drop_last().drop_last().drop_last() =~= Seq::<char>::empty());
        assert(s.drop_last().drop_last() =~= seq![s[0]]);
        assert(s.drop_last() =~= seq![s[0], s[1]]);
        let v = (a * 10 + b) * 10 + c;
        assert(digits_value(s, 10) == v);
        assert(v / 10 == a * 10 + b && v % 10 == c && (a * 10 + b) / 10 == a && (a * 10 + b) % 10
            == b && v < 1000) by (nonlinear_arith)
            requires
                v == (a * 10 + b) * 10 + c,
                a < 10,
                b < 10,
                c < 10,
        ;
        if a == 0 && b == 0 {
            assert(decimal(v) =~= seq![digit_char(c)]);
        } else if a == 0 {
            assert(decimal(v) =~= seq![digit_char(b), digit_char(c)]);
        } else {
            assert(decimal(v) =~= seq![digit_char(a), digit_char(b), digit_char(c)]);
        }
        assert(decimal_padded(v, 3) =~= s);
    }
    assert(s[0] != '+');
}

/// Three ASCII digits read as a country code that formats as the same
/// digits.
pub proof fn law_mcc_from_str_format(s: Seq<char>)
    requires
        s.len() == 3,
        all_ascii_digits(s),
    ensures
        Mcc::spec_from_str(s) is Some,
        decimal_padded(Mcc::spec_from_str(s)->0.num() as nat, 3) == s,
{
    lemma_code_digits(s);
}

/// Two or three ASCII digits read as a network code that formats as the
/// same digits: zero-padded to two digits for a two-digit code, to three
/// for a three-digit one.
pub proof fn law_mnc_from_str_format(s: Seq<char>)
    requires
        s.len() == 2 || s.len() == 3,
        all_ascii_digits(s),
    ensures
        Mnc::spec_from_str(s) is Some,
        Mnc::spec_from_str(s)->0.short() == (s.len() == 2),
        decimal_padded(
            Mnc::spec_from_str(s)->0.num() as nat,
            if Mnc::spec_from_str(s)->0.short() {
                2
            } else {
                3
            },
        ) == s,
{
    lemma_code_digits(s);
}

} // verus!
