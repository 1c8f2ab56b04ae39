//! Real-number fields of responses.
//!
//! The modem reports coordinates, speeds and dilutions of precision as
//! decimal numerals. The library keeps such a field as its text, checked
//! against the syntax that `f32::from_str` accepts, so that every kept
//! field converts to a number.
use vstd::prelude::*;
use crate::text::{chars_of, find_char, find_char_exec, lemma_find_char_bounds, utf8_len};

verus! {

pub open spec fn is_ascii_digit(c: char) -> bool {
    '0' <= c && c <= '9'
}

pub open spec fn all_ascii_digits(s: Seq<char>) -> bool {
    forall|i: int| 0 <= i < s.len() ==> is_ascii_digit(#[trigger] s[i])
}

pub open spec fn is_sign(c: char) -> bool {
    c == '+' || c == '-'
}

pub open spec fn is_exponent_marker(c: char) -> bool {
    c == 'e' || c == 'E'
}

/// `s` without a leading sign.
pub open spec fn unsigned_part(s: Seq<char>) -> Seq<char> {
    if s.len() > 0 && is_sign(s[0]) {
        s.drop_first()
    } else {
        s
    }
}

/// `s` spells the lower-case ASCII word `w`, each letter in either case.
pub open spec fn is_word_ignoring_case(s: Seq<char>, w: Seq<char>) -> bool {
    s.len() == w.len() && forall|i: int|
        0 <= i < s.len() ==> (#[trigger] s[i] == w[i] || s[i] as u32 + 32 == w[i] as u32)
}

/// `Digit+ | Digit+ '.' Digit* | Digit* '.' Digit+`
pub open spec fn mantissa_syntax(m: Seq<char>) -> bool {
    ||| m.len() > 0 && all_ascii_digits(m)
    ||| exists|d: int|
        0 <= d < m.len() && #[trigger] m[d] == '.' && m.len() > 1 && all_ascii_digits(m.take(d))
            && all_ascii_digits(m.skip(d + 1))
}

/// `Sign? Digit+`, after the exponent marker.
pub open spec fn exponent_syntax(e: Seq<char>) -> bool {
    let d = unsigned_part(e);
    d.len() > 0 && all_ascii_digits(d)
}

/// `Mantissa Exp?` with `Exp ::= ('e' | 'E') Sign? Digit+`
pub open spec fn number_syntax(u: Seq<char>) -> bool {
    ||| mantissa_syntax(u)
    ||| exists|k: int|
        0 <= k < u.len() && is_exponent_marker(#[trigger] u[k]) && mantissa_syntax(u.take(k))
            && exponent_syntax(u.skip(k + 1))
}

/// The text that `f32::from_str` accepts: an optional sign, then `inf`,
/// `infinity` or `nan` in any case, or a decimal number with an optional
/// exponent. No whitespace is allowed.
pub open spec fn float_syntax(s: Seq<char>) -> bool {
    let u = unsigned_part(s);
    ||| is_word_ignoring_case(u, "inf"@)
    ||| is_word_ignoring_case(u, "infinity"@)
    ||| is_word_ignoring_case(u, "nan"@)
    ||| number_syntax(u)
}

/// The field kept as text where it is a numeral, and nothing otherwise.
pub open spec fn spec_real_field(s: Seq<char>) -> Option<Seq<char>> {
    if float_syntax(s) {
        Some(s)
    } else {
        None
    }
}

pub open spec fn view_real(r: Option<String>) -> Option<Seq<char>> {
    match r {
        Some(s) => Some(s@),
        None => None,
    }
}

/// Text of ASCII digits takes one byte per character.
pub proof fn lemma_ascii_utf8_len(s: Seq<char>)
    requires
        all_ascii_digits(s),
    ensures
        utf8_len(s) == s.len(),
    decreases s.len(),
{
    if s.len() > 0 {
        assert(is_ascii_digit(s[s.len() - 1]));
        assert forall|i: int| 0 <= i < s.drop_last().len() implies is_ascii_digit(
            #[trigger] s.drop_last()[i],
        ) by {
            assert(s.drop_last()[i] == s[i]);
        }
        lemma_ascii_utf8_len(s.drop_last());
    }
}

fn all_ascii_digits_exec(s: &[char]) -> (b: bool)
    ensures
        b == all_ascii_digits(s@),
{
    let mut i: usize = 0;
    while i < s.len()
        invariant
            i <= s@.len(),
            forall|j: int| 0 <= j < i ==> is_ascii_digit(#[trigger] s@[j]),
        decreases s@.len() - i,
    {
        if !('0' <= s[i] && s[i] <= '9') {
            return false;
        }
        i = i + 1;
    }
    true
}

fn unsigned_part_exec(s: &[char]) -> (u: &[char])
    ensures
        u@ == unsigned_part(s@),
{
    if s.len() > 0 && (s[0] == '+' || s[0] == '-') {
        vstd::slice::slice_subrange(s, 1, s.len())
    } else {
        s
    }
}

fn is_word_exec(s: &[char], word: &str) -> (b: bool)
    ensures
        b == is_word_ignoring_case(s@, word@),
{
    let w = chars_of(word);
    if s.len() != w.len() {
        return false;
    }
    let mut i: usize = 0;
    while i < s.len()
        invariant
            i <= s@.len(),
            s@.len() == w@.len(),
            w@ == word@,
            forall|j: int|
                0 <= j < i ==> (#[trigger] s@[j] == w@[j] || s@[j] as u32 + 32 == w@[j] as u32),
        decreases s@.len() - i,
    {
        let c = s[i];
        let l = w[i];
        if !(c == l || ((l as u32) >= 32 && (c as u32) == (l as u32) - 32)) {
            return false;
        }
        i = i + 1;
    }
    true
}

fn mantissa_exec(m: &[char]) -> (b: bool)
    ensures
        b == mantissa_syntax(m@),
{
    proof {
        lemma_find_char_bounds(m@, '.');
    }
    match find_char_exec(m, '.') {
        None => {
            let r = m.len() > 0 && all_ascii_digits_exec(m);
            proof {
                if exists|d: int|
                    0 <= d < m@.len() && #[trigger] m@[d] == '.' && m@.len() > 1 && all_ascii_digits(
                        m@.take(d),
                    ) && all_ascii_digits(m@.skip(d + 1)) {
                    let d = choose|d: int|
                        0 <= d < m@.len() && #[trigger] m@[d] == '.' && m@.len() > 1
                            && all_ascii_digits(m@.take(d)) && all_ascii_digits(m@.skip(d + 1));
                    assert(m@[d] != '.');
                }
            }
            r
        },
        Some(d) => {
            assert(d < m.len());
            let a = vstd::slice::slice_subrange(m, 0, d);
            let b = vstd::slice::slice_subrange(m, d + 1, m.len());
            let r = m.len() > 1 && all_ascii_digits_exec(a) && all_ascii_digits_exec(b);
            proof {
                assert(a@ =~= m@.take(d as int));
                assert(b@ =~= m@.skip(d + 1));
                assert(!is_ascii_digit(m@[d as int]));
                if exists|e: int|
                    0 <= e < m@.len() && #[trigger] m@[e] == '.' && m@.len() > 1 && all_ascii_digits(
                        m@.take(e),
                    ) && all_ascii_digits(m@.skip(e + 1)) {
                    let e = choose|e: int|
                        0 <= e < m@.len() && #[trigger] m@[e] == '.' && m@.len() > 1
                            && all_ascii_digits(m@.take(e)) && all_ascii_digits(m@.skip(e + 1));
                    if e > d {
                        assert(m@.take(e)[d as int] == '.');
                    }
                    assert(e == d);
                }
            }
            r
        },
    }
}

fn exponent_exec(e: &[char]) -> (b: bool)
    ensures
        b == exponent_syntax(e@),
{
    let d = unsigned_part_exec(e);
    d.len() > 0 && all_ascii_digits_exec(d)
}

proof fn lemma_mantissa_no_marker(m: Seq<char>, i: int)
    requires
        mantissa_syntax(m),
        0 <= i < m.len(),
    ensures
        !is_exponent_marker(m[i]),
{
    if !(m.len() > 0 && all_ascii_digits(m)) {
        let d = choose|d: int|
            0 <= d < m.len() && #[trigger] m[d] == '.' && m.len() > 1 && all_ascii_digits(m.take(d))
                && all_ascii_digits(m.skip(d + 1));
        if i < d {
            assert(m.take(d)[i] == m[i]);
        } else if i > d {
            assert(m.skip(d + 1)[i - d - 1] == m[i]);
        }
    }
}

fn number_exec(u: &[char]) -> (b: bool)
    ensures
        b == number_syntax(u@),
{
    let mut k: usize = 0;
    while k < u.len() && !(u[k] == 'e' || u[k] == 'E')
        invariant
            k <= u@.len(),
            forall|j: int| 0 <= j < k ==> !is_exponent_marker(#[trigger] u@[j]),
        decreases u@.len() - k,
    {
        k = k + 1;
    }
    if k == u.len() {
        let r = mantissa_exec(u);
        proof {
            if exists|k: int|
                0 <= k < u@.len() && is_exponent_marker(#[trigger] u@[k]) && mantissa_syntax(
                    u@.take(k),
                ) && exponent_syntax(u@.skip(k + 1)) {
                let k = choose|k: int|
                    0 <= k < u@.len() && is_exponent_marker(#[trigger] u@[k]) && mantissa_syntax(
                        u@.take(k),
                    ) && exponent_syntax(u@.skip(k + 1));
                assert(!is_exponent_marker(u@[k]));
            }
        }
        r
    } else {
        let m = vstd::slice::slice_subrange(u, 0, k);
        let e = vstd::slice::slice_subrange(u, k + 1, u.len());
        let r = mantissa_exec(m) && exponent_exec(e);
        proof {
            assert(m@ =~= u@.take(k as int));
            assert(e@ =~= u@.skip(k + 1));
            assert(is_exponent_marker(u@[k as int]));
            if mantissa_syntax(u@) {
                lemma_mantissa_no_marker(u@, k as int);
            }
            if exists|j: int|
                0 <= j < u@.len() && is_exponent_marker(#[trigger] u@[j]) && mantissa_syntax(
                    u@.take(j),
                ) && exponent_syntax(u@.skip(j + 1)) {
                let j = choose|j: int|
                    0 <= j < u@.len() && is_exponent_marker(#[trigger] u@[j]) && mantissa_syntax(
                        u@.take(j),
                    ) && exponent_syntax(u@.skip(j + 1));
                if j > k {
                    lemma_mantissa_no_marker(u@.take(j), k as int);
                }
                assert(j == k);
            }
        }
        r
    }
}

/// Whether `s` is text that `f32::from_str` accepts.
pub fn is_float_syntax(s: &[char]) -> (b: bool)
    ensures
        b == float_syntax(s@),
{
    let u = unsigned_part_exec(s);
    is_word_exec(u, "inf") || is_word_exec(u, "infinity") || is_word_exec(u, "nan") || number_exec(u)
}

/// A real-number field: its text where it is a numeral, else nothing.
pub fn real_field(s: &[char]) -> (r: Option<String>)
    ensures
        view_real(r) == spec_real_field(s@),
{
    if is_float_syntax(s) {
        Some(crate::text::string_from_chars(s))
    } else {
        None
    }
}

/// Decimal numerals are real numbers: a run of digits, with or without a fraction
/// after a point (either side of the point may be empty, not both), signed or not, and
/// with an exponent after `e` or `E`. Text with a character outside that grammar, such
/// as a comma, is not one.
pub proof fn law_decimal_numerals(whole: Seq<char>, fraction: Seq<char>, exponent: Seq<char>, sign: char)
    requires
        all_ascii_digits(whole),
        all_ascii_digits(fraction),
        all_ascii_digits(exponent),
        whole.len() + fraction.len() > 0,
        exponent.len() > 0,
        is_sign(sign),
    ensures
        float_syntax(whole + seq!['.'] + fraction),
        float_syntax(seq![sign] + whole + seq!['.'] + fraction),
        float_syntax(whole + seq!['.'] + fraction + seq!['e'] + exponent),
        float_syntax(whole + seq!['.'] + fraction + seq!['E', sign] + exponent),
        whole.len() > 0 ==> float_syntax(whole) && float_syntax(seq![sign] + whole),
        !float_syntax(whole + seq![','] + fraction),
{
    let m = whole + seq!['.'] + fraction;
    let d = whole.len() as int;
    assert(m[d] == '.');
    assert(m.take(d) =~= whole);
    assert(m.skip(d + 1) =~= fraction);
    assert(mantissa_syntax(m));
    assert(unsigned_part(m) == m) by {
        if d > 0 {
            assert(m[0] == whole[0]);
        }
    }
    let sm = seq![sign] + m;
    assert(unsigned_part(sm) =~= m);
    let e1 = m + seq!['e'] + exponent;
    assert(e1[m.len() as int] == 'e');
    assert(e1.take(m.len() as int) =~= m);
    assert(e1.skip(m.len() as int + 1) =~= exponent);
    assert(unsigned_part(exponent) == exponent) by {
        assert(is_ascii_digit(exponent[0]));
    }
    assert(unsigned_part(e1) == e1) by {
        assert(e1[0] == m[0]);
    }
    let e2 = m + seq!['E', sign] + exponent;
    assert(e2[m.len() as int] == 'E');
    assert(e2.take(m.len() as int) =~= m);
    assert(e2.skip(m.len() as int + 1) =~= seq![sign] + exponent);
    assert(unsigned_part(seq![sign] + exponent) =~= exponent);
    assert(unsigned_part(e2) == e2) by {
        assert(e2[0] == m[0]);
    }
    if whole.len() > 0 {
        assert(unsigned_part(whole) == whole) by {
            assert(is_ascii_digit(whole[0]));
        }
        assert(unsigned_part(seq![sign] + whole) =~= whole);
    }
    let c = whole + seq![','] + fraction;
    assert(c[d] == ',');
    assert(unsigned_part(c) == c) by {
        if d > 0 {
            assert(is_ascii_digit(c[0]));
        }
    }
    assert(!float_syntax(c)) by {
        reveal_strlit("inf");
        reveal_strlit("infinity");
        reveal_strlit("nan");
        assert(!all_ascii_digits(c));
        assert forall|k: int| 0 <= k < c.len() implies #[trigger] c[k] != '.' && !is_exponent_marker(
            c[k],
        ) by {
            if k < d {
                assert(c[k] == whole[k]);
            } else if k > d {
                assert(c[k] == fraction[k - d - 1]);
            }
        }
        if is_word_ignoring_case(c, "inf"@) || is_word_ignoring_case(c, "infinity"@)
            || is_word_ignoring_case(c, "nan"@) {
            assert(c[d] == ',');
            assert(c[d] as u32 == 44);
        }
    }
}

} // verus!
