//! Building request text: literals, decimal and binary numbers.
use vstd::prelude::*;
use crate::numeral::{all_ascii_digits, is_ascii_digit};
use crate::text::{all_digits, digit_value, digits_value, magnitude, parse_unsigned};

verus! {

pub open spec fn digit_char(d: nat) -> char {
    if d == 0 { '0' } else if d == 1 { '1' } else if d == 2 { '2' } else if d == 3 { '3' }
    else if d == 4 { '4' } else if d == 5 { '5' } else if d == 6 { '6' } else if d == 7 { '7' }
    else if d == 8 { '8' } else { '9' }
}

/// Decimal digits of `n`, without leading zeros (`{}` formatting).
pub open spec fn decimal(n: nat) -> Seq<char>
    decreases n,
{
    if n < 10 {
        seq![digit_char(n)]
    } else {
        decimal(n / 10) + seq![digit_char(n % 10)]
    }
}

/// `{}` formatting of a signed integer.
pub open spec fn signed_decimal(n: int) -> Seq<char> {
    if n < 0 {
        seq!['-'] + decimal((-n) as nat)
    } else {
        decimal(n as nat)
    }
}

/// `{:0w$b}` formatting: binary digits of `n`, padded with zeros to `w`.
pub open spec fn binary_padded(n: nat, w: nat) -> Seq<char>
    decreases n + w,
{
    if n < 2 && w <= 1 {
        seq![digit_char(n)]
    } else {
        binary_padded(n / 2, if w > 0 { (w - 1) as nat } else { 0 }) + seq![digit_char(n % 2)]
    }
}

/// Calls `String::push`, which appends one character.
#[verifier::external_body]
pub(crate) fn push_char(s: &mut String, c: char)
    ensures
        final(s)@ == old(s)@.push(c),
{
    s.push(c)
}

pub fn digit(d: u64) -> (c: char)
    requires
        d < 10,
    ensures
        c == digit_char(d as nat),
{
    if d == 0 { '0' } else if d == 1 { '1' } else if d == 2 { '2' } else if d == 3 { '3' }
    else if d == 4 { '4' } else if d == 5 { '5' } else if d == 6 { '6' } else if d == 7 { '7' }
    else if d == 8 { '8' } else { '9' }
}

pub fn push_decimal(s: &mut String, n: u64)
    ensures
        final(s)@ == old(s)@ + decimal(n as nat),
    decreases n,
{
    if n >= 10 {
        push_decimal(s, n / 10);
    }
    push_char(s, digit(n % 10));
    proof {
        assert(n < 10 ==> n % 10 == n);
    }
}

/// `{:0w$}` formatting: decimal digits of `n`, padded with zeros to `w`.
pub open spec fn decimal_padded(n: nat, w: nat) -> Seq<char> {
    let d = decimal(n);
    if d.len() < w {
        Seq::new((w - d.len()) as nat, |i: int| '0') + d
    } else {
        d
    }
}

pub fn decimal_len(n: u64) -> (k: u64)
    ensures
        k == decimal(n as nat).len(),
        1 <= k <= n as int + 1,
    decreases n,
{
    if n < 10 {
        1
    } else {
        decimal_len(n / 10) + 1
    }
}

pub fn push_decimal_padded(s: &mut String, n: u64, w: usize)
    ensures
        final(s)@ == old(s)@ + decimal_padded(n as nat, w as nat),
{
    let k = decimal_len(n);
    let ghost start = s@;
    if k < w as u64 {
        let k = k as usize;
        let mut i: usize = 0;
        while i < w - k
            invariant
                k == decimal(n as nat).len(),
                k < w,
                i <= w - k,
                s@ == start + Seq::new(i as nat, |j: int| '0'),
            decreases w - k - i,
        {
            push_char(s, '0');
            i = i + 1;
            assert(s@ =~= start + Seq::new(i as nat, |j: int| '0'));
        }
    }
    push_decimal(s, n);
    assert(s@ =~= start + decimal_padded(n as nat, w as nat));
}

pub fn push_signed_decimal(s: &mut String, n: i64)
    ensures
        final(s)@ == old(s)@ + signed_decimal(n as int),
{
    if n < 0 {
        push_char(s, '-');
        let m: u64 = (0i128 - n as i128) as u64;
        push_decimal(s, m);
    } else {
        push_decimal(s, n as u64);
    }
}

pub fn push_binary_padded(s: &mut String, n: u64, w: u64)
    ensures
        final(s)@ == old(s)@ + binary_padded(n as nat, w as nat),
    decreases n + w,
{
    if n < 2 && w <= 1 {
        push_char(s, digit(n));
    } else {
        push_binary_padded(s, n / 2, if w > 0 { w - 1 } else { 0 });
        push_char(s, digit(n % 2));
    }
}

// ---------------------------------------------------------------- reading back

pub proof fn lemma_digit_char(d: nat, radix: nat)
    requires
        d < 10,
        10 <= radix <= 36,
    ensures
        digit_value(digit_char(d), radix) == Some(d),
        is_ascii_digit(digit_char(d)),
{
}

/// `10^k`
pub open spec fn pow10(k: nat) -> nat
    decreases k,
{
    if k == 0 {
        1
    } else {
        10 * pow10((k - 1) as nat)
    }
}

/// The decimal digits of `n` are ASCII digits that read back as `n`.
pub proof fn lemma_decimal_reads_back(n: nat)
    ensures
        decimal(n).len() >= 1,
        all_ascii_digits(decimal(n)),
        all_digits(decimal(n), 10),
        digits_value(decimal(n), 10) == n,
    decreases n,
{
    lemma_digit_char(n % 10, 10);
    if n >= 10 {
        lemma_decimal_reads_back(n / 10);
        let s = decimal(n);
        assert(s.drop_last() =~= decimal(n / 10));
        assert(s.last() == digit_char(n % 10));
        assert(digits_value(s, 10) == digits_value(decimal(n / 10), 10) * 10 + n % 10);
        assert forall|i: int| 0 <= i < s.len() implies is_ascii_digit(#[trigger] s[i]) by {
            if i < s.len() - 1 {
                assert(s[i] == decimal(n / 10)[i]);
            }
        }
        assert forall|i: int| 0 <= i < s.len() implies (#[trigger] digit_value(s[i], 10)) is Some by {
            if i < s.len() - 1 {
                assert(s[i] == decimal(n / 10)[i]);
            }
        }
    } else {
        assert(decimal(n).drop_last() =~= Seq::<char>::empty());
        assert(digits_value(decimal(n), 10) == digits_value(Seq::<char>::empty(), 10) * 10 + n);
    }
}

/// `n` has at most `k` decimal digits where it is below `10^k`.
pub proof fn lemma_decimal_len(n: nat, k: nat)
    requires
        k >= 1,
        n < pow10(k),
    ensures
        decimal(n).len() <= k,
    decreases n,
{
    if n >= 10 {
        if k == 1 {
            assert(pow10(1) == 10) by {
                reveal_with_fuel(pow10, 2);
            }
        } else {
            assert(n / 10 < pow10((k - 1) as nat)) by (nonlinear_arith)
                requires
                    n < 10 * pow10((k - 1) as nat),
            ;
            lemma_decimal_len(n / 10, (k - 1) as nat);
        }
    }
}

/// Leading zeros do not change the value of a digit string.
pub proof fn lemma_leading_zeros(k: nat, d: Seq<char>, radix: nat)
    requires
        2 <= radix <= 36,
    ensures
        digits_value(Seq::new(k, |i: int| '0') + d, radix) == digits_value(d, radix),
    decreases d.len(), k,
{
    let z = Seq::new(k, |i: int| '0');
    if d.len() == 0 {
        assert(z + d =~= z);
        if k > 0 {
            let z1 = Seq::new((k - 1) as nat, |i: int| '0');
            assert(z.drop_last() =~= z1);
            lemma_leading_zeros((k - 1) as nat, d, radix);
            assert(z1 + d =~= z1);
            assert(digit_value(z.last(), radix) == Some(0nat));
            assert(digits_value(z, radix) == digits_value(z1, radix) * radix + 0);
            assert(digits_value(z1, radix) == 0);
            assert(0 * radix == 0);
        }
    } else {
        assert((z + d).drop_last() =~= z + d.drop_last());
        assert((z + d).last() == d.last());
        lemma_leading_zeros(k, d.drop_last(), radix);
    }
}

/// The zero-padded decimal digits of `n` are ASCII digits, `w` of them
/// where `n` fits, and read back as `n`.
pub proof fn lemma_decimal_padded_reads_back(n: nat, w: nat, max: nat)
    requires
        n <= max,
    ensures
        all_ascii_digits(decimal_padded(n, w)),
        parse_unsigned(decimal_padded(n, w), 10, max) == Some(n),
        decimal(n).len() <= w ==> decimal_padded(n, w).len() == w,
{
    lemma_decimal_reads_back(n);
    let d = decimal(n);
    let s = decimal_padded(n, w);
    if d.len() < w {
        let k = (w - d.len()) as nat;
        let z = Seq::new(k, |i: int| '0');
        lemma_leading_zeros(k, d, 10);
        assert forall|i: int| 0 <= i < s.len() implies is_ascii_digit(#[trigger] s[i]) by {
            if i >= k {
                assert(s[i] == d[i - k]);
            }
        }
        assert forall|i: int| 0 <= i < s.len() implies (#[trigger] digit_value(s[i], 10)) is Some by {
            if i >= k {
                assert(s[i] == d[i - k]);
            }
        }
    }
    assert(s[0] != '+');
}

/// The binary digits of `n` are ASCII digits that read back as `n`.
pub proof fn lemma_binary_reads_back(n: nat, w: nat)
    ensures
        binary_padded(n, w).len() >= 1,
        all_ascii_digits(binary_padded(n, w)),
        all_digits(binary_padded(n, w), 2),
        digits_value(binary_padded(n, w), 2) == n,
    decreases n + w,
{
    let s = binary_padded(n, w);
    if n < 2 && w <= 1 {
        assert(s.drop_last() =~= Seq::<char>::empty());
        assert(digits_value(s, 2) == digits_value(Seq::<char>::empty(), 2) * 2 + n);
    } else {
        let w1: nat = if w > 0 { (w - 1) as nat } else { 0 };
        lemma_binary_reads_back(n / 2, w1);
        let p = binary_padded(n / 2, w1);
        assert(s.drop_last() =~= p);
        assert(s.last() == digit_char(n % 2));
        assert(digits_value(s, 2) == digits_value(p, 2) * 2 + n % 2);
        assert forall|i: int| 0 <= i < s.len() implies is_ascii_digit(#[trigger] s[i]) by {
            if i < s.len() - 1 {
                assert(s[i] == p[i]);
            }
        }
        assert forall|i: int| 0 <= i < s.len() implies (#[trigger] digit_value(s[i], 2)) is Some by {
            if i < s.len() - 1 {
                assert(s[i] == p[i]);
            }
        }
    }
}

} // verus!
