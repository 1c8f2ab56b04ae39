//! Character-sequence primitives that the line parsers are built from.
//!
//! Every executable function here works on a slice of `char`s and is tied
//! to a spec function over `Seq<char>` that states the same operation as
//! Rust's `str` methods of the same name define it.
use vstd::prelude::*;

verus! {

/// Unicode `White_Space`, as `char::is_whitespace` documents it.
pub open spec fn is_whitespace(c: char) -> bool {
    ||| c == '\t' || c == '\n' || c == '\x0B' || c == '\x0C' || c == '\r' || c == ' '
    ||| c == '\u{85}' || c == '\u{A0}' || c == '\u{1680}'
    ||| ('\u{2000}' <= c && c <= '\u{200A}')
    ||| c == '\u{2028}' || c == '\u{2029}' || c == '\u{202F}' || c == '\u{205F}'
    ||| c == '\u{3000}'
}

pub fn char_is_whitespace(c: char) -> (b: bool)
    ensures
        b == is_whitespace(c),
{
    c == '\t' || c == '\n' || c == '\x0B' || c == '\x0C' || c == '\r' || c == ' ' || c == '\u{85}'
        || c == '\u{A0}' || c == '\u{1680}' || ('\u{2000}' <= c && c <= '\u{200A}') || c
        == '\u{2028}' || c == '\u{2029}' || c == '\u{202F}' || c == '\u{205F}' || c == '\u{3000}'
}

/// The characters of a string slice, in order.
pub fn chars_of(line: &str) -> (v: Vec<char>)
    ensures
        v@ == line@,
{
    let n = line.unicode_len();
    let mut v: Vec<char> = Vec::new();
    let mut i: usize = 0;
    while i < n
        invariant
            n == line@.len(),
            i <= n,
            v@ == line@.subrange(0, i as int),
        decreases n - i,
    {
        v.push(line.get_char(i));
        i = i + 1;
    }
    v
}

// ---------------------------------------------------------------- prefixes

pub open spec fn has_prefix(s: Seq<char>, p: Seq<char>) -> bool {
    p.len() <= s.len() && s.subrange(0, p.len() as int) == p
}

pub open spec fn has_suffix(s: Seq<char>, p: Seq<char>) -> bool {
    p.len() <= s.len() && s.subrange(s.len() - p.len(), s.len() as int) == p
}

/// `str::strip_prefix`
pub open spec fn strip_prefix(s: Seq<char>, p: Seq<char>) -> Option<Seq<char>> {
    if has_prefix(s, p) {
        Some(s.subrange(p.len() as int, s.len() as int))
    } else {
        None
    }
}

/// `str::strip_suffix`
pub open spec fn strip_suffix(s: Seq<char>, p: Seq<char>) -> Option<Seq<char>> {
    if has_suffix(s, p) {
        Some(s.subrange(0, s.len() - p.len()))
    } else {
        None
    }
}

pub fn starts_with(s: &[char], p: &str) -> (b: bool)
    ensures
        b == has_prefix(s@, p@),
{
    let n = p.unicode_len();
    if n > s.len() {
        return false;
    }
    let mut i: usize = 0;
    while i < n
        invariant
            n == p@.len(),
            n <= s@.len(),
            i <= n,
            forall|j: int| 0 <= j < i ==> s@[j] == p@[j],
        decreases n - i,
    {
        if s[i] != p.get_char(i) {
            assert(s@.subrange(0, n as int)[i as int] != p@[i as int]);
            return false;
        }
        i = i + 1;
    }
    assert(s@.subrange(0, n as int) =~= p@);
    true
}

pub fn ends_with(s: &[char], p: &str) -> (b: bool)
    ensures
        b == has_suffix(s@, p@),
{
    let n = p.unicode_len();
    if n > s.len() {
        return false;
    }
    let off = s.len() - n;
    let mut i: usize = 0;
    while i < n
        invariant
            n == p@.len(),
            n <= s@.len(),
            off == s@.len() - n,
            off + n == s.len(),
            i <= n,
            forall|j: int| 0 <= j < i ==> s@[off + j] == p@[j],
        decreases n - i,
    {
        if s[off + i] != p.get_char(i) {
            assert(s@.subrange(off as int, s@.len() as int)[i as int] != p@[i as int]);
            return false;
        }
        i = i + 1;
    }
    assert(s@.subrange(off as int, s@.len() as int) =~= p@);
    true
}

pub fn strip_prefix_exec<'a>(s: &'a [char], p: &str) -> (r: Option<&'a [char]>)
    ensures
        match r {
            Some(x) => strip_prefix(s@, p@) == Some(x@),
            None => strip_prefix(s@, p@) is None,
        },
{
    if starts_with(s, p) {
        let n = p.unicode_len();
        Some(vstd::slice::slice_subrange(s, n, s.len()))
    } else {
        None
    }
}

pub fn strip_suffix_exec<'a>(s: &'a [char], p: &str) -> (r: Option<&'a [char]>)
    ensures
        match r {
            Some(x) => strip_suffix(s@, p@) == Some(x@),
            None => strip_suffix(s@, p@) is None,
        },
{
    if ends_with(s, p) {
        let n = p.unicode_len();
        Some(vstd::slice::slice_subrange(s, 0, s.len() - n))
    } else {
        None
    }
}

/// Whole-slice comparison with a literal.
pub fn eq_str(s: &[char], p: &str) -> (b: bool)
    ensures
        b == (s@ == p@),
{
    let n = p.unicode_len();
    if n != s.len() {
        return false;
    }
    let r = starts_with(s, p);
    proof {
        assert(s@ =~= s@.subrange(0, n as int));
    }
    r
}

// ---------------------------------------------------------------- trimming

pub open spec fn trim_start(s: Seq<char>) -> Seq<char>
    decreases s.len(),
{
    if s.len() > 0 && is_whitespace(s[0]) {
        trim_start(s.drop_first())
    } else {
        s
    }
}

pub open spec fn trim_end(s: Seq<char>) -> Seq<char>
    decreases s.len(),
{
    if s.len() > 0 && is_whitespace(s.last()) {
        trim_end(s.drop_last())
    } else {
        s
    }
}

/// `str::trim`
pub open spec fn trim(s: Seq<char>) -> Seq<char> {
    trim_end(trim_start(s))
}

/// `str::trim_matches` with a single character.
pub open spec fn trim_char_start(s: Seq<char>, c: char) -> Seq<char>
    decreases s.len(),
{
    if s.len() > 0 && s[0] == c {
        trim_char_start(s.drop_first(), c)
    } else {
        s
    }
}

pub open spec fn trim_char_end(s: Seq<char>, c: char) -> Seq<char>
    decreases s.len(),
{
    if s.len() > 0 && s.last() == c {
        trim_char_end(s.drop_last(), c)
    } else {
        s
    }
}

pub open spec fn trim_matches(s: Seq<char>, c: char) -> Seq<char> {
    trim_char_end(trim_char_start(s, c), c)
}

proof fn lemma_trim_start_skip(s: Seq<char>, i: int)
    requires
        0 <= i <= s.len(),
        forall|j: int| 0 <= j < i ==> is_whitespace(s[j]),
    ensures
        trim_start(s) == trim_start(s.subrange(i, s.len() as int)),
    decreases i,
{
    if i > 0 {
        assert(s.drop_first().subrange(i - 1, s.drop_first().len() as int) =~= s.subrange(
            i,
            s.len() as int,
        ));
        lemma_trim_start_skip(s.drop_first(), i - 1);
    } else {
        assert(s.subrange(0, s.len() as int) =~= s);
    }
}

proof fn lemma_trim_end_take(s: Seq<char>, i: int)
    requires
        0 <= i <= s.len(),
        forall|j: int| i <= j < s.len() ==> is_whitespace(s[j]),
    ensures
        trim_end(s) == trim_end(s.subrange(0, i)),
    decreases s.len() - i,
{
    if i < s.len() {
        assert(s.drop_last().subrange(0, i) =~= s.subrange(0, i));
        lemma_trim_end_take(s.drop_last(), i);
    } else {
        assert(s.subrange(0, i) =~= s);
    }
}

proof fn lemma_trim_char_start_skip(s: Seq<char>, c: char, i: int)
    requires
        0 <= i <= s.len(),
        forall|j: int| 0 <= j < i ==> s[j] == c,
    ensures
        trim_char_start(s, c) == trim_char_start(s.subrange(i, s.len() as int), c),
    decreases i,
{
    if i > 0 {
        assert(s.drop_first().subrange(i - 1, s.drop_first().len() as int) =~= s.subrange(
            i,
            s.len() as int,
        ));
        lemma_trim_char_start_skip(s.drop_first(), c, i - 1);
    } else {
        assert(s.subrange(0, s.len() as int) =~= s);
    }
}

proof fn lemma_trim_char_end_take(s: Seq<char>, c: char, i: int)
    requires
        0 <= i <= s.len(),
        forall|j: int| i <= j < s.len() ==> s[j] == c,
    ensures
        trim_char_end(s, c) == trim_char_end(s.subrange(0, i), c),
    decreases s.len() - i,
{
    if i < s.len() {
        assert(s.drop_last().subrange(0, i) =~= s.subrange(0, i));
        lemma_trim_char_end_take(s.drop_last(), c, i - 1 + 1);
    } else {
        assert(s.subrange(0, i) =~= s);
    }
}

pub fn trim_start_exec<'a>(s: &'a [char]) -> (r: &'a [char])
    ensures
        r@ == trim_start(s@),
{
    let mut i: usize = 0;
    while i < s.len() && char_is_whitespace(s[i])
        invariant
            i <= s@.len(),
            forall|j: int| 0 <= j < i ==> is_whitespace(s@[j]),
        decreases s@.len() - i,
    {
        i = i + 1;
    }
    let r = vstd::slice::slice_subrange(s, i, s.len());
    proof {
        lemma_trim_start_skip(s@, i as int);
    }
    r
}

pub fn trim_end_exec<'a>(s: &'a [char]) -> (r: &'a [char])
    ensures
        r@ == trim_end(s@),
{
    let mut i: usize = s.len();
    while i > 0 && char_is_whitespace(s[i - 1])
        invariant
            i <= s@.len(),
            forall|j: int| i <= j < s@.len() ==> is_whitespace(s@[j]),
        decreases i,
    {
        i = i - 1;
    }
    let r = vstd::slice::slice_subrange(s, 0, i);
    proof {
        lemma_trim_end_take(s@, i as int);
    }
    r
}

pub fn trim_exec<'a>(s: &'a [char]) -> (r: &'a [char])
    ensures
        r@ == trim(s@),
{
    trim_end_exec(trim_start_exec(s))
}

pub fn trim_matches_exec<'a>(s: &'a [char], c: char) -> (r: &'a [char])
    ensures
        r@ == trim_matches(s@, c),
{
    let mut i: usize = 0;
    while i < s.len() && s[i] == c
        invariant
            i <= s@.len(),
            forall|j: int| 0 <= j < i ==> s@[j] == c,
        decreases s@.len() - i,
    {
        i = i + 1;
    }
    let t = vstd::slice::slice_subrange(s, i, s.len());
    proof {
        lemma_trim_char_start_skip(s@, c, i as int);
    }
    let mut k: usize = t.len();
    while k > 0 && t[k - 1] == c
        invariant
            k <= t@.len(),
            forall|j: int| k <= j < t@.len() ==> t@[j] == c,
        decreases k,
    {
        k = k - 1;
    }
    let r = vstd::slice::slice_subrange(t, 0, k);
    proof {
        lemma_trim_char_end_take(t@, c, k as int);
    }
    r
}

// ---------------------------------------------------------------- splitting

/// Index of the first occurrence of `c`.
pub open spec fn find_char(s: Seq<char>, c: char) -> Option<int>
    decreases s.len(),
{
    if s.len() == 0 {
        None
    } else if s[0] == c {
        Some(0)
    } else {
        match find_char(s.drop_first(), c) {
            Some(i) => Some(i + 1),
            None => None,
        }
    }
}

/// `str::split_once` with a single-character delimiter.
pub open spec fn split_once(s: Seq<char>, c: char) -> Option<(Seq<char>, Seq<char>)> {
    match find_char(s, c) {
        Some(i) => Some((s.subrange(0, i), s.subrange(i + 1, s.len() as int))),
        None => None,
    }
}

/// `str::splitn` with a single-character delimiter (`n >= 1`).
pub open spec fn splitn(s: Seq<char>, n: nat, c: char) -> Seq<Seq<char>>
    decreases n,
{
    if n <= 1 {
        seq![s]
    } else {
        match split_once(s, c) {
            Some((a, b)) => seq![a] + splitn(b, (n - 1) as nat, c),
            None => seq![s],
        }
    }
}

/// `splitn` gives at most `n` pieces (and one where `n` is zero).
pub proof fn lemma_splitn_len(s: Seq<char>, n: nat, c: char)
    ensures
        splitn(s, n, c).len() <= if n <= 1 {
            1
        } else {
            n
        },
        splitn(s, n, c).len() >= 1,
    decreases n,
{
    if n > 1 {
        if let Some((a, b)) = split_once(s, c) {
            lemma_splitn_len(b, (n - 1) as nat, c);
        }
    }
}

/// `str::split` with a single-character delimiter.
pub open spec fn split(s: Seq<char>, c: char) -> Seq<Seq<char>>
    decreases s.len(),
{
    match split_once(s, c) {
        Some((a, b)) => {
            if b.len() < s.len() {
                seq![a] + split(b, c)
            } else {
                seq![s]
            }
        },
        None => seq![s],
    }
}

/// `str::split_terminator`: `split`, without a trailing empty piece.
pub open spec fn split_terminator(s: Seq<char>, c: char) -> Seq<Seq<char>> {
    let parts = split(s, c);
    if parts.last().len() == 0 {
        parts.drop_last()
    } else {
        parts
    }
}

/// Number of occurrences of `c` (`str::matches(c).count()`).
pub open spec fn count_char(s: Seq<char>, c: char) -> nat
    decreases s.len(),
{
    if s.len() == 0 {
        0
    } else {
        (if s.last() == c { 1nat } else { 0nat }) + count_char(s.drop_last(), c)
    }
}

pub proof fn lemma_find_char(s: Seq<char>, c: char, i: int)
    requires
        0 <= i <= s.len(),
        forall|j: int| 0 <= j < i ==> s[j] != c,
    ensures
        i < s.len() && s[i] == c ==> find_char(s, c) == Some(i),
        i == s.len() ==> find_char(s, c) is None,
    decreases i,
{
    if i > 0 {
        lemma_find_char(s.drop_first(), c, i - 1);
    }
}

pub proof fn lemma_find_char_bounds(s: Seq<char>, c: char)
    ensures
        find_char(s, c) matches Some(i) ==> 0 <= i < s.len() && s[i] == c && forall|j: int|
            0 <= j < i ==> s[j] != c,
        find_char(s, c) is None ==> forall|j: int| 0 <= j < s.len() ==> s[j] != c,
    decreases s.len(),
{
    if s.len() > 0 {
        lemma_find_char_bounds(s.drop_first(), c);
        if s[0] != c {
            assert forall|j: int| 0 < j < s.len() implies s[j] == s.drop_first()[j - 1] by {}
        }
    }
}

pub fn find_char_exec(s: &[char], c: char) -> (r: Option<usize>)
    ensures
        match r {
            Some(i) => find_char(s@, c) == Some(i as int) && i < s@.len(),
            None => find_char(s@, c) is None,
        },
{
    let mut i: usize = 0;
    while i < s.len()
        invariant
            i <= s@.len(),
            forall|j: int| 0 <= j < i ==> s@[j] != c,
        decreases s@.len() - i,
    {
        if s[i] == c {
            proof {
                lemma_find_char(s@, c, i as int);
            }
            return Some(i);
        }
        i = i + 1;
    }
    proof {
        lemma_find_char(s@, c, i as int);
    }
    None
}

pub fn split_once_exec<'a>(s: &'a [char], c: char) -> (r: Option<(&'a [char], &'a [char])>)
    ensures
        match r {
            Some((a, b)) => split_once(s@, c) == Some((a@, b@)),
            None => split_once(s@, c) is None,
        },
{
    match find_char_exec(s, c) {
        Some(i) => {
            assert(i < s.len());
            Some(
            (vstd::slice::slice_subrange(s, 0, i), vstd::slice::slice_subrange(s, i + 1, s.len())),
        )},
        None => None,
    }
}

/// Index of the first whitespace character.
pub open spec fn find_whitespace(s: Seq<char>) -> Option<int>
    decreases s.len(),
{
    if s.len() == 0 {
        None
    } else if is_whitespace(s[0]) {
        Some(0)
    } else {
        match find_whitespace(s.drop_first()) {
            Some(i) => Some(i + 1),
            None => None,
        }
    }
}

/// `str::split_once(char::is_whitespace)`
pub open spec fn split_once_whitespace(s: Seq<char>) -> Option<(Seq<char>, Seq<char>)> {
    match find_whitespace(s) {
        Some(i) => Some((s.subrange(0, i), s.subrange(i + 1, s.len() as int))),
        None => None,
    }
}

proof fn lemma_find_whitespace(s: Seq<char>, i: int)
    requires
        0 <= i <= s.len(),
        forall|j: int| 0 <= j < i ==> !is_whitespace(s[j]),
    ensures
        i < s.len() && is_whitespace(s[i]) ==> find_whitespace(s) == Some(i),
        i == s.len() ==> find_whitespace(s) is None,
    decreases i,
{
    if i > 0 {
        lemma_find_whitespace(s.drop_first(), i - 1);
    }
}

pub fn split_once_whitespace_exec<'a>(s: &'a [char]) -> (r: Option<(&'a [char], &'a [char])>)
    ensures
        match r {
            Some((a, b)) => split_once_whitespace(s@) == Some((a@, b@)),
            None => split_once_whitespace(s@) is None,
        },
{
    let mut i: usize = 0;
    while i < s.len()
        invariant
            i <= s@.len(),
            forall|j: int| 0 <= j < i ==> !is_whitespace(s@[j]),
        decreases s@.len() - i,
    {
        if char_is_whitespace(s[i]) {
            proof {
                lemma_find_whitespace(s@, i as int);
            }
            return Some(
                (vstd::slice::slice_subrange(s, 0, i), vstd::slice::slice_subrange(s, i + 1, s.len())),
            );
        }
        i = i + 1;
    }
    proof {
        lemma_find_whitespace(s@, i as int);
    }
    None
}

/// `c == '+' || c == '-' || c.is_digit(10)`: characters of a signed number.
pub open spec fn is_number_char(c: char) -> bool {
    c == '+' || c == '-' || ('0' <= c && c <= '9')
}

/// Index of the first character that cannot be part of a signed number.
pub open spec fn find_non_number(s: Seq<char>) -> Option<int>
    decreases s.len(),
{
    if s.len() == 0 {
        None
    } else if !is_number_char(s[0]) {
        Some(0)
    } else {
        match find_non_number(s.drop_first()) {
            Some(i) => Some(i + 1),
            None => None,
        }
    }
}

/// `str::split_once` at the first character that is not `+`, `-` or a digit.
pub open spec fn split_once_non_number(s: Seq<char>) -> Option<(Seq<char>, Seq<char>)> {
    match find_non_number(s) {
        Some(i) => Some((s.subrange(0, i), s.subrange(i + 1, s.len() as int))),
        None => None,
    }
}

pub proof fn lemma_find_non_number(s: Seq<char>, i: int)
    requires
        0 <= i <= s.len(),
        forall|j: int| 0 <= j < i ==> is_number_char(s[j]),
    ensures
        i < s.len() && !is_number_char(s[i]) ==> find_non_number(s) == Some(i),
        i == s.len() ==> find_non_number(s) is None,
    decreases i,
{
    if i > 0 {
        lemma_find_non_number(s.drop_first(), i - 1);
    }
}

pub fn split_once_non_number_exec<'a>(s: &'a [char]) -> (r: Option<(&'a [char], &'a [char])>)
    ensures
        match r {
            Some((a, b)) => split_once_non_number(s@) == Some((a@, b@)),
            None => split_once_non_number(s@) is None,
        },
{
    let mut i: usize = 0;
    while i < s.len()
        invariant
            i <= s@.len(),
            forall|j: int| 0 <= j < i ==> is_number_char(s@[j]),
        decreases s@.len() - i,
    {
        let c = s[i];
        if !(c == '+' || c == '-' || ('0' <= c && c <= '9')) {
            proof {
                lemma_find_non_number(s@, i as int);
            }
            return Some(
                (vstd::slice::slice_subrange(s, 0, i), vstd::slice::slice_subrange(s, i + 1, s.len())),
            );
        }
        i = i + 1;
    }
    proof {
        lemma_find_non_number(s@, i as int);
    }
    None
}

/// The leading characters of a signed number and what follows the first
/// character that cannot belong to it (that character dropped); all of
/// `s` and nothing where every character can belong to it.
pub open spec fn split_number_prefix(s: Seq<char>) -> (Seq<char>, Seq<char>) {
    match split_once_non_number(s) {
        Some((a, b)) => (a, b),
        None => (s, Seq::empty()),
    }
}

pub fn split_number_prefix_exec<'a>(s: &'a [char]) -> (r: (&'a [char], &'a [char]))
    ensures
        (r.0@, r.1@) == split_number_prefix(s@),
{
    match split_once_non_number_exec(s) {
        Some((a, b)) => (a, b),
        None => {
            let e = vstd::slice::slice_subrange(s, s.len(), s.len());
            assert(e@ =~= Seq::<char>::empty());
            (s, e)
        },
    }
}

/// `str::strip_circumfix(c, c)`: the text between an opening and a closing `c`.
pub open spec fn strip_circumfix(s: Seq<char>, c: char) -> Option<Seq<char>> {
    if s.len() >= 2 && s[0] == c && s.last() == c {
        Some(s.subrange(1, s.len() - 1))
    } else {
        None
    }
}

pub fn strip_circumfix_exec<'a>(s: &'a [char], c: char) -> (r: Option<&'a [char]>)
    ensures
        match r {
            Some(x) => strip_circumfix(s@, c) == Some(x@),
            None => strip_circumfix(s@, c) is None,
        },
{
    if s.len() >= 2 && s[0] == c && s[s.len() - 1] == c {
        Some(vstd::slice::slice_subrange(s, 1, s.len() - 1))
    } else {
        None
    }
}

pub open spec fn views(v: Seq<&[char]>) -> Seq<Seq<char>> {
    v.map_values(|x: &[char]| x@)
}

pub proof fn lemma_views_push(v: Seq<&[char]>, x: &[char])
    ensures
        views(v.push(x)) == views(v).push(x@),
{
    assert(views(v.push(x)) =~= views(v).push(x@));
}

pub fn splitn_exec<'a>(s: &'a [char], n: usize, c: char) -> (r: Vec<&'a [char]>)
    ensures
        views(r@) == splitn(s@, n as nat, c),
    decreases n,
{
    if n <= 1 {
        let mut v: Vec<&'a [char]> = Vec::new();
        v.push(s);
        assert(views(v@) =~= seq![s@]);
        v
    } else {
        match split_once_exec(s, c) {
            Some((a, b)) => {
                let rest = splitn_exec(b, n - 1, c);
                let mut v: Vec<&'a [char]> = Vec::new();
                v.push(a);
                let mut i: usize = 0;
                while i < rest.len()
                    invariant
                        i <= rest@.len(),
                        views(v@) =~= seq![a@] + views(rest@).subrange(0, i as int),
                    decreases rest@.len() - i,
                {
                    proof {
                        lemma_views_push(v@, rest@[i as int]);
                        assert(views(rest@).subrange(0, i + 1) =~= views(rest@).subrange(0, i as int).push(rest@[i as int]@));
                    }
                    v.push(rest[i]);
                    i = i + 1;
                }
                assert(views(rest@).subrange(0, rest@.len() as int) =~= views(rest@));
                v
            },
            None => {
                let mut v: Vec<&'a [char]> = Vec::new();
                v.push(s);
                assert(views(v@) =~= seq![s@]);
                v
            },
        }
    }
}

pub fn split_exec<'a>(s: &'a [char], c: char) -> (r: Vec<&'a [char]>)
    ensures
        views(r@) == split(s@, c),
    decreases s@.len(),
{
    proof {
        lemma_find_char_bounds(s@, c);
    }
    match split_once_exec(s, c) {
        Some((a, b)) => {
            assert(b@.len() < s@.len());
            let rest = split_exec(b, c);
            let mut v: Vec<&'a [char]> = Vec::new();
            v.push(a);
            let mut i: usize = 0;
            while i < rest.len()
                invariant
                    i <= rest@.len(),
                    views(v@) =~= seq![a@] + views(rest@).subrange(0, i as int),
                decreases rest@.len() - i,
            {
                proof {
                    lemma_views_push(v@, rest@[i as int]);
                    assert(views(rest@).subrange(0, i + 1) =~= views(rest@).subrange(0, i as int).push(rest@[i as int]@));
                }
                v.push(rest[i]);
                i = i + 1;
            }
            assert(views(rest@).subrange(0, rest@.len() as int) =~= views(rest@));
            v
        },
        None => {
            let mut v: Vec<&'a [char]> = Vec::new();
            v.push(s);
            assert(views(v@) =~= seq![s@]);
            v
        },
    }
}

pub proof fn lemma_split_nonempty(s: Seq<char>, c: char)
    ensures
        split(s, c).len() >= 1,
    decreases s.len(),
{
    if let Some((a, b)) = split_once(s, c) {
        if b.len() < s.len() {
            lemma_split_nonempty(b, c);
        }
    }
}

/// Splitting text whose first piece holds no separator.
pub proof fn lemma_split_first_piece(a: Seq<char>, rest: Seq<char>, c: char)
    requires
        forall|i: int| 0 <= i < a.len() ==> a[i] != c,
    ensures
        split_once(a + seq![c] + rest, c) == Some((a, rest)),
        split(a + seq![c] + rest, c) == seq![a] + split(rest, c),
{
    let s = a + seq![c] + rest;
    assert forall|j: int| 0 <= j < a.len() implies s[j] != c by {
        assert(s[j] == a[j]);
    }
    lemma_find_char(s, c, a.len() as int);
    assert(s.subrange(0, a.len() as int) =~= a);
    assert(s.subrange(a.len() as int + 1, s.len() as int) =~= rest);
}

/// Splitting into at most `n >= 2` pieces text whose first piece holds no
/// separator.
pub proof fn lemma_splitn_first_piece(a: Seq<char>, rest: Seq<char>, n: nat, c: char)
    requires
        n >= 2,
        forall|i: int| 0 <= i < a.len() ==> a[i] != c,
    ensures
        splitn(a + seq![c] + rest, n, c) == seq![a] + splitn(rest, (n - 1) as nat, c),
{
    lemma_split_first_piece(a, rest, c);
}

/// Text without the separator is one piece, however many are allowed.
pub proof fn lemma_splitn_single_piece(a: Seq<char>, n: nat, c: char)
    requires
        forall|i: int| 0 <= i < a.len() ==> a[i] != c,
    ensures
        splitn(a, n, c) == seq![a],
{
    lemma_find_char(a, c, a.len() as int);
}

/// Text without the separator is one piece.
pub proof fn lemma_split_single_piece(a: Seq<char>, c: char)
    requires
        forall|i: int| 0 <= i < a.len() ==> a[i] != c,
    ensures
        split(a, c) == seq![a],
{
    lemma_find_char(a, c, a.len() as int);
}

/// Text that neither starts nor ends with whitespace is its own trim.
pub proof fn lemma_trim_plain(s: Seq<char>)
    requires
        s.len() > 0,
        !is_whitespace(s[0]),
        !is_whitespace(s.last()),
    ensures
        trim(s) == s,
{
}

pub fn split_terminator_exec<'a>(s: &'a [char], c: char) -> (r: Vec<&'a [char]>)
    ensures
        views(r@) == split_terminator(s@, c),
{
    let mut v = split_exec(s, c);
    proof {
        lemma_split_nonempty(s@, c);
    }
    let n = v.len();
    if v[n - 1].len() == 0 {
        let ghost old_v = v@;
        v.pop();
        assert(views(v@) =~= views(old_v).drop_last());
    }
    v
}

pub fn count_char_exec(s: &[char], c: char) -> (n: usize)
    ensures
        n == count_char(s@, c),
{
    let mut i: usize = 0;
    let mut n: usize = 0;
    while i < s.len()
        invariant
            i <= s@.len(),
            n == count_char(s@.subrange(0, i as int), c),
            n <= i,
        decreases s@.len() - i,
    {
        assert(s@.subrange(0, i + 1).drop_last() =~= s@.subrange(0, i as int));
        if s[i] == c {
            n = n + 1;
        }
        i = i + 1;
    }
    assert(s@.subrange(0, s@.len() as int) =~= s@);
    n
}

// ---------------------------------------------------------------- integers

/// `char::to_digit(radix)` for `radix <= 36`.
pub open spec fn digit_value(c: char, radix: nat) -> Option<nat> {
    let v: int = if '0' <= c && c <= '9' {
        c as int - '0' as int
    } else if 'a' <= c && c <= 'z' {
        c as int - 'a' as int + 10
    } else if 'A' <= c && c <= 'Z' {
        c as int - 'A' as int + 10
    } else {
        36
    };
    if v < radix {
        Some(v as nat)
    } else {
        None
    }
}

pub open spec fn all_digits(s: Seq<char>, radix: nat) -> bool {
    forall|i: int| 0 <= i < s.len() ==> (#[trigger] digit_value(s[i], radix)) is Some
}

/// The value of a digit string (most significant digit first).
pub open spec fn digits_value(s: Seq<char>, radix: nat) -> nat
    decreases s.len(),
{
    if s.len() == 0 {
        0
    } else {
        digits_value(s.drop_last(), radix) * radix + match digit_value(s.last(), radix) {
            Some(d) => d,
            None => 0,
        }
    }
}

/// The magnitude part of an integer literal, as `from_str_radix` reads it:
/// a non-empty run of digits.
pub open spec fn magnitude(s: Seq<char>, radix: nat) -> Option<nat> {
    if s.len() > 0 && all_digits(s, radix) {
        Some(digits_value(s, radix))
    } else {
        None
    }
}

/// `uN::from_str_radix` (and `str::parse::<uN>` for radix 10): an optional
/// `+` and at least one digit, with a value of at most `max`.
pub open spec fn parse_unsigned(s: Seq<char>, radix: nat, max: nat) -> Option<nat> {
    let body = if s.len() > 0 && s[0] == '+' {
        s.drop_first()
    } else {
        s
    };
    match magnitude(body, radix) {
        Some(v) => if v <= max {
            Some(v)
        } else {
            None
        },
        None => None,
    }
}

/// `iN::from_str_radix` (and `str::parse::<iN>` for radix 10): an optional
/// sign and at least one digit, with a value in `min..=max`.
pub open spec fn parse_signed(s: Seq<char>, radix: nat, min: int, max: int) -> Option<int> {
    if s.len() > 0 && s[0] == '-' {
        match magnitude(s.drop_first(), radix) {
            Some(v) => if -v >= min {
                Some(-v)
            } else {
                None
            },
            None => None,
        }
    } else {
        match parse_unsigned(s, radix, max as nat) {
            Some(v) => if max >= 0 {
                Some(v as int)
            } else {
                None
            },
            None => None,
        }
    }
}

pub fn digit_value_exec(c: char, radix: u32) -> (r: Option<u32>)
    requires
        2 <= radix <= 36,
    ensures
        match r {
            Some(d) => digit_value(c, radix as nat) == Some(d as nat) && d < radix,
            None => digit_value(c, radix as nat) is None,
        },
{
    let v: u32 = if '0' <= c && c <= '9' {
        (c as u32) - ('0' as u32)
    } else if 'a' <= c && c <= 'z' {
        (c as u32) - ('a' as u32) + 10
    } else if 'A' <= c && c <= 'Z' {
        (c as u32) - ('A' as u32) + 10
    } else {
        36
    };
    if v < radix {
        Some(v)
    } else {
        None
    }
}

proof fn lemma_digits_value_step(s: Seq<char>, radix: nat, i: int)
    requires
        0 <= i < s.len(),
    ensures
        digits_value(s.subrange(0, i + 1), radix) == digits_value(s.subrange(0, i), radix) * radix
            + match digit_value(s[i], radix) {
            Some(d) => d,
            None => 0,
        },
{
    assert(s.subrange(0, i + 1).drop_last() =~= s.subrange(0, i));
}

proof fn lemma_digits_value_mono(s: Seq<char>, radix: nat, i: int)
    requires
        0 <= i <= s.len(),
        radix >= 1,
    ensures
        digits_value(s, radix) >= digits_value(s.subrange(0, i), radix),
    decreases s.len() - i,
{
    if i < s.len() {
        lemma_digits_value_step(s, radix, i);
        let a = digits_value(s.subrange(0, i), radix);
        assert(a * radix >= a) by (nonlinear_arith)
            requires
                radix >= 1,
        ;
        lemma_digits_value_mono(s, radix, i + 1);
    } else {
        assert(s.subrange(0, i) =~= s);
    }
}

/// Reads a run of digits; `None` unless it is non-empty, all digits, and at
/// most `max`.
pub fn magnitude_exec(s: &[char], radix: u32, max: u128) -> (r: Option<u128>)
    requires
        2 <= radix <= 36,
        max <= u64::MAX as u128 + 1,
    ensures
        match r {
            Some(v) => magnitude(s@, radix as nat) == Some(v as nat) && v <= max,
            None => magnitude(s@, radix as nat) is None || magnitude(s@, radix as nat).unwrap()
                > max,
        },
{
    if s.len() == 0 {
        return None;
    }
    let mut acc: u128 = 0;
    let mut i: usize = 0;
    while i < s.len()
        invariant
            2 <= radix <= 36,
            max <= u64::MAX as u128 + 1,
            i <= s@.len(),
            s@.len() > 0,
            acc == digits_value(s@.subrange(0, i as int), radix as nat),
            acc <= max,
            forall|j: int| 0 <= j < i ==> (#[trigger] digit_value(s@[j], radix as nat)) is Some,
        decreases s@.len() - i,
    {
        match digit_value_exec(s[i], radix) {
            Some(d) => {
                proof {
                    lemma_digits_value_step(s@, radix as nat, i as int);
                }
                assert(acc * (radix as u128) + (d as u128) <= (u64::MAX as u128 + 1) * 36 + 36)
                    by (nonlinear_arith)
                    requires
                        acc <= u64::MAX as u128 + 1,
                        radix <= 36,
                        d < 36,
                ;
                let next = acc * (radix as u128) + (d as u128);
                if next > max {
                    proof {
                        lemma_digits_value_mono(s@, radix as nat, i + 1);
                        assert(s@.subrange(0, s@.len() as int) =~= s@);
                    }
                    return None;
                }
                acc = next;
            },
            None => {
                return None;
            },
        }
        i = i + 1;
    }
    assert(s@.subrange(0, s@.len() as int) =~= s@);
    Some(acc)
}

/// `str::parse::<uN>()` / `uN::from_str_radix`.
pub fn parse_unsigned_exec(s: &[char], radix: u32, max: u64) -> (r: Option<u64>)
    requires
        2 <= radix <= 36,
    ensures
        match r {
            Some(v) => parse_unsigned(s@, radix as nat, max as nat) == Some(v as nat),
            None => parse_unsigned(s@, radix as nat, max as nat) is None,
        },
{
    let body = if s.len() > 0 && s[0] == '+' {
        vstd::slice::slice_subrange(s, 1, s.len())
    } else {
        s
    };
    assert(body@ == (if s@.len() > 0 && s@[0] == '+' {
        s@.drop_first()
    } else {
        s@
    }));
    match magnitude_exec(body, radix, max as u128) {
        Some(v) => Some(v as u64),
        None => None,
    }
}

/// `str::parse::<iN>()` / `iN::from_str_radix`.
pub fn parse_signed_exec(s: &[char], radix: u32, min: i64, max: i64) -> (r: Option<i64>)
    requires
        2 <= radix <= 36,
        min <= 0 <= max,
    ensures
        match r {
            Some(v) => parse_signed(s@, radix as nat, min as int, max as int) == Some(v as int),
            None => parse_signed(s@, radix as nat, min as int, max as int) is None,
        },
{
    if s.len() > 0 && s[0] == '-' {
        let body = vstd::slice::slice_subrange(s, 1, s.len());
        assert(body@ == s@.drop_first());
        let lim: u128 = (0i128 - (min as i128)) as u128;
        match magnitude_exec(body, radix, lim) {
            Some(v) => Some((0i128 - (v as i128)) as i64),
            None => None,
        }
    } else {
        match parse_unsigned_exec(s, radix, max as u64) {
            Some(v) => Some(v as i64),
            None => None,
        }
    }
}

/// `str::parse::<u8>()`
pub fn parse_u8(s: &[char]) -> (r: Option<u8>)
    ensures
        match r {
            Some(v) => parse_unsigned(s@, 10, u8::MAX as nat) == Some(v as nat),
            None => parse_unsigned(s@, 10, u8::MAX as nat) is None,
        },
{
    match parse_unsigned_exec(s, 10, u8::MAX as u64) {
        Some(v) => Some(v as u8),
        None => None,
    }
}

/// `str::parse::<u16>()`
pub fn parse_u16(s: &[char]) -> (r: Option<u16>)
    ensures
        match r {
            Some(v) => parse_unsigned(s@, 10, u16::MAX as nat) == Some(v as nat),
            None => parse_unsigned(s@, 10, u16::MAX as nat) is None,
        },
{
    match parse_unsigned_exec(s, 10, u16::MAX as u64) {
        Some(v) => Some(v as u16),
        None => None,
    }
}

/// `str::parse::<u32>()`
pub fn parse_u32(s: &[char]) -> (r: Option<u32>)
    ensures
        match r {
            Some(v) => parse_unsigned(s@, 10, u32::MAX as nat) == Some(v as nat),
            None => parse_unsigned(s@, 10, u32::MAX as nat) is None,
        },
{
    match parse_unsigned_exec(s, 10, u32::MAX as u64) {
        Some(v) => Some(v as u32),
        None => None,
    }
}

/// `str::parse::<usize>()`
pub fn parse_usize(s: &[char]) -> (r: Option<usize>)
    ensures
        match r {
            Some(v) => parse_unsigned(s@, 10, usize::MAX as nat) == Some(v as nat),
            None => parse_unsigned(s@, 10, usize::MAX as nat) is None,
        },
{
    match parse_unsigned_exec(s, 10, usize::MAX as u64) {
        Some(v) => Some(v as usize),
        None => None,
    }
}

/// `str::parse::<i16>()`
pub fn parse_i16(s: &[char]) -> (r: Option<i16>)
    ensures
        match r {
            Some(v) => parse_signed(s@, 10, i16::MIN as int, i16::MAX as int) == Some(v as int),
            None => parse_signed(s@, 10, i16::MIN as int, i16::MAX as int) is None,
        },
{
    match parse_signed_exec(s, 10, i16::MIN as i64, i16::MAX as i64) {
        Some(v) => Some(v as i16),
        None => None,
    }
}

/// `str::parse::<i32>()`
pub fn parse_i32(s: &[char]) -> (r: Option<i32>)
    ensures
        match r {
            Some(v) => parse_signed(s@, 10, i32::MIN as int, i32::MAX as int) == Some(v as int),
            None => parse_signed(s@, 10, i32::MIN as int, i32::MAX as int) is None,
        },
{
    match parse_signed_exec(s, 10, i32::MIN as i64, i32::MAX as i64) {
        Some(v) => Some(v as i32),
        None => None,
    }
}

// ---------------------------------------------------------------- byte length

/// `char::len_utf8`
pub open spec fn utf8_width(c: char) -> nat {
    if (c as u32) < 0x80 {
        1
    } else if (c as u32) < 0x800 {
        2
    } else if (c as u32) < 0x10000 {
        3
    } else {
        4
    }
}

/// `str::len`: the number of bytes of the UTF-8 encoding.
pub open spec fn utf8_len(s: Seq<char>) -> nat
    decreases s.len(),
{
    if s.len() == 0 {
        0
    } else {
        utf8_len(s.drop_last()) + utf8_width(s.last())
    }
}

/// Whether the UTF-8 encoding of `s` fits in `cap` bytes.
pub fn fits_in_bytes(s: &[char], cap: usize) -> (b: bool)
    ensures
        b == (utf8_len(s@) <= cap),
{
    let mut i: usize = 0;
    let mut n: usize = 0;
    while i < s.len()
        invariant
            i <= s@.len(),
            n == utf8_len(s@.subrange(0, i as int)),
            n <= cap,
        decreases s@.len() - i,
    {
        assert(s@.subrange(0, i + 1).drop_last() =~= s@.subrange(0, i as int));
        let c = s[i] as u32;
        let w: usize = if c < 0x80 {
            1
        } else if c < 0x800 {
            2
        } else if c < 0x10000 {
            3
        } else {
            4
        };
        if w > cap - n {
            proof {
                lemma_utf8_len_mono(s@, i + 1);
            }
            return false;
        }
        n = n + w;
        i = i + 1;
    }
    assert(s@.subrange(0, s@.len() as int) =~= s@);
    true
}

proof fn lemma_utf8_len_mono(s: Seq<char>, i: int)
    requires
        0 <= i <= s.len(),
    ensures
        utf8_len(s) >= utf8_len(s.subrange(0, i)),
    decreases s.len() - i,
{
    if i < s.len() {
        assert(s.subrange(0, i + 1).drop_last() =~= s.subrange(0, i));
        lemma_utf8_len_mono(s, i + 1);
    } else {
        assert(s.subrange(0, i) =~= s);
    }
}

/// The characters of `cs`, as a `String` (`String: FromIterator<char>`).
#[verifier::external_body]
pub(crate) fn string_from_chars(cs: &[char]) -> (s: String)
    ensures
        s@ == cs@,
{
    cs.iter().collect()
}

} // verus!
