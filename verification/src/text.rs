//! Character-level text handling shared by the parsers and formatters of the crate:
//! whitespace trimming, decimal integer parsing with the semantics of `str::parse`,
//! decimal formatting and joining.
use vstd::prelude::*;
use vstd::string::*;

verus! {

/// The `White_Space` property of Unicode, as `char::is_whitespace` tests it.
pub open spec fn is_ws(c: char) -> bool {
    ||| ('\u{9}' <= c && c <= '\u{d}')
    ||| c == ' '
    ||| c == '\u{85}'
    ||| c == '\u{a0}'
    ||| c == '\u{1680}'
    ||| ('\u{2000}' <= c && c <= '\u{200a}')
    ||| c == '\u{2028}'
    ||| c == '\u{2029}'
    ||| c == '\u{202f}'
    ||| c == '\u{205f}'
    ||| c == '\u{3000}'
}

/// Whether `c` is a Unicode whitespace character.
pub fn char_is_whitespace(c: char) -> (r: bool)
    ensures
        r == is_ws(c),
{
    ('\u{9}' <= c && c <= '\u{d}') || c == ' ' || c == '\u{85}' || c == '\u{a0}' || c
        == '\u{1680}' || ('\u{2000}' <= c && c <= '\u{200a}') || c == '\u{2028}' || c
        == '\u{2029}' || c == '\u{202f}' || c == '\u{205f}' || c == '\u{3000}'
}

/// `s` without its leading whitespace.
pub open spec fn trim_start_seq(s: Seq<char>) -> Seq<char>
    decreases s.len(),
{
    if s.len() > 0 && is_ws(s[0]) {
        trim_start_seq(s.drop_first())
    } else {
        s
    }
}

/// `s` without its trailing whitespace.
pub open spec fn trim_end_seq(s: Seq<char>) -> Seq<char>
    decreases s.len(),
{
    if s.len() > 0 && is_ws(s.last()) {
        trim_end_seq(s.drop_last())
    } else {
        s
    }
}

/// `s` without leading and trailing whitespace (`str::trim`).
pub open spec fn trim_seq(s: Seq<char>) -> Seq<char> {
    trim_end_seq(trim_start_seq(s))
}

/// `s` without any leading occurrence of `c` (`str::trim_start_matches` with one char).
pub open spec fn trim_start_char_seq(s: Seq<char>, c: char) -> Seq<char>
    decreases s.len(),
{
    if s.len() > 0 && s[0] == c {
        trim_start_char_seq(s.drop_first(), c)
    } else {
        s
    }
}

/// `s` without any trailing `'\n'` or `'\r'`.
pub open spec fn trim_end_newlines_seq(s: Seq<char>) -> Seq<char>
    decreases s.len(),
{
    if s.len() > 0 && (s.last() == '\n' || s.last() == '\r') {
        trim_end_newlines_seq(s.drop_last())
    } else {
        s
    }
}

pub proof fn lemma_trim_start_at(s: Seq<char>, i: int)
    requires
        0 <= i <= s.len(),
        forall|j: int| 0 <= j < i ==> is_ws(#[trigger] s[j]),
        i == s.len() || !is_ws(s[i]),
    ensures
        trim_start_seq(s) == s.subrange(i, s.len() as int),
    decreases i,
{
    if i == 0 {
        assert(s.subrange(0, s.len() as int) =~= s);
    } else {
        let t = s.drop_first();
        assert forall|j: int| 0 <= j < i - 1 implies is_ws(#[trigger] t[j]) by {
            assert(t[j] == s[j + 1]);
        }
        lemma_trim_start_at(t, i - 1);
        assert(t.subrange(i - 1, t.len() as int) =~= s.subrange(i, s.len() as int));
    }
}

pub proof fn lemma_trim_end_at(s: Seq<char>, k: int)
    requires
        0 <= k <= s.len(),
        forall|j: int| k <= j < s.len() ==> is_ws(#[trigger] s[j]),
        k == 0 || !is_ws(s[k - 1]),
    ensures
        trim_end_seq(s) == s.subrange(0, k),
    decreases s.len() - k,
{
    if k == s.len() {
        assert(s.subrange(0, k) =~= s);
    } else {
        let t = s.drop_last();
        assert forall|j: int| k <= j < t.len() implies is_ws(#[trigger] t[j]) by {
            assert(t[j] == s[j]);
        }
        lemma_trim_end_at(t, k);
        assert(t.subrange(0, k) =~= s.subrange(0, k));
    }
}

pub proof fn lemma_trim_start_char_at(s: Seq<char>, c: char, i: int)
    requires
        0 <= i <= s.len(),
        forall|j: int| 0 <= j < i ==> #[trigger] s[j] == c,
        i == s.len() || s[i] != c,
    ensures
        trim_start_char_seq(s, c) == s.subrange(i, s.len() as int),
    decreases i,
{
    if i == 0 {
        assert(s.subrange(0, s.len() as int) =~= s);
    } else {
        let t = s.drop_first();
        assert forall|j: int| 0 <= j < i - 1 implies #[trigger] t[j] == c by {
            assert(t[j] == s[j + 1]);
        }
        lemma_trim_start_char_at(t, c, i - 1);
        assert(t.subrange(i - 1, t.len() as int) =~= s.subrange(i, s.len() as int));
    }
}

pub proof fn lemma_trim_end_newlines_at(s: Seq<char>, k: int)
    requires
        0 <= k <= s.len(),
        forall|j: int| k <= j < s.len() ==> (#[trigger] s[j] == '\n' || s[j] == '\r'),
        k == 0 || !(s[k - 1] == '\n' || s[k - 1] == '\r'),
    ensures
        trim_end_newlines_seq(s) == s.subrange(0, k),
    decreases s.len() - k,
{
    if k == s.len() {
        assert(s.subrange(0, k) =~= s);
    } else {
        let t = s.drop_last();
        assert forall|j: int| k <= j < t.len() implies (#[trigger] t[j] == '\n' || t[j]
            == '\r') by {
            assert(t[j] == s[j]);
        }
        lemma_trim_end_newlines_at(t, k);
        assert(t.subrange(0, k) =~= s.subrange(0, k));
    }
}

/// The bounds of the trimmed part of `s@[lo..hi]`.
pub fn trim_range(s: &str, lo: usize, hi: usize) -> (r: (usize, usize))
    requires
        lo <= hi <= s@.len(),
    ensures
        lo <= r.0 <= r.1 <= hi,
        trim_seq(s@.subrange(lo as int, hi as int)) == s@.subrange(r.0 as int, r.1 as int),
{
    let ghost t = s@.subrange(lo as int, hi as int);
    let mut a = lo;
    while a < hi && char_is_whitespace(s.get_char(a))
        invariant
            lo <= a <= hi <= s@.len(),
            t == s@.subrange(lo as int, hi as int),
            forall|j: int| lo <= j < a ==> is_ws(#[trigger] s@[j]),
        decreases hi - a,
    {
        a = a + 1;
    }
    proof {
        assert forall|j: int| 0 <= j < a - lo implies is_ws(#[trigger] t[j]) by {
            assert(t[j] == s@[lo + j]);
        }
        lemma_trim_start_at(t, a - lo);
        assert(t.subrange(a - lo, t.len() as int) =~= s@.subrange(a as int, hi as int));
    }
    let ghost u = s@.subrange(a as int, hi as int);
    let mut b = hi;
    while b > a && char_is_whitespace(s.get_char(b - 1))
        invariant
            lo <= a <= b <= hi <= s@.len(),
            u == s@.subrange(a as int, hi as int),
            forall|j: int| b <= j < hi ==> is_ws(#[trigger] s@[j]),
        decreases b - a,
    {
        b = b - 1;
    }
    proof {
        assert forall|j: int| b - a <= j < u.len() implies is_ws(#[trigger] u[j]) by {
            assert(u[j] == s@[a + j]);
        }
        lemma_trim_end_at(u, b - a);
        assert(u.subrange(0, b - a) =~= s@.subrange(a as int, b as int));
    }
    (a, b)
}

/// Whether two strings hold the same characters.
pub fn str_eq(a: &str, b: &str) -> (r: bool)
    ensures
        r == (a@ == b@),
{
    let n = a.unicode_len();
    let m = b.unicode_len();
    if n != m {
        return false;
    }
    let mut i: usize = 0;
    while i < n
        invariant
            n == a@.len(),
            m == b@.len(),
            n == m,
            i <= n,
            forall|j: int| 0 <= j < i ==> #[trigger] a@[j] == b@[j],
        decreases n - i,
    {
        if a.get_char(i) != b.get_char(i) {
            return false;
        }
        i = i + 1;
    }
    assert(a@ =~= b@);
    true
}

pub proof fn lemma_index_of_first_at(t: Seq<char>, c: char, i: int)
    requires
        0 <= i < t.len(),
        t[i] == c,
        forall|j: int| 0 <= j < i ==> #[trigger] t[j] != c,
    ensures
        t.index_of_first(c) == Some(i),
{
    t.index_of_first_ensures(c);
    assert(t.contains(c));
    match t.index_of_first(c) {
        Some(k) => {
            if k < i {
                assert(t[k] != c);
            }
            if k > i {
                assert(t[i] != c);
            }
        },
        None => {},
    }
}

pub proof fn lemma_index_of_first_absent(t: Seq<char>, c: char)
    requires
        forall|j: int| 0 <= j < t.len() ==> #[trigger] t[j] != c,
    ensures
        t.index_of_first(c) is None,
{
    t.index_of_first_ensures(c);
    if t.contains(c) {
        let k = choose|k: int| 0 <= k < t.len() && t[k] == c;
        assert(t[k] != c);
    }
}

/// The position of the first `c` in `s@[lo..hi]`, counted from the start of `s`.
pub fn find_char(s: &str, c: char, lo: usize, hi: usize) -> (r: Option<usize>)
    requires
        lo <= hi <= s@.len(),
    ensures
        r matches Some(i) ==> lo <= i < hi && s@.subrange(lo as int, hi as int).index_of_first(c)
            == Some(i - lo),
        r is None ==> s@.subrange(lo as int, hi as int).index_of_first(c) is None,
{
    let ghost t = s@.subrange(lo as int, hi as int);
    let mut i = lo;
    while i < hi
        invariant
            lo <= i <= hi <= s@.len(),
            t == s@.subrange(lo as int, hi as int),
            forall|j: int| lo <= j < i ==> #[trigger] s@[j] != c,
        decreases hi - i,
    {
        if s.get_char(i) == c {
            proof {
                assert forall|j: int| 0 <= j < i - lo implies #[trigger] t[j] != c by {
                    assert(t[j] == s@[lo + j]);
                }
                lemma_index_of_first_at(t, c, i - lo);
            }
            return Some(i);
        }
        i = i + 1;
    }
    proof {
        assert forall|j: int| 0 <= j < t.len() implies #[trigger] t[j] != c by {
            assert(t[j] == s@[lo + j]);
        }
        lemma_index_of_first_absent(t, c);
    }
    None
}

/// Whether `s` begins with `prefix`.
pub fn starts_with(s: &str, prefix: &str) -> (r: bool)
    ensures
        r == prefix@.is_prefix_of(s@),
{
    let n = s.unicode_len();
    let m = prefix.unicode_len();
    if m > n {
        return false;
    }
    let mut i: usize = 0;
    while i < m
        invariant
            n == s@.len(),
            m == prefix@.len(),
            m <= n,
            i <= m,
            forall|j: int| 0 <= j < i ==> #[trigger] prefix@[j] == s@[j],
        decreases m - i,
    {
        if s.get_char(i) != prefix.get_char(i) {
            proof {
                assert(s@.subrange(0, m as int)[i as int] == s@[i as int]);
            }
            return false;
        }
        i = i + 1;
    }
    assert(prefix@ =~= s@.subrange(0, m as int));
    true
}

/// Whether `c` is one of `'0'..='9'`.
pub open spec fn is_digit(c: char) -> bool {
    '0' <= c && c <= '9'
}

/// Whether every character of `s` is a decimal digit.
pub open spec fn all_digits(s: Seq<char>) -> bool {
    forall|i: int| 0 <= i < s.len() ==> is_digit(#[trigger] s[i])
}

/// The numeric value of a decimal digit.
pub open spec fn digit_value(c: char) -> int {
    c as int - '0' as int
}

/// The value of a string of decimal digits, most significant first.
pub open spec fn digits_value(s: Seq<char>) -> int
    decreases s.len(),
{
    if s.len() == 0 {
        0
    } else {
        digits_value(s.drop_last()) * 10 + digit_value(s.last())
    }
}

/// A non-empty string of decimal digits whose value is at most `bound`.
pub open spec fn digits_within(s: Seq<char>, bound: int) -> bool {
    s.len() > 0 && all_digits(s) && digits_value(s) <= bound
}

/// What `str::parse::<i64>` gives on `t`: an optional sign followed by digits,
/// the value fitting in `i64`.
pub open spec fn parse_i64_seq(t: Seq<char>) -> Option<int> {
    if t.len() > 0 && t[0] == '-' {
        if digits_within(t.drop_first(), 0x8000_0000_0000_0000) {
            Some(-digits_value(t.drop_first()))
        } else {
            None
        }
    } else if t.len() > 0 && t[0] == '+' {
        if digits_within(t.drop_first(), i64::MAX as int) {
            Some(digits_value(t.drop_first()))
        } else {
            None
        }
    } else if digits_within(t, i64::MAX as int) {
        Some(digits_value(t))
    } else {
        None
    }
}

/// What `str::parse` gives on `t` for an unsigned type whose largest value is `bound`:
/// an optional `'+'` followed by digits, the value at most `bound`.
pub open spec fn parse_unsigned_seq(t: Seq<char>, bound: int) -> Option<int> {
    if t.len() > 0 && t[0] == '+' {
        if digits_within(t.drop_first(), bound) {
            Some(digits_value(t.drop_first()))
        } else {
            None
        }
    } else if digits_within(t, bound) {
        Some(digits_value(t))
    } else {
        None
    }
}

/// What `str::parse::<u32>` gives on `t`.
pub open spec fn parse_u32_seq(t: Seq<char>) -> Option<int> {
    parse_unsigned_seq(t, u32::MAX as int)
}

/// What `str::parse::<u64>` gives on `t`.
pub open spec fn parse_u64_seq(t: Seq<char>) -> Option<int> {
    parse_unsigned_seq(t, u64::MAX as int)
}

pub proof fn lemma_digits_value_nonneg(s: Seq<char>)
    requires
        all_digits(s),
    ensures
        digits_value(s) >= 0,
    decreases s.len(),
{
    if s.len() > 0 {
        assert(all_digits(s.drop_last())) by {
            assert forall|i: int| 0 <= i < s.drop_last().len() implies is_digit(
                #[trigger] s.drop_last()[i],
            ) by {
                assert(s.drop_last()[i] == s[i]);
            }
        }
        lemma_digits_value_nonneg(s.drop_last());
        assert(is_digit(s[s.len() - 1]));
    }
}

/// The value of a digit string is at least the value of any of its prefixes.
pub proof fn lemma_digits_prefix_le(s: Seq<char>, k: int)
    requires
        all_digits(s),
        0 <= k <= s.len(),
    ensures
        digits_value(s.subrange(0, k)) <= digits_value(s),
    decreases s.len() - k,
{
    if k < s.len() {
        let p = s.subrange(0, k + 1);
        assert(p.drop_last() =~= s.subrange(0, k));
        assert(all_digits(s.subrange(0, k))) by {
            assert forall|i: int| 0 <= i < k implies is_digit(#[trigger] s.subrange(0, k)[i]) by {
                assert(s.subrange(0, k)[i] == s[i]);
            }
        }
        lemma_digits_value_nonneg(s.subrange(0, k));
        assert(is_digit(s[k]));
        assert(p.last() == s[k]);
        lemma_digits_prefix_le(s, k + 1);
    } else {
        assert(s.subrange(0, k) =~= s);
    }
}

/// Parses `s@[lo..hi]` as a non-empty run of decimal digits of value at most `bound`.
pub fn parse_digits_range(s: &str, lo: usize, hi: usize, bound: u64) -> (r: Option<u64>)
    requires
        lo <= hi <= s@.len(),
    ensures
        r is Some <==> digits_within(s@.subrange(lo as int, hi as int), bound as int),
        r matches Some(v) ==> v as int == digits_value(s@.subrange(lo as int, hi as int)),
{
    let ghost t = s@.subrange(lo as int, hi as int);
    if lo == hi {
        return None;
    }
    let mut i = lo;
    while i < hi
        invariant
            lo <= i <= hi <= s@.len(),
            t == s@.subrange(lo as int, hi as int),
            forall|j: int| lo <= j < i ==> is_digit(#[trigger] s@[j]),
        decreases hi - i,
    {
        let c = s.get_char(i);
        if !('0' <= c && c <= '9') {
            proof {
                assert(t[i - lo] == s@[i as int]);
            }
            return None;
        }
        i = i + 1;
    }
    assert(all_digits(t)) by {
        assert forall|j: int| 0 <= j < t.len() implies is_digit(#[trigger] t[j]) by {
            assert(t[j] == s@[lo + j]);
        }
    }
    let mut acc: u64 = 0;
    let mut k = lo;
    while k < hi
        invariant
            lo <= k <= hi <= s@.len(),
            t == s@.subrange(lo as int, hi as int),
            all_digits(t),
            acc as int == digits_value(t.subrange(0, k - lo)),
            acc <= bound,
        decreases hi - k,
    {
        let c = s.get_char(k);
        proof {
            assert(t[k - lo] == c);
            assert(is_digit(t[k - lo]));
            assert(t.subrange(0, k - lo + 1).drop_last() =~= t.subrange(0, k - lo));
            assert(t.subrange(0, k - lo + 1).last() == c);
        }
        let d: u32 = (c as u32) - ('0' as u32);
        let next: u128 = (acc as u128) * 10 + (d as u128);
        if next > bound as u128 {
            proof {
                lemma_digits_prefix_le(t, k - lo + 1);
            }
            return None;
        }
        acc = next as u64;
        k = k + 1;
    }
    assert(t.subrange(0, t.len() as int) =~= t);
    Some(acc)
}

/// `str::parse::<i64>` on `s@[lo..hi]`.
pub fn parse_i64_range(s: &str, lo: usize, hi: usize) -> (r: Option<i64>)
    requires
        lo <= hi <= s@.len(),
    ensures
        r matches Some(v) ==> parse_i64_seq(s@.subrange(lo as int, hi as int)) == Some(v as int),
        r is None ==> parse_i64_seq(s@.subrange(lo as int, hi as int)) is None,
{
    let ghost t = s@.subrange(lo as int, hi as int);
    if lo < hi {
        let c = s.get_char(lo);
        if c == '-' || c == '+' {
            proof {
                assert(t[0] == c);
                assert(t.drop_first() =~= s@.subrange(lo + 1, hi as int));
            }
            if c == '-' {
                let m = parse_digits_range(s, lo + 1, hi, 0x8000_0000_0000_0000u64);
                match m {
                    Some(v) => {
                        if v == 0x8000_0000_0000_0000u64 {
                            return Some(i64::MIN);
                        }
                        return Some(-(v as i64));
                    },
                    None => {
                        return None;
                    },
                }
            } else {
                let m = parse_digits_range(s, lo + 1, hi, i64::MAX as u64);
                match m {
                    Some(v) => {
                        return Some(v as i64);
                    },
                    None => {
                        return None;
                    },
                }
            }
        }
    }
    let m = parse_digits_range(s, lo, hi, i64::MAX as u64);
    match m {
        Some(v) => Some(v as i64),
        None => None,
    }
}

fn parse_unsigned_range(s: &str, lo: usize, hi: usize, bound: u64) -> (r: Option<u64>)
    requires
        lo <= hi <= s@.len(),
    ensures
        r matches Some(v) ==> parse_unsigned_seq(s@.subrange(lo as int, hi as int), bound as int)
            == Some(v as int),
        r is None ==> parse_unsigned_seq(s@.subrange(lo as int, hi as int), bound as int) is None,
{
    let ghost t = s@.subrange(lo as int, hi as int);
    if lo < hi {
        let c = s.get_char(lo);
        if c == '+' {
            proof {
                assert(t[0] == c);
                assert(t.drop_first() =~= s@.subrange(lo + 1, hi as int));
            }
            return parse_digits_range(s, lo + 1, hi, bound);
        }
    }
    parse_digits_range(s, lo, hi, bound)
}

/// `str::parse::<u32>` on `s@[lo..hi]`.
pub fn parse_u32_range(s: &str, lo: usize, hi: usize) -> (r: Option<u32>)
    requires
        lo <= hi <= s@.len(),
    ensures
        r matches Some(v) ==> parse_u32_seq(s@.subrange(lo as int, hi as int)) == Some(v as int),
        r is None ==> parse_u32_seq(s@.subrange(lo as int, hi as int)) is None,
{
    match parse_unsigned_range(s, lo, hi, u32::MAX as u64) {
        Some(v) => Some(v as u32),
        None => None,
    }
}

/// `str::parse::<u64>` on `s@[lo..hi]`.
pub fn parse_u64_range(s: &str, lo: usize, hi: usize) -> (r: Option<u64>)
    requires
        lo <= hi <= s@.len(),
    ensures
        r matches Some(v) ==> parse_u64_seq(s@.subrange(lo as int, hi as int)) == Some(v as int),
        r is None ==> parse_u64_seq(s@.subrange(lo as int, hi as int)) is None,
{
    parse_unsigned_range(s, lo, hi, u64::MAX)
}

/// The decimal digit character for `d < 10`.
pub open spec fn digit_char(d: int) -> char {
    if d == 0 {
        '0'
    } else if d == 1 {
        '1'
    } else if d == 2 {
        '2'
    } else if d == 3 {
        '3'
    } else if d == 4 {
        '4'
    } else if d == 5 {
        '5'
    } else if d == 6 {
        '6'
    } else if d == 7 {
        '7'
    } else if d == 8 {
        '8'
    } else {
        '9'
    }
}

/// The decimal representation of `n`, as `u64::to_string` writes it.
pub open spec fn decimal(n: nat) -> Seq<char>
    decreases n,
{
    if n < 10 {
        seq![digit_char(n as int)]
    } else {
        decimal(n / 10).push(digit_char((n % 10) as int))
    }
}

fn digit_to_char(d: u64) -> (c: char)
    requires
        d < 10,
    ensures
        c == digit_char(d as int),
{
    if d == 0 {
        '0'
    } else if d == 1 {
        '1'
    } else if d == 2 {
        '2'
    } else if d == 3 {
        '3'
    } else if d == 4 {
        '4'
    } else if d == 5 {
        '5'
    } else if d == 6 {
        '6'
    } else if d == 7 {
        '7'
    } else if d == 8 {
        '8'
    } else {
        '9'
    }
}

/// Appends one character (`String::push`).
#[verifier::external_body]
pub(crate) fn push_char(s: &mut String, c: char)
    ensures
        final(s)@ == old(s)@.push(c),
{
    s.push(c)
}

/// Appends the decimal representation of `n` to `s`.
pub fn append_decimal(s: &mut String, n: u64)
    ensures
        final(s)@ == old(s)@ + decimal(n as nat),
    decreases n,
{
    if n >= 10 {
        append_decimal(s, n / 10);
    }
    let c = digit_to_char(n % 10);
    push_char(s, c);
    proof {
        if n < 10 {
            assert(decimal(n as nat) =~= seq![c]);
        }
    }
    assert(s@ =~= old(s)@ + decimal(n as nat));
}

/// The decimal representation of `n`.
pub fn decimal_string(n: u64) -> (s: String)
    ensures
        s@ == decimal(n as nat),
{
    let mut s = String::new();
    append_decimal(&mut s, n);
    assert(s@ =~= decimal(n as nat));
    s
}

/// `s` followed by the contents of `t`.
pub fn concat_str(s: &str, t: &str) -> (r: String)
    ensures
        r@ == s@ + t@,
{
    let mut r = s.to_owned();
    r.append(t);
    r
}

/// The pieces of `parts` separated by `sep` (`[..].join(sep)`).
pub open spec fn join_seq(parts: Seq<Seq<char>>, sep: Seq<char>) -> Seq<char>
    decreases parts.len(),
{
    if parts.len() == 0 {
        Seq::empty()
    } else if parts.len() == 1 {
        parts[0]
    } else {
        join_seq(parts.drop_last(), sep) + sep + parts.last()
    }
}

/// The views of a vector of strings.
pub open spec fn strings_view(v: Seq<String>) -> Seq<Seq<char>> {
    v.map_values(|s: String| s@)
}

/// The views of pairs of strings.
pub open spec fn pairs_view(v: Seq<(String, String)>) -> Seq<(Seq<char>, Seq<char>)> {
    v.map_values(|p: (String, String)| (p.0@, p.1@))
}

/// The views of a slice of string slices.
pub open spec fn strs_view(v: Seq<&str>) -> Seq<Seq<char>> {
    v.map_values(|s: &str| s@)
}

/// Owned copies of the strings in `v`, in order.
pub fn owned_strings(v: &[&str]) -> (r: Vec<String>)
    ensures
        strings_view(r@) == strs_view(v@),
{
    let mut r: Vec<String> = Vec::new();
    let mut i: usize = 0;
    while i < v.len()
        invariant
            i <= v@.len(),
            r@.len() == i,
            strings_view(r@) == strs_view(v@.take(i as int)),
        decreases v.len() - i,
    {
        let item: &str = v[i];
        let owned = item.to_owned();
        assert(owned@ == v@[i as int]@);
        let ghost before = r@;
        r.push(owned);
        proof {
            assert forall|j: int| 0 <= j < i + 1 implies #[trigger] strings_view(r@)[j] == strs_view(
                v@.take(i + 1),
            )[j] by {
                if j < i {
                    assert(r@[j] == before[j]);
                    assert(strings_view(before)[j] == strs_view(v@.take(i as int))[j]);
                }
            }
            assert(strings_view(r@) =~= strs_view(v@.take(i + 1)));
        }
        i = i + 1;
    }
    assert(v@.take(v@.len() as int) =~= v@);
    r
}

/// A copy of `v`.
pub fn copy_strings(v: &Vec<String>) -> (r: Vec<String>)
    ensures
        r@ == v@,
{
    let mut r: Vec<String> = Vec::new();
    let mut i: usize = 0;
    while i < v.len()
        invariant
            i <= v@.len(),
            r@ == v@.take(i as int),
        decreases v.len() - i,
    {
        r.push(v[i].clone());
        i = i + 1;
        assert(r@ =~= v@.take(i as int));
    }
    assert(v@.take(v@.len() as int) =~= v@);
    r
}

/// Joins `parts` with `sep` between consecutive pieces.
pub fn join_strings(parts: &Vec<String>, sep: &str) -> (r: String)
    ensures
        r@ == join_seq(strings_view(parts@), sep@),
{
    let ghost pv = strings_view(parts@);
    let mut r = String::new();
    let mut i: usize = 0;
    while i < parts.len()
        invariant
            0 <= i <= parts.len(),
            pv == strings_view(parts@),
            r@ == join_seq(pv.take(i as int), sep@),
        decreases parts.len() - i,
    {
        proof {
            assert(pv.take(i + 1).drop_last() =~= pv.take(i as int));
            assert(pv.take(i + 1).last() == parts@[i as int]@);
        }
        if i > 0 {
            r.append(sep);
        } else {
            assert(pv.take(1) =~= seq![parts@[0]@]);
            assert(r@ =~= Seq::<char>::empty());
        }
        r.append(parts[i].as_str());
        i = i + 1;
        proof {
            if i == 1 {
                assert(r@ =~= join_seq(pv.take(1), sep@));
            }
        }
    }
    assert(pv.take(parts.len() as int) =~= pv);
    r
}

/// The UTF-8 encoding of a string.
pub open spec fn utf8_bytes(s: Seq<char>) -> Seq<u8> {
    vstd::utf8::encode_utf8(s)
}

/// The UTF-8 bytes of `s`, as an owned vector.
pub fn str_bytes(s: &str) -> (r: Vec<u8>)
    ensures
        r@ == utf8_bytes(s@),
{
    s.as_bytes_vec()
}

} // verus!
