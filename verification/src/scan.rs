//! Character-level scanning of settings text: Unicode white space, trimming,
//! matching against fixed words, and unsigned decimal numbers.
//!
//! Text is handled as a `Vec<char>` with half-open index spans into it, so
//! that a line, a key or a value is a pair of positions rather than a copy.

use vstd::prelude::*;

verus! {

/// The Unicode `White_Space` property, which `char::is_whitespace` and
/// `str::trim` go by.
pub open spec fn is_white_space(c: char) -> bool {
    let n = c as u32;
    ||| 0x09 <= n <= 0x0d
    ||| n == 0x20
    ||| n == 0x85
    ||| n == 0xa0
    ||| n == 0x1680
    ||| 0x2000 <= n <= 0x200a
    ||| n == 0x2028
    ||| n == 0x2029
    ||| n == 0x202f
    ||| n == 0x205f
    ||| n == 0x3000
}

/// Whether `c` is white space.
pub fn is_white_space_char(c: char) -> (r: bool)
    ensures
        r == is_white_space(c),
{
    let n = c as u32;
    (0x09 <= n && n <= 0x0d) || n == 0x20 || n == 0x85 || n == 0xa0 || n == 0x1680 || (0x2000
        <= n && n <= 0x200a) || n == 0x2028 || n == 0x2029 || n == 0x202f || n == 0x205f || n
        == 0x3000
}

/// `s` without its leading white space.
pub open spec fn trim_start(s: Seq<char>) -> Seq<char>
    decreases s.len(),
{
    if s.len() > 0 && is_white_space(s[0]) {
        trim_start(s.drop_first())
    } else {
        s
    }
}

/// `s` without its trailing white space.
pub open spec fn trim_end(s: Seq<char>) -> Seq<char>
    decreases s.len(),
{
    if s.len() > 0 && is_white_space(s.last()) {
        trim_end(s.drop_last())
    } else {
        s
    }
}

/// `s` without leading and trailing white space (what `str::trim` returns).
pub open spec fn trim(s: Seq<char>) -> Seq<char> {
    trim_end(trim_start(s))
}

/// The span of `chars[lo..hi]` that is left once white space is trimmed
/// from both ends.
pub fn trim_span(chars: &Vec<char>, lo: usize, hi: usize) -> (r: (usize, usize))
    requires
        lo <= hi <= chars@.len(),
    ensures
        lo <= r.0 <= r.1 <= hi,
        chars@.subrange(r.0 as int, r.1 as int) == trim(chars@.subrange(lo as int, hi as int)),
{
    let ghost s = chars@;
    let mut a = lo;
    while a < hi && is_white_space_char(chars[a])
        invariant
            lo <= a <= hi <= s.len(),
            s == chars@,
            trim_start(s.subrange(lo as int, hi as int)) == trim_start(
                s.subrange(a as int, hi as int),
            ),
        decreases hi - a,
    {
        assert(s.subrange(a as int, hi as int).drop_first() =~= s.subrange(a + 1, hi as int));
        a = a + 1;
    }
    assert(trim_start(s.subrange(a as int, hi as int)) == s.subrange(a as int, hi as int));
    let mut b = hi;
    while b > a && is_white_space_char(chars[b - 1])
        invariant
            lo <= a <= b <= hi <= s.len(),
            s == chars@,
            trim_end(s.subrange(a as int, hi as int)) == trim_end(s.subrange(a as int, b as int)),
        decreases b - a,
    {
        assert(s.subrange(a as int, b as int).drop_last() =~= s.subrange(a as int, b - 1));
        b = b - 1;
    }
    assert(trim_end(s.subrange(a as int, b as int)) == s.subrange(a as int, b as int));
    (a, b)
}

/// The characters of `s`, one by one.
pub fn chars_of(s: &str) -> (v: Vec<char>)
    ensures
        v@ == s@,
{
    let n = s.unicode_len();
    let mut v: Vec<char> = Vec::new();
    let mut i: usize = 0;
    while i < n
        invariant
            i <= n,
            n == s@.len(),
            v@ == s@.subrange(0, i as int),
        decreases n - i,
    {
        v.push(s.get_char(i));
        i = i + 1;
    }
    assert(v@ =~= s@);
    v
}

/// Whether `chars[lo..hi]` is exactly `word`.
pub fn span_is(chars: &Vec<char>, lo: usize, hi: usize, word: &str) -> (r: bool)
    requires
        lo <= hi <= chars@.len(),
    ensures
        r == (chars@.subrange(lo as int, hi as int) == word@),
{
    let n = word.unicode_len();
    if hi - lo != n {
        return false;
    }
    let mut i: usize = 0;
    while i < n
        invariant
            n == word@.len(),
            hi - lo == n,
            lo <= hi <= chars@.len(),
            i <= n,
            forall|k: int| 0 <= k < i ==> chars@[lo + k] == word@[k],
        decreases n - i,
    {
        if chars[lo + i] != word.get_char(i) {
            assert(chars@.subrange(lo as int, hi as int)[i as int] != word@[i as int]);
            return false;
        }
        i = i + 1;
    }
    assert(chars@.subrange(lo as int, hi as int) =~= word@);
    true
}

/// Whether `s` begins with `word`.
pub open spec fn has_prefix(s: Seq<char>, word: Seq<char>) -> bool {
    word.len() <= s.len() && s.subrange(0, word.len() as int) == word
}

/// Whether `chars[lo..hi]` begins with `word`; on success also the position
/// right after it.
pub fn span_starts_with(chars: &Vec<char>, lo: usize, hi: usize, word: &str) -> (r: Option<usize>)
    requires
        lo <= hi <= chars@.len(),
    ensures
        r is Some <==> has_prefix(chars@.subrange(lo as int, hi as int), word@),
        r matches Some(p) ==> p == lo + word@.len() && p <= hi,
{
    let n = word.unicode_len();
    if n > hi - lo {
        return None;
    }
    let ok = span_is(chars, lo, lo + n, word);
    assert(chars@.subrange(lo as int, hi as int).subrange(0, n as int) =~= chars@.subrange(
        lo as int,
        lo + n,
    ));
    if ok {
        Some(lo + n)
    } else {
        None
    }
}

/// The code of `c` once an ASCII capital is turned into its small letter.
pub open spec fn ascii_lower_code(c: char) -> u32 {
    if 'A' <= c <= 'Z' {
        (c as u32 + 32) as u32
    } else {
        c as u32
    }
}

/// Whether `s` spells `word` when ASCII capitals in it are read as small
/// letters.
pub open spec fn matches_ignoring_ascii_case(s: Seq<char>, word: Seq<char>) -> bool {
    s.len() == word.len() && forall|i: int| 0 <= i < s.len() ==> ascii_lower_code(s[i]) == word[i] as u32
}

/// Whether `chars[lo..hi]` spells `word` up to ASCII case.
pub fn span_is_ignoring_ascii_case(chars: &Vec<char>, lo: usize, hi: usize, word: &str) -> (r: bool)
    requires
        lo <= hi <= chars@.len(),
    ensures
        r == matches_ignoring_ascii_case(chars@.subrange(lo as int, hi as int), word@),
{
    let n = word.unicode_len();
    if hi - lo != n {
        return false;
    }
    let ghost s = chars@.subrange(lo as int, hi as int);
    let mut i: usize = 0;
    while i < n
        invariant
            n == word@.len(),
            hi - lo == n,
            lo <= hi <= chars@.len(),
            s == chars@.subrange(lo as int, hi as int),
            i <= n,
            forall|k: int| 0 <= k < i ==> ascii_lower_code(s[k]) == word@[k] as u32,
        decreases n - i,
    {
        let c = chars[lo + i];
        let code: u32 = if 'A' <= c && c <= 'Z' {
            c as u32 + 32
        } else {
            c as u32
        };
        if code != word.get_char(i) as u32 {
            assert(ascii_lower_code(s[i as int]) != word@[i as int] as u32);
            return false;
        }
        i = i + 1;
    }
    true
}

/// The position of the first `c` in `s`, or `s.len()` when there is none.
pub open spec fn index_of_first(s: Seq<char>, c: char) -> nat
    decreases s.len(),
{
    if s.len() == 0 {
        0
    } else if s[0] == c {
        0
    } else {
        1 + index_of_first(s.drop_first(), c)
    }
}

/// `c` does not occur before its first position, and occurs there unless
/// that position is past the end.
pub proof fn lemma_index_of_first_props(s: Seq<char>, c: char)
    ensures
        index_of_first(s, c) <= s.len(),
        forall|k: int| 0 <= k < index_of_first(s, c) ==> s[k] != c,
        index_of_first(s, c) < s.len() ==> s[index_of_first(s, c) as int] == c,
    decreases s.len(),
{
    if s.len() > 0 && s[0] != c {
        lemma_index_of_first_props(s.drop_first(), c);
        assert forall|k: int| 0 <= k < index_of_first(s, c) implies s[k] != c by {
            if k > 0 {
                assert(s[k] == s.drop_first()[k - 1]);
            }
        }
    }
}

/// The first position is the one before which `c` does not occur.
pub proof fn lemma_index_of_first(s: Seq<char>, c: char, i: int)
    requires
        0 <= i <= s.len(),
        forall|k: int| 0 <= k < i ==> s[k] != c,
        i < s.len() ==> s[i] == c,
    ensures
        index_of_first(s, c) == i,
    decreases s.len(),
{
    if s.len() > 0 && i > 0 {
        lemma_index_of_first(s.drop_first(), c, i - 1);
    }
}

/// The position of the first `c` in `chars[lo..hi]` (counted from `lo`),
/// or `hi` when there is none.
pub fn find_char(chars: &Vec<char>, lo: usize, hi: usize, c: char) -> (r: usize)
    requires
        lo <= hi <= chars@.len(),
    ensures
        lo <= r <= hi,
        r - lo == index_of_first(chars@.subrange(lo as int, hi as int), c),
{
    let mut i = lo;
    while i < hi && chars[i] != c
        invariant
            lo <= i <= hi <= chars@.len(),
            forall|k: int| lo <= k < i ==> chars@[k] != c,
        decreases hi - i,
    {
        i = i + 1;
    }
    proof {
        lemma_index_of_first(chars@.subrange(lo as int, hi as int), c, i - lo);
    }
    i
}

/// Whether `c` is an ASCII decimal digit.
pub open spec fn is_digit(c: char) -> bool {
    '0' <= c <= '9'
}

/// Whether every character of `s` is a decimal digit.
pub open spec fn all_digits(s: Seq<char>) -> bool {
    forall|i: int| 0 <= i < s.len() ==> is_digit(s[i])
}

/// The number that the decimal digits `s` stand for.
pub open spec fn decimal_value(s: Seq<char>) -> int
    decreases s.len(),
{
    if s.len() == 0 {
        0
    } else {
        decimal_value(s.drop_last()) * 10 + (s.last() as int - '0' as int)
    }
}

/// What `str::parse` gives for an unsigned integer type whose largest value
/// is `max`: an optional `+`, then one or more decimal digits whose value
/// does not exceed `max`; anything else is an error.
pub open spec fn parse_unsigned(s: Seq<char>, max: int) -> Option<int> {
    let d = if s.len() > 0 && s[0] == '+' {
        s.drop_first()
    } else {
        s
    };
    if d.len() > 0 && all_digits(d) && decimal_value(d) <= max {
        Some(decimal_value(d))
    } else {
        None
    }
}

/// Digits never make a number smaller: a prefix of them is worth no more.
pub proof fn lemma_decimal_prefix_le(s: Seq<char>, j: int)
    requires
        all_digits(s),
        0 <= j <= s.len(),
    ensures
        0 <= decimal_value(s.subrange(0, j)) <= decimal_value(s),
    decreases s.len(),
{
    if j < s.len() {
        lemma_decimal_prefix_le(s.drop_last(), j);
        assert(s.drop_last().subrange(0, j) =~= s.subrange(0, j));
        lemma_decimal_prefix_le(s.drop_last(), s.len() - 1);
        assert(s.drop_last().subrange(0, s.len() - 1) =~= s.drop_last());
    } else {
        assert(s.subrange(0, j) =~= s);
        if s.len() > 0 {
            lemma_decimal_prefix_le(s.drop_last(), s.len() - 1);
            assert(s.drop_last().subrange(0, s.len() - 1) =~= s.drop_last());
        }
    }
}

/// Reads `chars[lo..hi]` as an unsigned number no larger than `max`.
pub fn parse_unsigned_span(chars: &Vec<char>, lo: usize, hi: usize, max: u64) -> (r: Option<u64>)
    requires
        lo <= hi <= chars@.len(),
    ensures
        r matches Some(v) ==> parse_unsigned(chars@.subrange(lo as int, hi as int), max as int)
            == Some(v as int),
        r is None ==> parse_unsigned(chars@.subrange(lo as int, hi as int), max as int) is None,
{
    let ghost s = chars@.subrange(lo as int, hi as int);
    let start = if lo < hi && chars[lo] == '+' {
        lo + 1
    } else {
        lo
    };
    let ghost d = chars@.subrange(start as int, hi as int);
    assert(d =~= (if s.len() > 0 && s[0] == '+' {
        s.drop_first()
    } else {
        s
    }));
    if start == hi {
        return None;
    }
    let mut acc: u64 = 0;
    let mut i = start;
    while i < hi
        invariant
            lo <= start <= i <= hi <= chars@.len(),
            d == chars@.subrange(start as int, hi as int),
            s == chars@.subrange(lo as int, hi as int),
            d == (if s.len() > 0 && s[0] == '+' {
                s.drop_first()
            } else {
                s
            }),
            d.len() > 0,
            acc <= max,
            acc == decimal_value(d.subrange(0, i - start)),
            forall|k: int| 0 <= k < i - start ==> is_digit(d[k]),
        decreases hi - i,
    {
        let c = chars[i];
        if !('0' <= c && c <= '9') {
            assert(!is_digit(d[i - start]));
            return None;
        }
        let dv = (c as u32 - '0' as u32) as u64;
        assert(d.subrange(0, i + 1 - start).drop_last() =~= d.subrange(0, i - start));
        let v: u128 = acc as u128 * 10 + dv as u128;
        assert(v == decimal_value(d.subrange(0, i + 1 - start)));
        if v > max as u128 {
            proof {
                if all_digits(d) {
                    lemma_decimal_prefix_le(d, i + 1 - start);
                }
            }
            return None;
        }
        acc = v as u64;
        i = i + 1;
    }
    assert(d.subrange(0, i - start) =~= d);
    Some(acc)
}

/// The decimal digit character for `d` (0..=9).
pub open spec fn digit_char(d: int) -> char {
    (d + '0' as int) as char
}

/// The decimal representation of `n`, without leading zeros.
pub open spec fn decimal_digits(n: nat) -> Seq<char>
    decreases n,
{
    if n < 10 {
        seq![digit_char(n as int)]
    } else {
        decimal_digits(n / 10).push(digit_char((n % 10) as int))
    }
}

/// The one-character text of digit `d`.
fn digit_text(d: u64) -> (r: &'static str)
    requires
        d < 10,
    ensures
        r@ == seq![digit_char(d as int)],
{
    proof {
        reveal_strlit("0");
        reveal_strlit("1");
        reveal_strlit("2");
        reveal_strlit("3");
        reveal_strlit("4");
        reveal_strlit("5");
        reveal_strlit("6");
        reveal_strlit("7");
        reveal_strlit("8");
        reveal_strlit("9");
    }
    let r = if d == 0 {
        "0"
    } else if d == 1 {
        "1"
    } else if d == 2 {
        "2"
    } else if d == 3 {
        "3"
    } else if d == 4 {
        "4"
    } else if d == 5 {
        "5"
    } else if d == 6 {
        "6"
    } else if d == 7 {
        "7"
    } else if d == 8 {
        "8"
    } else {
        "9"
    };
    assert(r@ =~= seq![digit_char(d as int)]);
    r
}

/// Appends the decimal representation of `n`.
pub fn push_decimal(out: &mut String, n: u64)
    ensures
        final(out)@ == old(out)@ + decimal_digits(n as nat),
    decreases n,
{
    if n >= 10 {
        push_decimal(out, n / 10);
    }
    out.append(digit_text(n % 10));
    assert(final(out)@ =~= old(out)@ + decimal_digits(n as nat));
}

/// Decimal digits read back as the number they were written from.
pub proof fn lemma_decimal_digits_value(n: nat)
    ensures
        decimal_digits(n).len() > 0,
        all_digits(decimal_digits(n)),
        decimal_digits(n)[0] != '+',
        decimal_value(decimal_digits(n)) == n,
    decreases n,
{
    let d = decimal_digits(n);
    let last = (n % 10) as int;
    assert(digit_char(last) as int == last + '0' as int);
    if n >= 10 {
        lemma_decimal_digits_value(n / 10);
        assert(d.drop_last() =~= decimal_digits(n / 10));
        assert(d.last() == digit_char(last));
        assert(n == (n / 10) * 10 + last);
        assert(decimal_value(d) == decimal_value(d.drop_last()) * 10 + (d.last() as int - '0' as int));
        assert(decimal_value(d.drop_last()) == n / 10);
        assert(d.last() as int - '0' as int == last);
    } else {
        assert(d.drop_last() =~= Seq::<char>::empty());
        assert(d.last() == digit_char(last));
        assert(decimal_value(d) == decimal_value(d.drop_last()) * 10 + (d.last() as int - '0' as int));
        assert(d.last() as int - '0' as int == last);
    }
}

/// A number written in decimal parses back to itself whenever it fits.
pub proof fn lemma_parse_decimal_digits(n: nat, max: int)
    requires
        n <= max,
    ensures
        parse_unsigned(decimal_digits(n), max) == Some(n as int),
{
    lemma_decimal_digits_value(n);
}

} // verus!
