//! Character-level helpers shared by the parsers of this crate: Unicode
//! whitespace, trimming, searching, splitting and decimal parsing, each
//! stated over `Seq<char>`.

use vstd::prelude::*;

verus! {

// ── whitespace ───────────────────────────────────────────────────────────

/// The Unicode `White_Space` property, which is what `char::is_whitespace`
/// and `str::trim` go by.
pub open spec fn is_unicode_whitespace(c: char) -> bool {
    let u = c as u32;
    ||| 0x09 <= u <= 0x0d
    ||| u == 0x20
    ||| u == 0x85
    ||| u == 0xa0
    ||| u == 0x1680
    ||| 0x2000 <= u <= 0x200a
    ||| u == 0x2028
    ||| u == 0x2029
    ||| u == 0x202f
    ||| u == 0x205f
    ||| u == 0x3000
}

/// Whether `c` is Unicode whitespace.
pub fn is_whitespace(c: char) -> (b: bool)
    ensures
        b == is_unicode_whitespace(c),
{
    let u = c as u32;
    (0x09 <= u && u <= 0x0d) || u == 0x20 || u == 0x85 || u == 0xa0 || u == 0x1680 || (0x2000
        <= u && u <= 0x200a) || u == 0x2028 || u == 0x2029 || u == 0x202f || u == 0x205f || u
        == 0x3000
}

/// The characters of `s` that are not whitespace, in order.
pub open spec fn without_whitespace(s: Seq<char>) -> Seq<char> {
    s.filter(|c: char| !is_unicode_whitespace(c))
}

/// Dropping whitespace leaves no whitespace: no character kept is a
/// Unicode space, and in particular no line feed, carriage return, tab or
/// space survives.
pub proof fn law_without_whitespace_has_none(s: Seq<char>)
    ensures
        forall|i: int|
            0 <= i < without_whitespace(s).len() ==> !is_unicode_whitespace(
                #[trigger] without_whitespace(s)[i],
            ) && without_whitespace(s)[i] != '\n' && without_whitespace(s)[i] != '\r'
                && without_whitespace(s)[i] != '\t' && without_whitespace(s)[i] != ' ',
{
    assert forall|i: int| 0 <= i < without_whitespace(s).len() implies !is_unicode_whitespace(
        #[trigger] without_whitespace(s)[i],
    ) by {
        s.lemma_filter_pred(|c: char| !is_unicode_whitespace(c), i);
    }
}

/// Text with no whitespace in it is kept whole.
pub proof fn law_without_whitespace_keeps_text(s: Seq<char>)
    requires
        forall|i: int| 0 <= i < s.len() ==> !is_unicode_whitespace(#[trigger] s[i]),
    ensures
        without_whitespace(s) == s,
    decreases s.len(),
{
    reveal(Seq::filter);
    if s.len() > 0 {
        law_without_whitespace_keeps_text(s.drop_last());
        assert(s.drop_last().push(s.last()) =~= s);
    }
}

/// A whitespace character anywhere in the text makes no difference to what
/// is kept: `a`, `c`, `b` and `a`, `b` keep the same characters. So a CRLF
/// line ending gives what an LF one gives, and a tab what no tab gives.
pub proof fn law_without_whitespace_ignores_insertion(a: Seq<char>, c: char, b: Seq<char>)
    requires
        is_unicode_whitespace(c),
    ensures
        without_whitespace(a + seq![c] + b) == without_whitespace(a + b),
{
    let p = |x: char| !is_unicode_whitespace(x);
    Seq::filter_distributes_over_add(a + seq![c], b, p);
    Seq::filter_distributes_over_add(a, seq![c], p);
    Seq::filter_distributes_over_add(a, b, p);
    assert(seq![c].filter(p) =~= Seq::<char>::empty()) by {
        reveal(Seq::filter);
        let e = seq![c].drop_last();
        assert(e.len() == 0);
        assert(e.filter(p).len() == 0);
        assert(!p(seq![c].last()));
        assert(seq![c].filter(p) == e.filter(p));
    }
    assert(a.filter(p) + Seq::<char>::empty() =~= a.filter(p));
}

/// The characters that PEM text is wrapped with are whitespace.
pub proof fn law_line_breaks_are_whitespace()
    ensures
        is_unicode_whitespace('\n'),
        is_unicode_whitespace('\r'),
        is_unicode_whitespace('\t'),
        is_unicode_whitespace(' '),
{
}

// ── trimming ─────────────────────────────────────────────────────────────

/// `[a, b)` are the bounds that trimming leaves of `s`: everything outside
/// is whitespace, and the kept part starts and ends on a non-whitespace
/// character (or is empty and sits at the end).
pub open spec fn trim_bounds(s: Seq<char>, a: int, b: int) -> bool {
    &&& 0 <= a <= b <= s.len()
    &&& forall|i: int| 0 <= i < a ==> is_unicode_whitespace(#[trigger] s[i])
    &&& forall|i: int| b <= i < s.len() ==> is_unicode_whitespace(#[trigger] s[i])
    &&& a < b ==> !is_unicode_whitespace(s[a]) && !is_unicode_whitespace(s[b - 1])
    &&& a == b ==> b == s.len()
}

/// `s` with leading and trailing Unicode whitespace removed (`str::trim`).
pub open spec fn trim(s: Seq<char>) -> Seq<char> {
    let (a, b) = choose|a: int, b: int| trim_bounds(s, a, b);
    s.subrange(a, b)
}

/// Two pairs of trim bounds of one sequence keep the same characters.
pub proof fn lemma_trim_bounds_unique(s: Seq<char>, a1: int, b1: int, a2: int, b2: int)
    requires
        trim_bounds(s, a1, b1),
        trim_bounds(s, a2, b2),
    ensures
        a1 == a2,
        b1 == b2,
{
    if a1 < b1 {
        if a2 < a1 {
            assert(is_unicode_whitespace(s[a2]));
        }
        if a1 < a2 {
            assert(is_unicode_whitespace(s[a1]));
        }
        if b2 < b1 {
            assert(is_unicode_whitespace(s[b1 - 1]));
        }
        if b1 < b2 {
            assert(is_unicode_whitespace(s[b2 - 1]));
        }
    } else if a2 < b2 {
        if a1 < a2 {
            assert(is_unicode_whitespace(s[a1]));
        }
        if a2 < a1 {
            assert(is_unicode_whitespace(s[a2]));
        }
    }
}

/// Finds the bounds that `str::trim` keeps of `s`.
pub fn trimmed_range(s: &[char]) -> (r: (usize, usize))
    ensures
        trim_bounds(s@, r.0 as int, r.1 as int),
        s@.subrange(r.0 as int, r.1 as int) == trim(s@),
{
    let mut a: usize = 0;
    while a < s.len() && is_whitespace(s[a])
        invariant
            a <= s.len(),
            forall|i: int| 0 <= i < a ==> is_unicode_whitespace(#[trigger] s@[i]),
        decreases s.len() - a,
    {
        a = a + 1;
    }
    let mut b: usize = s.len();
    while b > a && is_whitespace(s[b - 1])
        invariant
            a <= b <= s.len(),
            forall|i: int| b <= i < s.len() ==> is_unicode_whitespace(#[trigger] s@[i]),
        decreases b,
    {
        b = b - 1;
    }
    proof {
        assert(trim_bounds(s@, a as int, b as int));
        let (a2, b2) = choose|a2: int, b2: int| trim_bounds(s@, a2, b2);
        lemma_trim_bounds_unique(s@, a as int, b as int, a2, b2);
    }
    (a, b)
}

// ── searching ────────────────────────────────────────────────────────────

/// `i` is the position of the first `c` in `s`.
pub open spec fn is_first_index(s: Seq<char>, c: char, i: int) -> bool {
    &&& 0 <= i < s.len()
    &&& s[i] == c
    &&& forall|j: int| 0 <= j < i ==> s[j] != c
}

/// `i` is the position of the last `c` in `s`.
pub open spec fn is_last_index(s: Seq<char>, c: char, i: int) -> bool {
    &&& 0 <= i < s.len()
    &&& s[i] == c
    &&& forall|j: int| i < j < s.len() ==> s[j] != c
}

/// Position of the first `c` in `s`, if any.
pub open spec fn first_index_of(s: Seq<char>, c: char) -> Option<int> {
    if s.contains(c) {
        Some(choose|i: int| is_first_index(s, c, i))
    } else {
        None
    }
}

/// Position of the last `c` in `s`, if any.
pub open spec fn last_index_of(s: Seq<char>, c: char) -> Option<int> {
    if s.contains(c) {
        Some(choose|i: int| is_last_index(s, c, i))
    } else {
        None
    }
}

/// The first index is unique.
pub proof fn lemma_first_index(s: Seq<char>, c: char, i: int)
    requires
        is_first_index(s, c, i),
    ensures
        first_index_of(s, c) == Some(i),
{
    assert(s.contains(c));
    let k = choose|k: int| is_first_index(s, c, k);
    assert(is_first_index(s, c, k));
    if k < i {
        assert(s[k] != c);
    }
    if i < k {
        assert(s[i] != c);
    }
}

/// The last index is unique.
pub proof fn lemma_last_index(s: Seq<char>, c: char, i: int)
    requires
        is_last_index(s, c, i),
    ensures
        last_index_of(s, c) == Some(i),
{
    assert(s.contains(c));
    let k = choose|k: int| is_last_index(s, c, k);
    assert(is_last_index(s, c, k));
    if k < i {
        assert(s[i] != c);
    }
    if i < k {
        assert(s[k] != c);
    }
}

/// Position of the first `c` in `s`.
pub fn find_char(s: &[char], c: char) -> (r: Option<usize>)
    ensures
        r matches Some(i) ==> is_first_index(s@, c, i as int),
        r is None <==> !s@.contains(c),
        r matches Some(i) ==> first_index_of(s@, c) == Some(i as int),
        r is None ==> first_index_of(s@, c) is None,
{
    let mut i: usize = 0;
    while i < s.len()
        invariant
            i <= s.len(),
            forall|j: int| 0 <= j < i ==> s@[j] != c,
        decreases s.len() - i,
    {
        if s[i] == c {
            proof {
                lemma_first_index(s@, c, i as int);
            }
            return Some(i);
        }
        i = i + 1;
    }
    None
}

/// Position of the last `c` in `s`.
pub fn rfind_char(s: &[char], c: char) -> (r: Option<usize>)
    ensures
        r matches Some(i) ==> is_last_index(s@, c, i as int),
        r is None <==> !s@.contains(c),
        r matches Some(i) ==> last_index_of(s@, c) == Some(i as int),
        r is None ==> last_index_of(s@, c) is None,
{
    let mut i: usize = s.len();
    while i > 0
        invariant
            i <= s.len(),
            forall|j: int| i <= j < s.len() ==> s@[j] != c,
        decreases i,
    {
        if s[i - 1] == c {
            proof {
                lemma_last_index(s@, c, i - 1);
            }
            return Some(i - 1);
        }
        i = i - 1;
    }
    None
}

/// Whether `s` begins with `prefix`.
pub fn starts_with(s: &[char], prefix: &[char]) -> (b: bool)
    ensures
        b == (prefix@.len() <= s@.len() && s@.subrange(0, prefix@.len() as int) == prefix@),
{
    if prefix.len() > s.len() {
        return false;
    }
    let mut i: usize = 0;
    while i < prefix.len()
        invariant
            i <= prefix.len() <= s.len(),
            forall|j: int| 0 <= j < i ==> s@[j] == prefix@[j],
        decreases prefix.len() - i,
    {
        if s[i] != prefix[i] {
            assert(s@.subrange(0, prefix@.len() as int)[i as int] != prefix@[i as int]);
            return false;
        }
        i = i + 1;
    }
    assert(s@.subrange(0, prefix@.len() as int) =~= prefix@);
    true
}

/// `s` splits at the first `c`: the part before and the part after it.
pub open spec fn split_once(s: Seq<char>, c: char) -> Option<(Seq<char>, Seq<char>)> {
    match first_index_of(s, c) {
        Some(i) => Some((s.subrange(0, i), s.subrange(i + 1, s.len() as int))),
        None => None,
    }
}

/// The part of `s` after its last `c`; all of `s` when there is none
/// (the last item of `s.split(c)`).
pub open spec fn last_segment(s: Seq<char>, c: char) -> Seq<char> {
    match last_index_of(s, c) {
        Some(i) => s.subrange(i + 1, s.len() as int),
        None => s,
    }
}

// ── decimal numbers ──────────────────────────────────────────────────────

/// Whether `c` is an ASCII decimal digit.
pub open spec fn is_digit(c: char) -> bool {
    '0' <= c <= '9'
}

/// The value of a digit character.
pub open spec fn digit_value(c: char) -> nat {
    (c as u32 - '0' as u32) as nat
}

/// The value of a string of decimal digits.
pub open spec fn decimal_value(d: Seq<char>) -> nat
    decreases d.len(),
{
    if d.len() == 0 {
        0
    } else {
        decimal_value(d.drop_last()) * 10 + digit_value(d.last())
    }
}

/// All of `d` are decimal digits.
pub open spec fn all_digits(d: Seq<char>) -> bool {
    forall|i: int| 0 <= i < d.len() ==> is_digit(#[trigger] d[i])
}

/// The number that `FromStr` for an unsigned integer type whose largest
/// value is `max` reads from `s`: an optional `+`, then one or more decimal
/// digits whose value is at most `max`.
pub open spec fn parse_unsigned(s: Seq<char>, max: nat) -> Option<nat> {
    let digits = if s.len() > 0 && s[0] == '+' {
        s.drop_first()
    } else {
        s
    };
    if digits.len() == 0 || !all_digits(digits) || decimal_value(digits) > max {
        None
    } else {
        Some(decimal_value(digits))
    }
}

/// A longer run of digits is worth at least as much as its prefix.
pub proof fn lemma_decimal_value_monotone(d: Seq<char>, i: int, j: int)
    requires
        0 <= i <= j <= d.len(),
    ensures
        decimal_value(d.subrange(0, i)) <= decimal_value(d.subrange(0, j)),
    decreases j - i,
{
    if i < j {
        lemma_decimal_value_monotone(d, i, j - 1);
        assert(d.subrange(0, j).drop_last() =~= d.subrange(0, j - 1));
    }
}

/// Reads an unsigned decimal number no larger than `max` from
/// `s[start..end]`, as `FromStr` does.
pub fn parse_unsigned_in(s: &[char], start: usize, end: usize, max: u32) -> (r: Option<u32>)
    requires
        start <= end <= s@.len(),
        max <= 0x00ff_ffff,
    ensures
        r matches Some(v) ==> parse_unsigned(s@.subrange(start as int, end as int), max as nat)
            == Some(v as nat),
        r is None ==> parse_unsigned(s@.subrange(start as int, end as int), max as nat) is None,
{
    let ghost whole = s@.subrange(start as int, end as int);
    if start == end {
        return None;
    }
    let mut i: usize = start;
    if s[start] == '+' {
        i = start + 1;
    }
    let first = i;
    let ghost digits = s@.subrange(first as int, end as int);
    assert(digits =~= (if whole.len() > 0 && whole[0] == '+' {
        whole.drop_first()
    } else {
        whole
    }));
    if first == end {
        return None;
    }
    let mut acc: u32 = 0;
    while i < end
        invariant
            start <= first <= i <= end <= s@.len(),
            digits == s@.subrange(first as int, end as int),
            whole == s@.subrange(start as int, end as int),
            digits == (if whole.len() > 0 && whole[0] == '+' {
                whole.drop_first()
            } else {
                whole
            }),
            digits.len() > 0,
            max <= 0x00ff_ffff,
            acc <= max,
            acc as nat == decimal_value(digits.subrange(0, i - first)),
            all_digits(digits.subrange(0, i - first)),
        decreases end - i,
    {
        let c = s[i];
        if !('0' <= c && c <= '9') {
            assert(!is_digit(digits[i - first]));
            return None;
        }
        let d = (c as u32) - ('0' as u32);
        proof {
            assert(digits.subrange(0, i + 1 - first).drop_last() =~= digits.subrange(0, i - first));
            assert(digits.subrange(0, i + 1 - first).last() == c);
        }
        assert(acc * 10 + d <= 0xffff_ffff) by (nonlinear_arith)
            requires
                acc <= max,
                max <= 0x00ff_ffff,
                d <= 9,
        ;
        let next = acc * 10 + d;
        if next > max {
            proof {
                lemma_decimal_value_monotone(digits, i + 1 - first, digits.len() as int);
                assert(digits.subrange(0, digits.len() as int) =~= digits);
            }
            return None;
        }
        acc = next;
        i = i + 1;
        proof {
            assert forall|k: int| 0 <= k < i - first implies is_digit(
                #[trigger] digits.subrange(0, i - first)[k],
            ) by {
                if k < i - 1 - first {
                    assert(digits.subrange(0, i - first)[k] == digits.subrange(
                        0,
                        i - 1 - first,
                    )[k]);
                }
            }
        }
    }
    assert(digits.subrange(0, end - first) =~= digits);
    Some(acc)
}

// ── building strings ─────────────────────────────────────────────────────

/// The characters `from..to` of `s` as an owned string.
pub fn substring(s: &str, from: usize, to: usize) -> (r: String)
    requires
        from <= to <= s@.len(),
    ensures
        r@ == s@.subrange(from as int, to as int),
{
    String::from_str(s.substring_char(from, to))
}

/// Copies the characters of `s` into a vector.
pub fn chars_of(s: &str) -> (v: Vec<char>)
    ensures
        v@ == s@,
{
    let mut v: Vec<char> = Vec::new();
    for c in it: s.chars()
        invariant
            v@ == it.seq().take(it.index() as int),
            it.seq() == s@,
    {
        v.push(c);
    }
    v
}

} // verus!
