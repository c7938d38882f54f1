//! Character-sequence primitives shared by the parsers of this crate.
//!
//! Text is modelled as `Seq<char>`. Executable code works on `Vec<char>`
//! buffers and on windows `[from, to)` into them, so that scanning never
//! re-decodes a string; every function states its result over the window
//! `text@.subrange(from, to)`.

use vstd::prelude::*;

verus! {

/// `String::push` appends exactly one character to the end of the string.
pub assume_specification[ String::push ](s: &mut String, c: char)
    ensures
        final(s)@ == old(s)@.push(c),
;

/// The lowercase form of a text, as `str::to_lowercase` gives it.
pub uninterp spec fn lowercase_of(s: Seq<char>) -> Seq<char>;

/// `str::to_lowercase`: the lowercase equivalent of `s` by the Unicode
/// derived property, which depends on `s` alone. Nothing more is claimed of
/// it.
#[verifier::external_body]
pub(crate) fn to_lowercase(s: &str) -> (out: String)
    ensures
        out@ == lowercase_of(s@),
{
    s.to_lowercase()
}

// ---------------------------------------------------------------------------
// Model
// ---------------------------------------------------------------------------

/// Unicode `White_Space`, the set that trimming removes.
pub open spec fn is_whitespace(c: char) -> bool {
    let u = c as u32;
    ||| 0x09 <= u <= 0x0D
    ||| u == 0x20
    ||| u == 0x85
    ||| u == 0xA0
    ||| u == 0x1680
    ||| 0x2000 <= u <= 0x200A
    ||| u == 0x2028
    ||| u == 0x2029
    ||| u == 0x202F
    ||| u == 0x205F
    ||| u == 0x3000
}

/// `s` without its leading whitespace.
pub open spec fn trim_start(s: Seq<char>) -> Seq<char>
    decreases s.len(),
{
    if s.len() > 0 && is_whitespace(s[0]) {
        trim_start(s.drop_first())
    } else {
        s
    }
}

/// `s` without its trailing whitespace.
pub open spec fn trim_end(s: Seq<char>) -> Seq<char>
    decreases s.len(),
{
    if s.len() > 0 && is_whitespace(s.last()) {
        trim_end(s.drop_last())
    } else {
        s
    }
}

/// `s` without leading and trailing whitespace.
pub open spec fn trim(s: Seq<char>) -> Seq<char> {
    trim_end(trim_start(s))
}

/// `needle` occurs in `hay` at position `at`.
pub open spec fn occurs_at(hay: Seq<char>, needle: Seq<char>, at: int) -> bool {
    &&& 0 <= at
    &&& at + needle.len() <= hay.len()
    &&& hay.subrange(at, at + needle.len()) == needle
}

/// `needle` is a contiguous part of `hay`.
pub open spec fn contains(hay: Seq<char>, needle: Seq<char>) -> bool {
    exists|at: int| occurs_at(hay, needle, at)
}

/// `s` begins with `prefix`.
pub open spec fn starts_with(s: Seq<char>, prefix: Seq<char>) -> bool {
    occurs_at(s, prefix, 0)
}

/// `s` ends with `suffix`.
pub open spec fn ends_with(s: Seq<char>, suffix: Seq<char>) -> bool {
    occurs_at(s, suffix, s.len() - suffix.len())
}

/// The position of the first `c` in `s`, or `s.len()` where there is none.
pub open spec fn find_char(s: Seq<char>, c: char) -> int
    decreases s.len(),
{
    if s.len() == 0 || s[0] == c {
        0
    } else {
        1 + find_char(s.drop_first(), c)
    }
}

/// `s` with every `from` replaced by `to`.
pub open spec fn replace_char(s: Seq<char>, from: char, to: char) -> Seq<char> {
    Seq::new(s.len(), |i: int| if s[i] == from { to } else { s[i] })
}

/// `s` with every trailing repetition of the non-empty `pattern` removed.
pub open spec fn strip_trailing(s: Seq<char>, pattern: Seq<char>) -> Seq<char>
    decreases s.len(),
{
    if pattern.len() > 0 && ends_with(s, pattern) {
        strip_trailing(s.take(s.len() - pattern.len()), pattern)
    } else {
        s
    }
}

/// The first line of a non-empty text: what precedes the first line feed,
/// less a carriage return directly before that line feed.
pub open spec fn first_line(s: Seq<char>) -> Seq<char> {
    let n = find_char(s, '\n');
    if 0 < n < s.len() && s[n - 1] == '\r' {
        s.take(n - 1)
    } else {
        s.take(n)
    }
}

/// What follows the first line of a text: everything after the first line
/// feed, or nothing where there is none.
pub open spec fn after_first_line(s: Seq<char>) -> Seq<char> {
    let n = find_char(s, '\n');
    if n < s.len() {
        s.skip(n + 1)
    } else {
        Seq::empty()
    }
}

/// The lines of a text. A final line feed ends the last line and starts no
/// further one, so the empty text has no line.
pub open spec fn lines(s: Seq<char>) -> Seq<Seq<char>>
    decreases s.len(),
    via lines_decreases
{
    if s.len() == 0 {
        Seq::empty()
    } else {
        seq![first_line(s)] + lines(after_first_line(s))
    }
}

#[via_fn]
proof fn lines_decreases(s: Seq<char>) {
    lemma_find_char_bounds(s, '\n');
}

/// The character that writes the decimal digit `d`.
pub open spec fn digit_char(d: int) -> char {
    if d == 0 {
        '0'
    } else if d == 1 {
        '1'
    } else if d == 2 {
        '2'
    } else if d == 3 {
        '3'
    } else if d == 4 {
        '4'
    } else if d == 5 {
        '5'
    } else if d == 6 {
        '6'
    } else if d == 7 {
        '7'
    } else if d == 8 {
        '8'
    } else {
        '9'
    }
}

/// The decimal digits of a natural number, most significant first, without
/// leading zeros.
pub open spec fn decimal_nat(n: nat) -> Seq<char>
    decreases n,
{
    if n < 10 {
        seq![digit_char(n as int)]
    } else {
        decimal_nat(n / 10).push(digit_char((n % 10) as int))
    }
}

/// An integer in decimal, with a leading minus sign where it is negative.
pub open spec fn decimal(n: int) -> Seq<char> {
    if n < 0 {
        seq!['-'] + decimal_nat((-n) as nat)
    } else {
        decimal_nat(n as nat)
    }
}

/// The views of a vector of strings, in order.
pub open spec fn views(v: Seq<String>) -> Seq<Seq<char>> {
    Seq::new(v.len(), |i: int| v[i]@)
}

/// The views of a vector of string slices, in order.
pub open spec fn str_views(v: Seq<&'static str>) -> Seq<Seq<char>> {
    Seq::new(v.len(), |i: int| v[i]@)
}

/// `text` contains at least one of `patterns`.
pub open spec fn contains_any(text: Seq<char>, patterns: Seq<Seq<char>>) -> bool {
    exists|i: int| 0 <= i < patterns.len() && contains(text, #[trigger] patterns[i])
}

/// `text` begins with at least one of `patterns`.
pub open spec fn starts_with_any(text: Seq<char>, patterns: Seq<Seq<char>>) -> bool {
    exists|i: int| 0 <= i < patterns.len() && starts_with(text, #[trigger] patterns[i])
}

/// `s` holds at least one character of `set`.
pub open spec fn has_char_of(s: Seq<char>, set: Seq<char>) -> bool {
    exists|i: int| 0 <= i < s.len() && set.contains(#[trigger] s[i])
}

/// `s` with every occurrence of the non-empty `pattern` removed, scanning
/// from the left.
pub open spec fn remove_all(s: Seq<char>, pattern: Seq<char>) -> Seq<char>
    decreases s.len(),
{
    if s.len() == 0 {
        s
    } else if pattern.len() > 0 && starts_with(s, pattern) {
        remove_all(s.skip(pattern.len() as int), pattern)
    } else {
        seq![s[0]] + remove_all(s.drop_first(), pattern)
    }
}

/// The position of the last `c` in `s`, or -1 where there is none.
pub open spec fn find_last_char(s: Seq<char>, c: char) -> int
    decreases s.len(),
{
    if s.len() == 0 {
        -1
    } else if s.last() == c {
        s.len() - 1
    } else {
        find_last_char(s.drop_last(), c)
    }
}

// ---------------------------------------------------------------------------
// Lemmas
// ---------------------------------------------------------------------------

/// Filtering a sequence that ends in `x` keeps `x` exactly where the test
/// holds of it.
pub proof fn lemma_filter_push<A>(s: Seq<A>, x: A, pred: spec_fn(A) -> bool)
    ensures
        s.push(x).filter(pred) == if pred(x) {
            s.filter(pred).push(x)
        } else {
            s.filter(pred)
        },
{
    reveal(Seq::filter);
    assert(s.push(x).drop_last() =~= s);
}

/// Every element that a filter keeps comes from the sequence it was
/// applied to.
pub proof fn lemma_filter_subset<A>(s: Seq<A>, pred: spec_fn(A) -> bool)
    ensures
        forall|i: int| 0 <= i < s.filter(pred).len() ==> s.contains(#[trigger] s.filter(pred)[i]),
    decreases s.len(),
{
    reveal(Seq::filter);
    if s.len() > 0 {
        let rest = s.drop_last();
        lemma_filter_subset(rest, pred);
        assert forall|i: int| 0 <= i < s.filter(pred).len() implies s.contains(
            #[trigger] s.filter(pred)[i],
        ) by {
            if i < rest.filter(pred).len() {
                let x = rest.filter(pred)[i];
                assert(rest.contains(x));
                let j = choose|j: int| 0 <= j < rest.len() && rest[j] == x;
                assert(s[j] == x);
            } else {
                assert(s.filter(pred)[i] == s[s.len() - 1]);
            }
        }
    }
}

/// A filter keeps a sequence free of duplicates.
pub proof fn lemma_filter_no_duplicates<A>(s: Seq<A>, pred: spec_fn(A) -> bool)
    requires
        s.no_duplicates(),
    ensures
        s.filter(pred).no_duplicates(),
    decreases s.len(),
{
    reveal(Seq::filter);
    if s.len() > 0 {
        let rest = s.drop_last();
        lemma_filter_no_duplicates(rest, pred);
        lemma_filter_subset(rest, pred);
        if pred(s.last()) {
            let kept = rest.filter(pred);
            assert forall|i: int| 0 <= i < kept.len() implies kept[i] != s.last() by {
                assert(rest.contains(kept[i]));
                let j = choose|j: int| 0 <= j < rest.len() && rest[j] == kept[i];
                assert(s[j] == rest[j]);
            }
        }
    }
}

/// `find_char` stays within the text and stops at the character it looks for.
pub proof fn lemma_find_char_bounds(s: Seq<char>, c: char)
    ensures
        0 <= find_char(s, c) <= s.len(),
        find_char(s, c) < s.len() ==> s[find_char(s, c)] == c,
        forall|j: int| 0 <= j < find_char(s, c) ==> s[j] != c,
    decreases s.len(),
{
    if s.len() == 0 || s[0] == c {
    } else {
        let rest = s.drop_first();
        lemma_find_char_bounds(rest, c);
        assert forall|j: int| 0 <= j < find_char(s, c) implies s[j] != c by {
            if j > 0 {
                assert(s[j] == rest[j - 1]);
            }
        }
    }
}

/// The first position that holds `c`, with no `c` before it, is what
/// `find_char` gives.
pub proof fn lemma_find_char_is(s: Seq<char>, c: char, k: int)
    requires
        0 <= k <= s.len(),
        forall|j: int| 0 <= j < k ==> s[j] != c,
        k < s.len() ==> s[k] == c,
    ensures
        find_char(s, c) == k,
    decreases s.len(),
{
    if s.len() == 0 || s[0] == c {
    } else {
        let rest = s.drop_first();
        assert forall|j: int| 0 <= j < k - 1 implies rest[j] != c by {
            assert(rest[j] == s[j + 1]);
        }
        lemma_find_char_is(rest, c, k - 1);
    }
}

// ---------------------------------------------------------------------------
// Executable primitives
// ---------------------------------------------------------------------------

/// The characters of `s`, in order.
pub fn chars_of(s: &str) -> (out: Vec<char>)
    ensures
        out@ == s@,
{
    let mut out: Vec<char> = Vec::new();
    for c in it: s.chars()
        invariant
            out@ == it.seq().take(it.index()),
            it.seq() == s@,
    {
        out.push(c);
    }
    out
}

/// The string made of the characters `text[from..to]`.
pub fn string_of_range(text: &Vec<char>, from: usize, to: usize) -> (out: String)
    requires
        from <= to <= text.len(),
    ensures
        out@ == text@.subrange(from as int, to as int),
{
    let mut out = String::new();
    let mut i: usize = from;
    while i < to
        invariant
            from <= i <= to <= text.len(),
            out@ == text@.subrange(from as int, i as int),
        decreases to - i,
    {
        out.push(text[i]);
        i += 1;
    }
    out
}

/// Whether `c` is whitespace.
pub fn char_is_whitespace(c: char) -> (r: bool)
    ensures
        r == is_whitespace(c),
{
    let u: u32 = c as u32;
    (0x09 <= u && u <= 0x0D) || u == 0x20 || u == 0x85 || u == 0xA0 || u == 0x1680 || (0x2000 <= u
        && u <= 0x200A) || u == 0x2028 || u == 0x2029 || u == 0x202F || u == 0x205F || u == 0x3000
}

/// Whether `needle` stands at position `at` of the window `text[..to]`.
pub fn matches_at(text: &Vec<char>, at: usize, to: usize, needle: &Vec<char>) -> (r: bool)
    requires
        at <= to <= text.len(),
    ensures
        r == (at + needle.len() <= to && text@.subrange(at as int, at + needle.len())
            == needle@),
{
    let m = needle.len();
    if m > to - at {
        return false;
    }
    let mut i: usize = 0;
    while i < m
        invariant
            at + m <= to <= text.len(),
            m == needle.len(),
            i <= m,
            forall|j: int| 0 <= j < i ==> text[at + j] == needle[j],
        decreases m - i,
    {
        if text[at + i] != needle[i] {
            assert(text@.subrange(at as int, at + m)[i as int] == text[at + i]);
            return false;
        }
        i += 1;
    }
    assert(text@.subrange(at as int, at + m) =~= needle@);
    true
}

/// Whether the window `text[from..to]` begins with `needle`.
pub fn range_starts_with(text: &Vec<char>, from: usize, to: usize, needle: &Vec<char>) -> (r: bool)
    requires
        from <= to <= text.len(),
    ensures
        r == starts_with(text@.subrange(from as int, to as int), needle@),
{
    let r = matches_at(text, from, to, needle);
    proof {
        let w = text@.subrange(from as int, to as int);
        if from + needle.len() <= to {
            assert(w.subrange(0, needle.len() as int) =~= text@.subrange(
                from as int,
                from + needle.len(),
            ));
        }
    }
    r
}

/// Whether the window `text[from..to]` ends with `needle`.
pub fn range_ends_with(text: &Vec<char>, from: usize, to: usize, needle: &Vec<char>) -> (r: bool)
    requires
        from <= to <= text.len(),
    ensures
        r == ends_with(text@.subrange(from as int, to as int), needle@),
{
    let m = needle.len();
    if m > to - from {
        return false;
    }
    let r = matches_at(text, to - m, to, needle);
    proof {
        let w = text@.subrange(from as int, to as int);
        assert(w.subrange(w.len() - m, w.len() - m + m) =~= text@.subrange(to - m, to - m + m));
    }
    r
}

/// Whether the window `text[from..to]` contains `needle`.
pub fn range_contains(text: &Vec<char>, from: usize, to: usize, needle: &Vec<char>) -> (r: bool)
    requires
        from <= to <= text.len(),
    ensures
        r == contains(text@.subrange(from as int, to as int), needle@),
{
    let ghost w = text@.subrange(from as int, to as int);
    let m = needle.len();
    if m > to - from {
        assert forall|at: int| !occurs_at(w, needle@, at) by {}
        return false;
    }
    let last = to - m;
    let mut i: usize = from;
    loop
        invariant
            from <= i <= last,
            last + m == to,
            to <= text.len(),
            m == needle.len(),
            w == text@.subrange(from as int, to as int),
            forall|at: int| 0 <= at < i - from ==> !occurs_at(w, needle@, at),
        decreases last - i,
    {
        let hit = matches_at(text, i, to, needle);
        assert(w.subrange(i - from, i - from + m) =~= text@.subrange(i as int, i + m));
        if hit {
            assert(occurs_at(w, needle@, i - from));
            return true;
        }
        if i == last {
            assert forall|at: int| !occurs_at(w, needle@, at) by {}
            return false;
        }
        i += 1;
    }
}

/// The first position in `text[from..to]` that holds `c`, or `to`.
pub fn range_find_char(text: &Vec<char>, from: usize, to: usize, c: char) -> (r: usize)
    requires
        from <= to <= text.len(),
    ensures
        from <= r <= to,
        r - from == find_char(text@.subrange(from as int, to as int), c),
{
    let ghost w = text@.subrange(from as int, to as int);
    let mut i: usize = from;
    while i < to && text[i] != c
        invariant
            from <= i <= to <= text.len(),
            w == text@.subrange(from as int, to as int),
            forall|j: int| 0 <= j < i - from ==> w[j] != c,
        decreases to - i,
    {
        i += 1;
    }
    proof {
        lemma_find_char_is(w, c, i - from);
    }
    i
}

/// The bounds of `text[from..to]` without its leading and trailing whitespace.
pub fn trim_range(text: &Vec<char>, from: usize, to: usize) -> (r: (usize, usize))
    requires
        from <= to <= text.len(),
    ensures
        from <= r.0 <= r.1 <= to,
        text@.subrange(r.0 as int, r.1 as int) == trim(text@.subrange(from as int, to as int)),
{
    let mut a: usize = from;
    while a < to && char_is_whitespace(text[a])
        invariant
            from <= a <= to <= text.len(),
            trim_start(text@.subrange(from as int, to as int)) == trim_start(
                text@.subrange(a as int, to as int),
            ),
        decreases to - a,
    {
        assert(text@.subrange(a as int, to as int).drop_first() =~= text@.subrange(
            a + 1,
            to as int,
        ));
        a += 1;
    }
    let mut b: usize = to;
    while a < b && char_is_whitespace(text[b - 1])
        invariant
            a <= b <= to <= text.len(),
            trim_end(text@.subrange(a as int, to as int)) == trim_end(
                text@.subrange(a as int, b as int),
            ),
        decreases b - a,
    {
        assert(text@.subrange(a as int, b as int).drop_last() =~= text@.subrange(
            a as int,
            b - 1,
        ));
        b -= 1;
    }
    (a, b)
}

/// The end of `text[from..to]` once every trailing repetition of `pattern`
/// is removed.
pub fn strip_trailing_range(text: &Vec<char>, from: usize, to: usize, pattern: &Vec<char>) -> (r:
    usize)
    requires
        from <= to <= text.len(),
    ensures
        from <= r <= to,
        text@.subrange(from as int, r as int) == strip_trailing(
            text@.subrange(from as int, to as int),
            pattern@,
        ),
{
    let m = pattern.len();
    let mut b: usize = to;
    if m == 0 {
        return b;
    }
    while range_ends_with(text, from, b, pattern)
        invariant
            from <= b <= to <= text.len(),
            m == pattern.len(),
            m > 0,
            strip_trailing(text@.subrange(from as int, to as int), pattern@) == strip_trailing(
                text@.subrange(from as int, b as int),
                pattern@,
            ),
        decreases b,
    {
        let ghost w = text@.subrange(from as int, b as int);
        assert(w.take(w.len() - m) =~= text@.subrange(from as int, b - m));
        b -= m;
    }
    b
}

/// Appends `text[from..to]` to `out`, writing `to_char` for every `from_char`.
pub fn push_replaced(
    out: &mut String,
    text: &Vec<char>,
    from: usize,
    to: usize,
    from_char: char,
    to_char: char,
)
    requires
        from <= to <= text.len(),
    ensures
        final(out)@ == old(out)@ + replace_char(
            text@.subrange(from as int, to as int),
            from_char,
            to_char,
        ),
{
    let ghost w = text@.subrange(from as int, to as int);
    let mut i: usize = from;
    while i < to
        invariant
            from <= i <= to <= text.len(),
            w == text@.subrange(from as int, to as int),
            out@ == old(out)@ + replace_char(w, from_char, to_char).take(i - from),
        decreases to - i,
    {
        let c = text[i];
        if c == from_char {
            out.push(to_char);
        } else {
            out.push(c);
        }
        assert(replace_char(w, from_char, to_char).take(i - from + 1) =~= replace_char(
            w,
            from_char,
            to_char,
        ).take(i - from).push(replace_char(w, from_char, to_char)[i - from]));
        i += 1;
    }
    assert(replace_char(w, from_char, to_char).take(to - from) =~= replace_char(
        w,
        from_char,
        to_char,
    ));
}

/// Appends `text[from..to]` to `out`.
pub fn push_range(out: &mut String, text: &Vec<char>, from: usize, to: usize)
    requires
        from <= to <= text.len(),
    ensures
        final(out)@ == old(out)@ + text@.subrange(from as int, to as int),
{
    let mut i: usize = from;
    while i < to
        invariant
            from <= i <= to <= text.len(),
            out@ == old(out)@ + text@.subrange(from as int, i as int),
        decreases to - i,
    {
        out.push(text[i]);
        assert(text@.subrange(from as int, i + 1) =~= text@.subrange(from as int, i as int).push(
            text[i as int],
        ));
        i += 1;
    }
}

fn digit_of(d: u64) -> (c: char)
    requires
        d < 10,
    ensures
        c == digit_char(d as int),
{
    if d == 0 {
        '0'
    } else if d == 1 {
        '1'
    } else if d == 2 {
        '2'
    } else if d == 3 {
        '3'
    } else if d == 4 {
        '4'
    } else if d == 5 {
        '5'
    } else if d == 6 {
        '6'
    } else if d == 7 {
        '7'
    } else if d == 8 {
        '8'
    } else {
        '9'
    }
}

/// Appends `n` in decimal to `out`.
pub fn push_decimal_u64(out: &mut String, n: u64)
    ensures
        final(out)@ == old(out)@ + decimal_nat(n as nat),
    decreases n,
{
    if n >= 10 {
        push_decimal_u64(out, n / 10);
    }
    out.push(digit_of(n % 10));
    assert(out@ =~= old(out)@ + decimal_nat(n as nat));
}

/// Appends `n` in decimal to `out`, with a minus sign where it is negative.
pub fn push_decimal_i64(out: &mut String, n: i64)
    ensures
        final(out)@ == old(out)@ + decimal(n as int),
{
    if n < 0 {
        out.push('-');
        let magnitude: u64 = if n == i64::MIN {
            9223372036854775808u64
        } else {
            (-n) as u64
        };
        push_decimal_u64(out, magnitude);
        assert(out@ =~= old(out)@ + decimal(n as int));
    } else {
        push_decimal_u64(out, n as u64);
    }
}

/// Whether the window `text[from..to]` contains one of `patterns`.
pub fn range_contains_any(
    text: &Vec<char>,
    from: usize,
    to: usize,
    patterns: &Vec<&'static str>,
) -> (r: bool)
    requires
        from <= to <= text.len(),
    ensures
        r == contains_any(text@.subrange(from as int, to as int), str_views(patterns@)),
{
    let ghost w = text@.subrange(from as int, to as int);
    let ghost ps = str_views(patterns@);
    let mut i: usize = 0;
    while i < patterns.len()
        invariant
            i <= patterns.len(),
            from <= to <= text.len(),
            w == text@.subrange(from as int, to as int),
            ps == str_views(patterns@),
            forall|j: int| 0 <= j < i ==> !contains(w, #[trigger] ps[j]),
        decreases patterns.len() - i,
    {
        let needle = chars_of(patterns[i]);
        if range_contains(text, from, to, &needle) {
            assert(contains(w, ps[i as int]));
            return true;
        }
        i += 1;
    }
    false
}

/// Whether the window `text[from..to]` begins with one of `patterns`.
pub fn range_starts_with_any(
    text: &Vec<char>,
    from: usize,
    to: usize,
    patterns: &Vec<&'static str>,
) -> (r: bool)
    requires
        from <= to <= text.len(),
    ensures
        r == starts_with_any(text@.subrange(from as int, to as int), str_views(patterns@)),
{
    let ghost w = text@.subrange(from as int, to as int);
    let ghost ps = str_views(patterns@);
    let mut i: usize = 0;
    while i < patterns.len()
        invariant
            i <= patterns.len(),
            from <= to <= text.len(),
            w == text@.subrange(from as int, to as int),
            ps == str_views(patterns@),
            forall|j: int| 0 <= j < i ==> !starts_with(w, #[trigger] ps[j]),
        decreases patterns.len() - i,
    {
        let needle = chars_of(patterns[i]);
        if range_starts_with(text, from, to, &needle) {
            assert(starts_with(w, ps[i as int]));
            return true;
        }
        i += 1;
    }
    false
}

/// The end of the line that starts at `pos` and the start of the next one.
///
/// `r.0` is where the line's text ends (before a line feed and a carriage
/// return that precedes it), `r.1` where the rest of the text begins.
pub fn next_line(text: &Vec<char>, pos: usize) -> (r: (usize, usize))
    requires
        pos < text.len(),
    ensures
        pos <= r.0 <= r.1 <= text.len(),
        pos < r.1,
        text@.subrange(pos as int, r.0 as int) == first_line(
            text@.subrange(pos as int, text.len() as int),
        ),
        text@.subrange(r.1 as int, text.len() as int) == after_first_line(
            text@.subrange(pos as int, text.len() as int),
        ),
{
    let n = text.len();
    let ghost w = text@.subrange(pos as int, n as int);
    let nl = range_find_char(text, pos, n, '\n');
    let end = if nl < n && nl > pos && text[nl - 1] == '\r' {
        nl - 1
    } else {
        nl
    };
    let next = if nl < n {
        nl + 1
    } else {
        n
    };
    assert(w.take(end - pos) =~= text@.subrange(pos as int, end as int));
    if nl < n {
        assert(w.skip(nl - pos + 1) =~= text@.subrange(next as int, n as int));
    } else {
        assert(text@.subrange(next as int, n as int) =~= Seq::<char>::empty());
    }
    (end, next)
}

/// Whether `set` holds `c`.
pub fn char_in(set: &Vec<char>, c: char) -> (r: bool)
    ensures
        r == set@.contains(c),
{
    let mut i: usize = 0;
    while i < set.len()
        invariant
            i <= set.len(),
            forall|j: int| 0 <= j < i ==> set[j] != c,
        decreases set.len() - i,
    {
        if set[i] == c {
            return true;
        }
        i += 1;
    }
    false
}

/// Whether the window `text[from..to]` holds a character of `set`.
pub fn range_has_char_of(text: &Vec<char>, from: usize, to: usize, set: &Vec<char>) -> (r: bool)
    requires
        from <= to <= text.len(),
    ensures
        r == has_char_of(text@.subrange(from as int, to as int), set@),
{
    let ghost w = text@.subrange(from as int, to as int);
    let mut i: usize = from;
    while i < to
        invariant
            from <= i <= to <= text.len(),
            w == text@.subrange(from as int, to as int),
            forall|j: int| 0 <= j < i - from ==> !set@.contains(#[trigger] w[j]),
        decreases to - i,
    {
        if char_in(set, text[i]) {
            assert(w[i - from] == text[i as int]);
            return true;
        }
        i += 1;
    }
    false
}

/// The position of the last `c` in `text[from..to]`, or `None`.
pub fn range_find_last_char(text: &Vec<char>, from: usize, to: usize, c: char) -> (r: Option<
    usize,
>)
    requires
        from <= to <= text.len(),
    ensures
        match r {
            Some(i) => from <= i < to && i - from == find_last_char(
                text@.subrange(from as int, to as int),
                c,
            ),
            None => find_last_char(text@.subrange(from as int, to as int), c) == -1,
        },
{
    let mut b: usize = to;
    while b > from
        invariant
            from <= b <= to <= text.len(),
            find_last_char(text@.subrange(from as int, to as int), c) == find_last_char(
                text@.subrange(from as int, b as int),
                c,
            ),
        decreases b,
    {
        if text[b - 1] == c {
            return Some(b - 1);
        }
        assert(text@.subrange(from as int, b as int).drop_last() =~= text@.subrange(
            from as int,
            b - 1,
        ));
        b -= 1;
    }
    None
}

/// With an empty pattern nothing is removed.
proof fn lemma_remove_all_empty_pattern(s: Seq<char>)
    ensures
        remove_all(s, Seq::empty()) == s,
    decreases s.len(),
{
    if s.len() > 0 {
        lemma_remove_all_empty_pattern(s.drop_first());
        assert(seq![s[0]] + s.drop_first() =~= s);
    }
}

/// Appends `text[from..to]` to `out`, leaving out every occurrence of
/// `pattern`; an empty pattern occurs nowhere.
pub fn push_without(
    out: &mut String,
    text: &Vec<char>,
    from: usize,
    to: usize,
    pattern: &Vec<char>,
)
    requires
        from <= to <= text.len(),
    ensures
        final(out)@ == old(out)@ + remove_all(text@.subrange(from as int, to as int), pattern@),
{
    let m = pattern.len();
    if m == 0 {
        proof {
            lemma_remove_all_empty_pattern(text@.subrange(from as int, to as int));
            assert(pattern@ =~= Seq::<char>::empty());
        }
        push_range(out, text, from, to);
        return;
    }
    let mut i: usize = from;
    while i < to
        invariant
            from <= i <= to <= text.len(),
            m == pattern.len(),
            m > 0,
            old(out)@ + remove_all(text@.subrange(from as int, to as int), pattern@) == out@
                + remove_all(text@.subrange(i as int, to as int), pattern@),
        decreases to - i,
    {
        let ghost w = text@.subrange(i as int, to as int);
        let ghost before = out@;
        if range_starts_with(text, i, to, pattern) {
            assert(w.skip(m as int) =~= text@.subrange(i + m, to as int));
            i += m;
        } else {
            out.push(text[i]);
            assert(w.drop_first() =~= text@.subrange(i + 1, to as int));
            assert(before.push(text[i as int]) + remove_all(w.drop_first(), pattern@) =~= before
                + (seq![w[0]] + remove_all(w.drop_first(), pattern@)));
            i += 1;
        }
    }
    assert(out@ + remove_all(text@.subrange(i as int, to as int), pattern@) =~= out@);
}

} // verus!
