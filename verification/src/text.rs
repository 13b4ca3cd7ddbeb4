//! Character classes and trimming over sequences of `char`.

use vstd::prelude::*;

verus! {

/// `char::is_whitespace`: the Unicode `White_Space` property.
pub open spec fn is_whitespace(c: char) -> bool {
    ||| ('\u{9}' <= c && c <= '\u{d}')
    ||| c == ' '
    ||| c == '\u{85}'
    ||| c == '\u{a0}'
    ||| c == '\u{1680}'
    ||| ('\u{2000}' <= c && c <= '\u{200a}')
    ||| c == '\u{2028}'
    ||| c == '\u{2029}'
    ||| c == '\u{202f}'
    ||| c == '\u{205f}'
    ||| c == '\u{3000}'
}

/// The quote and line-break characters `"`, `'`, `\r` and `\n`.
pub open spec fn is_quote_or_line_break(c: char) -> bool {
    c == '"' || c == '\'' || c == '\r' || c == '\n'
}

/// The character classes that names and values are trimmed by.
#[derive(Clone, Copy, PartialEq, Eq, Structural, Debug)]
pub enum CharClass {
    /// `char::is_whitespace`, as used by `str::trim`.
    Whitespace,
    /// What may not begin a value: whitespace, quotes and line breaks.
    ValueLead,
    /// What may not end a value: whitespace, quotes, line breaks and `/`.
    ValueTail,
}

/// Whether `c` belongs to the class `cl`.
pub open spec fn in_class(cl: CharClass, c: char) -> bool {
    match cl {
        CharClass::Whitespace => is_whitespace(c),
        CharClass::ValueLead => is_whitespace(c) || is_quote_or_line_break(c),
        CharClass::ValueTail => is_whitespace(c) || is_quote_or_line_break(c) || c == '/',
    }
}

/// `s` without its leading characters of class `cl`.
pub open spec fn trim_start(s: Seq<char>, cl: CharClass) -> Seq<char>
    decreases s.len(),
{
    if s.len() > 0 && in_class(cl, s[0]) {
        trim_start(s.drop_first(), cl)
    } else {
        s
    }
}

/// `s` without its trailing characters of class `cl`.
pub open spec fn trim_end(s: Seq<char>, cl: CharClass) -> Seq<char>
    decreases s.len(),
{
    if s.len() > 0 && in_class(cl, s.last()) {
        trim_end(s.drop_last(), cl)
    } else {
        s
    }
}

/// `s` without its leading and trailing characters of class `cl`.
pub open spec fn trim(s: Seq<char>, cl: CharClass) -> Seq<char> {
    trim_end(trim_start(s, cl), cl)
}

/// `trim_start` keeps a suffix of `s` whose first character, if any, is
/// outside the class.
pub proof fn lemma_trim_start_suffix(s: Seq<char>, cl: CharClass)
    ensures
        trim_start(s, cl).len() <= s.len(),
        trim_start(s, cl) == s.skip(s.len() - trim_start(s, cl).len()),
        trim_start(s, cl).len() > 0 ==> !in_class(cl, trim_start(s, cl)[0]),
        s.len() > 0 && in_class(cl, s[0]) ==> trim_start(s, cl).len() < s.len(),
        forall|k: int| 0 <= k < s.len() - trim_start(s, cl).len() ==> in_class(cl, #[trigger] s[k]),
    decreases s.len(),
{
    if s.len() > 0 && in_class(cl, s[0]) {
        lemma_trim_start_suffix(s.drop_first(), cl);
        let r = trim_start(s, cl);
        assert(s.drop_first().skip(s.drop_first().len() - r.len()) =~= s.skip(s.len() - r.len()));
        assert forall|k: int| 0 <= k < s.len() - r.len() implies in_class(cl, #[trigger] s[k]) by {
            if k > 0 {
                assert(s[k] == s.drop_first()[k - 1]);
            }
        }
    } else {
        assert(s.skip(0) =~= s);
    }
}

/// `trim_end` keeps a prefix of `s` whose last character, if any, is
/// outside the class.
pub proof fn lemma_trim_end_prefix(s: Seq<char>, cl: CharClass)
    ensures
        trim_end(s, cl).len() <= s.len(),
        trim_end(s, cl) == s.take(trim_end(s, cl).len() as int),
        trim_end(s, cl).len() > 0 ==> !in_class(cl, trim_end(s, cl).last()),
        s.len() > 0 && in_class(cl, s.last()) ==> trim_end(s, cl).len() < s.len(),
        forall|k: int| trim_end(s, cl).len() <= k < s.len() ==> in_class(cl, #[trigger] s[k]),
    decreases s.len(),
{
    if s.len() > 0 && in_class(cl, s.last()) {
        lemma_trim_end_prefix(s.drop_last(), cl);
        let r = trim_end(s, cl);
        assert(s.drop_last().take(r.len() as int) =~= s.take(r.len() as int));
        assert forall|k: int| r.len() <= k < s.len() implies in_class(cl, #[trigger] s[k]) by {
            if k < s.len() - 1 {
                assert(s[k] == s.drop_last()[k]);
            }
        }
    } else {
        assert(s.take(s.len() as int) =~= s);
    }
}

/// `trim` leaves `s` unchanged exactly when `s` neither starts nor ends with
/// a character of the class.
pub proof fn lemma_trim_unchanged(s: Seq<char>, cl: CharClass)
    ensures
        trim(s, cl) == s <==> (s.len() == 0 || (!in_class(cl, s[0]) && !in_class(cl, s.last()))),
{
    lemma_trim_start_suffix(s, cl);
    lemma_trim_end_prefix(trim_start(s, cl), cl);
    if s.len() > 0 && !in_class(cl, s[0]) && !in_class(cl, s.last()) {
        assert(trim_start(s, cl) == s);
        assert(trim_end(s, cl) == s);
    }
}

/// Trimming the start of `a + b` stops inside `a` when `b` starts outside
/// the class.
pub proof fn lemma_trim_start_concat(a: Seq<char>, b: Seq<char>, cl: CharClass)
    requires
        b.len() > 0,
        !in_class(cl, b[0]),
    ensures
        trim_start(a + b, cl) == trim_start(a, cl) + b,
    decreases a.len(),
{
    if a.len() == 0 {
        assert(a + b =~= b);
    } else if in_class(cl, a[0]) {
        assert((a + b).drop_first() =~= a.drop_first() + b);
        lemma_trim_start_concat(a.drop_first(), b, cl);
    }
}

/// Trimming the end of `a + b` stops inside `b` when `a` ends outside the
/// class.
pub proof fn lemma_trim_end_concat(a: Seq<char>, b: Seq<char>, cl: CharClass)
    requires
        a.len() > 0,
        !in_class(cl, a.last()),
    ensures
        trim_end(a + b, cl) == a + trim_end(b, cl),
    decreases b.len(),
{
    if b.len() == 0 {
        assert(a + b =~= a);
    } else if in_class(cl, b.last()) {
        assert((a + b).drop_last() =~= a + b.drop_last());
        lemma_trim_end_concat(a, b.drop_last(), cl);
    } else {
        assert((a + b).last() == b.last());
    }
}

/// Trimming the start twice is trimming it once.
pub proof fn lemma_trim_start_idempotent(s: Seq<char>, cl: CharClass)
    ensures
        trim_start(trim_start(s, cl), cl) == trim_start(s, cl),
{
    lemma_trim_start_suffix(s, cl);
}

/// Whether `c` belongs to the class `cl`.
pub fn class_contains(cl: CharClass, c: char) -> (r: bool)
    ensures
        r == in_class(cl, c),
{
    let ws = ('\u{9}' <= c && c <= '\u{d}') || c == ' ' || c == '\u{85}' || c == '\u{a0}'
        || c == '\u{1680}' || ('\u{2000}' <= c && c <= '\u{200a}') || c == '\u{2028}'
        || c == '\u{2029}' || c == '\u{202f}' || c == '\u{205f}' || c == '\u{3000}';
    let quote = c == '"' || c == '\'' || c == '\r' || c == '\n';
    match cl {
        CharClass::Whitespace => ws,
        CharClass::ValueLead => ws || quote,
        CharClass::ValueTail => ws || quote || c == '/',
    }
}

/// The start of `trim_start(v[lo..hi], cl)` within `v`.
pub fn trim_start_index(v: &Vec<char>, lo: usize, hi: usize, cl: CharClass) -> (a: usize)
    requires
        lo <= hi <= v@.len(),
    ensures
        lo <= a <= hi,
        trim_start(v@.subrange(lo as int, hi as int), cl) == v@.subrange(a as int, hi as int),
{
    let mut a = lo;
    while a < hi && class_contains(cl, v[a])
        invariant
            lo <= a <= hi <= v@.len(),
            trim_start(v@.subrange(lo as int, hi as int), cl) == trim_start(
                v@.subrange(a as int, hi as int),
                cl,
            ),
        decreases hi - a,
    {
        assert(v@.subrange(a as int, hi as int).drop_first() =~= v@.subrange(a + 1, hi as int));
        a = a + 1;
    }
    a
}

/// The end of `trim_end(v[lo..hi], cl)` within `v`.
pub fn trim_end_index(v: &Vec<char>, lo: usize, hi: usize, cl: CharClass) -> (b: usize)
    requires
        lo <= hi <= v@.len(),
    ensures
        lo <= b <= hi,
        trim_end(v@.subrange(lo as int, hi as int), cl) == v@.subrange(lo as int, b as int),
{
    let mut b = hi;
    while lo < b && class_contains(cl, v[b - 1])
        invariant
            lo <= b <= hi <= v@.len(),
            trim_end(v@.subrange(lo as int, hi as int), cl) == trim_end(
                v@.subrange(lo as int, b as int),
                cl,
            ),
        decreases b - lo,
    {
        assert(v@.subrange(lo as int, b as int).drop_last() =~= v@.subrange(lo as int, b - 1));
        b = b - 1;
    }
    b
}

/// The bounds of `trim(v[lo..hi], cl)` within `v`.
pub fn trim_indices(v: &Vec<char>, lo: usize, hi: usize, cl: CharClass) -> (r: (usize, usize))
    requires
        lo <= hi <= v@.len(),
    ensures
        lo <= r.0 <= r.1 <= hi,
        trim(v@.subrange(lo as int, hi as int), cl) == v@.subrange(r.0 as int, r.1 as int),
{
    let a = trim_start_index(v, lo, hi, cl);
    let b = trim_end_index(v, a, hi, cl);
    (a, b)
}

/// Copies the characters of `s` into a vector.
pub fn chars_of(s: &str) -> (v: Vec<char>)
    ensures
        v@ == s@,
{
    let mut v: Vec<char> = Vec::new();
    for c in it: s.chars()
        invariant
            it.seq() == s@,
            v@ == it.seq().take(it.index() as int),
    {
        v.push(c);
    }
    v
}

} // verus!
