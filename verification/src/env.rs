//! Lookup of a variable in the text of a `.env` file.

use vstd::prelude::*;
use crate::text::{
    CharClass, in_class, trim, trim_start, trim_end, chars_of, trim_indices, trim_start_index, trim_end_index,
    is_quote_or_line_break,
    lemma_trim_start_suffix, lemma_trim_end_prefix, lemma_trim_unchanged, lemma_trim_start_concat,
    lemma_trim_end_concat, lemma_trim_start_idempotent,
};

verus! {

/// The number of characters of `s` before the first `c` (all of `s` if
/// there is none).
pub open spec fn count_until(s: Seq<char>, c: char) -> nat
    decreases s.len(),
{
    if s.len() == 0 || s[0] == c {
        0
    } else {
        1 + count_until(s.drop_first(), c)
    }
}

/// The value text after the first `=`, cleaned completely: whitespace,
/// quotes and line breaks are removed from both ends, and slashes from the
/// end, until none is left there.
pub open spec fn clean_value(v: Seq<char>) -> Seq<char> {
    trim_end(trim_start(v, CharClass::ValueLead), CharClass::ValueTail)
}

/// What one line of a `.env` file gives for `key`: nothing for a blank
/// line, a comment (`#` first after the leading whitespace), a line
/// without `=`, or a line whose name (the trimmed text before the first
/// `=`) is not `key`; otherwise the cleaned text after the first `=`.
pub open spec fn line_value(line: Seq<char>, key: Seq<char>) -> Option<Seq<char>> {
    let t = trim(line, CharClass::Whitespace);
    let e = count_until(t, '=');
    if t.len() == 0 || t[0] == '#' || e == t.len() {
        None
    } else if trim(t.take(e as int), CharClass::Whitespace) == key {
        Some(clean_value(t.skip(e + 1int)))
    } else {
        None
    }
}

/// The value of `key` in the `.env` text `content`: the value given by the
/// first line (lines end at `\n`) that gives one.
pub open spec fn env_lookup(content: Seq<char>, key: Seq<char>) -> Option<Seq<char>>
    decreases content.len(),
{
    let n = count_until(content, '\n');
    match line_value(content.take(n as int), key) {
        Some(v) => Some(v),
        None => if n < content.len() {
            env_lookup(content.skip(n + 1int), key)
        } else {
            None
        },
    }
}

/// `count_until` is the index of the first `c`, or the length.
pub proof fn lemma_count_until(s: Seq<char>, c: char, m: int)
    requires
        0 <= m <= s.len(),
        forall|k: int| 0 <= k < m ==> s[k] != c,
        m == s.len() || s[m] == c,
    ensures
        count_until(s, c) == m,
    decreases m,
{
    if m > 0 {
        lemma_count_until(s.drop_first(), c, m - 1);
    }
}

/// `count_until` never exceeds the length, and stops at a `c`.
pub proof fn lemma_count_until_bound(s: Seq<char>, c: char)
    ensures
        count_until(s, c) <= s.len(),
        count_until(s, c) < s.len() ==> s[count_until(s, c) as int] == c,
        forall|k: int| 0 <= k < count_until(s, c) ==> s[k] != c,
    decreases s.len(),
{
    if s.len() > 0 && s[0] != c {
        lemma_count_until_bound(s.drop_first(), c);
        assert forall|k: int| 0 <= k < count_until(s, c) implies s[k] != c by {
            if k > 0 {
                assert(s[k] == s.drop_first()[k - 1]);
            }
        }
    }
}

/// The first line of `line + "\n" + rest` is `line`, and the text after it
/// is `rest`.
proof fn lemma_first_line(line: Seq<char>, rest: Seq<char>)
    requires
        !line.contains('\n'),
    ensures
        count_until(line + seq!['\n'] + rest, '\n') == line.len(),
        (line + seq!['\n'] + rest).take(line.len() as int) == line,
        (line + seq!['\n'] + rest).skip(line.len() + 1int) == rest,
{
    let c = line + seq!['\n'] + rest;
    assert forall|k: int| 0 <= k < line.len() implies c[k] != '\n' by {
        assert(c[k] == line[k]);
    }
    lemma_count_until(c, '\n', line.len() as int);
    assert(c.take(line.len() as int) =~= line);
    assert(c.skip(line.len() + 1int) =~= rest);
}

/// Law: blank lines and comment lines (whose first character after the
/// leading whitespace is `#`) are skipped: putting one in front of a `.env`
/// text changes the value of no key.
pub proof fn lemma_blank_and_comment_lines_skipped(line: Seq<char>, rest: Seq<char>, key: Seq<char>)
    requires
        !line.contains('\n'),
        trim(line, CharClass::Whitespace).len() == 0 || trim(line, CharClass::Whitespace)[0] == '#',
    ensures
        env_lookup(line + seq!['\n'] + rest, key) == env_lookup(rest, key),
{
    lemma_first_line(line, rest);
}

/// Law: a line that gives no value for `key` (such as one defining another
/// name) is skipped: the value comes from the lines after it.
pub proof fn lemma_other_lines_skipped(line: Seq<char>, rest: Seq<char>, key: Seq<char>)
    requires
        !line.contains('\n'),
        line_value(line, key) is None,
    ensures
        env_lookup(line + seq!['\n'] + rest, key) == env_lookup(rest, key),
{
    lemma_first_line(line, rest);
}

/// Law: the first line that defines `key` decides its value; later lines
/// that define it again are ignored.
pub proof fn lemma_first_definition_wins(line: Seq<char>, rest: Seq<char>, key: Seq<char>)
    requires
        !line.contains('\n'),
        line_value(line, key) is Some,
    ensures
        env_lookup(line + seq!['\n'] + rest, key) == line_value(line, key),
{
    lemma_first_line(line, rest);
}

/// How the line `name=value` splits: after trimming, the text before the
/// first `=` is `name` without its leading whitespace (so it trims to the
/// trimmed name), and the text after it is `value` without its trailing
/// whitespace.
proof fn lemma_assignment_split(name: Seq<char>, value: Seq<char>)
    requires
        !name.contains('='),
    ensures
        ({
            let t = trim(name + seq!['='] + value, CharClass::Whitespace);
            let e = count_until(t, '=');
            &&& t == trim_start(name, CharClass::Whitespace) + seq!['='] + trim_end(value, CharClass::Whitespace)
            &&& e < t.len()
            &&& t.take(e as int) == trim_start(name, CharClass::Whitespace)
            &&& trim(t.take(e as int), CharClass::Whitespace) == trim(name, CharClass::Whitespace)
            &&& t.skip(e + 1int) == trim_end(value, CharClass::Whitespace)
        }),
{
    let ws = CharClass::Whitespace;
    let line = name + seq!['='] + value;
    let ts = trim_start(name, ws);
    lemma_trim_start_suffix(name, ws);
    assert(line =~= name + (seq!['='] + value));
    lemma_trim_start_concat(name, seq!['='] + value, ws);
    assert(ts + (seq!['='] + value) =~= (ts + seq!['=']) + value);
    lemma_trim_end_concat(ts + seq!['='], value, ws);
    let t = trim(line, ws);
    assert(t == (ts + seq!['=']) + trim_end(value, ws));
    assert forall|k: int| 0 <= k < ts.len() implies t[k] != '=' by {
        assert(t[k] == ts[k]);
        assert(ts[k] == name[k + (name.len() - ts.len())]);
    }
    assert(t[ts.len() as int] == '=');
    lemma_count_until(t, '=', ts.len() as int);
    assert(t.take(ts.len() as int) =~= ts);
    assert(t.skip(ts.len() + 1int) =~= trim_end(value, ws));
    lemma_trim_start_idempotent(name, ws);
}

/// Law: a line `name=value` gives a value for `key` only when its name,
/// trimmed of surrounding whitespace, is `key` itself; a longer or shorter
/// name that merely starts or ends with `key` defines something else.
pub proof fn lemma_value_only_for_exact_name(name: Seq<char>, value: Seq<char>, key: Seq<char>)
    requires
        !name.contains('='),
    ensures
        line_value(name + seq!['='] + value, key) is Some ==> trim(name, CharClass::Whitespace) == key,
{
    lemma_assignment_split(name, value);
}

/// Law: in a `.env` text, a line `name=value` whose trimmed name is not
/// `key` is skipped, so `key` keeps the value the following lines give it
/// (and has none if the text holds only that line).
pub proof fn lemma_other_name_skipped(name: Seq<char>, value: Seq<char>, rest: Seq<char>, key: Seq<char>)
    requires
        !name.contains('='),
        !name.contains('\n'),
        !value.contains('\n'),
        trim(name, CharClass::Whitespace) != key,
    ensures
        env_lookup(name + seq!['='] + value + seq!['\n'] + rest, key) == env_lookup(rest, key),
        env_lookup(name + seq!['='] + value, key) is None,
{
    let line = name + seq!['='] + value;
    lemma_value_only_for_exact_name(name, value, key);
    assert(!line.contains('\n')) by {
        if line.contains('\n') {
            let i = choose|i: int| 0 <= i < line.len() && line[i] == '\n';
            if i < name.len() {
                assert(name[i] == '\n');
            } else if i > name.len() {
                assert(value[i - name.len() - 1] == '\n');
            }
        }
    }
    lemma_first_line(line, rest);
    lemma_single_line(line, key);
}

/// Whether `v` is `value[i..j]`, where everything before `i` is
/// whitespace, quotes or line breaks, everything from `j` on is also
/// allowed to be `/`, and `v` itself neither starts nor ends with any of
/// them.
pub open spec fn value_core_at(v: Seq<char>, value: Seq<char>, i: int, j: int) -> bool {
    &&& 0 <= i <= j <= value.len()
    &&& v == value.subrange(i, j)
    &&& forall|k: int| 0 <= k < i ==> in_class(CharClass::ValueLead, #[trigger] value[k])
    &&& forall|k: int| j <= k < value.len() ==> in_class(CharClass::ValueTail, #[trigger] value[k])
    &&& v.len() > 0 ==> !in_class(CharClass::ValueLead, v[0]) && !in_class(CharClass::ValueTail, v.last())
}

/// Whether `v` is what remains of `value` once the whitespace, quotes and
/// line breaks around it and the slashes at its end are all removed.
pub open spec fn is_value_core(v: Seq<char>, value: Seq<char>) -> bool {
    exists|i: int, j: int| value_core_at(v, value, i, j)
}

/// The cleaned value of `value` with its trailing whitespace removed is the
/// core of `value`.
proof fn lemma_clean_value_is_core(value: Seq<char>)
    ensures
        is_value_core(clean_value(trim_end(value, CharClass::Whitespace)), value),
{
    let w = trim_end(value, CharClass::Whitespace);
    let a = trim_start(w, CharClass::ValueLead);
    let v = clean_value(w);
    lemma_trim_end_prefix(value, CharClass::Whitespace);
    lemma_trim_start_suffix(w, CharClass::ValueLead);
    lemma_trim_end_prefix(a, CharClass::ValueTail);
    let i = w.len() - a.len();
    let j = i + v.len();
    assert(v =~= value.subrange(i, j));
    assert forall|k: int| 0 <= k < i implies in_class(CharClass::ValueLead, #[trigger] value[k]) by {
        assert(value[k] == w[k]);
    }
    assert forall|k: int| j <= k < value.len() implies in_class(CharClass::ValueTail, #[trigger] value[k]) by {
        if k < w.len() {
            assert(value[k] == w[k]);
            assert(w[k] == a[k - i]);
        } else {
            assert(in_class(CharClass::Whitespace, value[k]));
        }
    }
    if v.len() > 0 {
        assert(v[0] == a[0]);
    }
    assert(value_core_at(v, value, i, j));
}

/// Law: a line `name=value` whose trimmed name is `key` (and is not a
/// comment) defines `key`: reading `key` from a `.env` text that starts with
/// it gives the core of `value` (what remains once the whitespace, quotes
/// and line breaks around it and the slashes at its end are removed),
/// whether more lines follow or not.
pub proof fn lemma_value_for_exact_name(name: Seq<char>, value: Seq<char>, rest: Seq<char>, key: Seq<char>)
    requires
        !name.contains('='),
        !name.contains('\n'),
        !value.contains('\n'),
        trim(name, CharClass::Whitespace) == key,
        key.len() == 0 || key[0] != '#',
    ensures
        env_lookup(name + seq!['='] + value, key) matches Some(v) && is_value_core(v, value),
        env_lookup(name + seq!['='] + value + seq!['\n'] + rest, key) matches Some(v) && is_value_core(v, value),
{
    let ws = CharClass::Whitespace;
    let line = name + seq!['='] + value;
    lemma_assignment_split(name, value);
    let ts = trim_start(name, ws);
    lemma_trim_start_suffix(name, ws);
    lemma_trim_end_prefix(ts, ws);
    let t = trim(line, ws);
    if ts.len() > 0 {
        if key.len() == 0 {
            assert(in_class(ws, ts[0]));
        } else {
            assert(key[0] == ts[0]);
        }
        assert(t[0] == ts[0]);
    } else {
        assert(t[0] == '=');
    }
    assert(line_value(line, key) == Some(clean_value(trim_end(value, ws))));
    lemma_clean_value_is_core(value);
    assert(!line.contains('\n')) by {
        if line.contains('\n') {
            let i = choose|i: int| 0 <= i < line.len() && line[i] == '\n';
            if i < name.len() {
                assert(name[i] == '\n');
            } else if i > name.len() {
                assert(value[i - name.len() - 1] == '\n');
            }
        }
    }
    lemma_first_line(line, rest);
    lemma_single_line(line, key);
}

/// Whether `text` is a run of whole lines: empty, or ending with `\n`.
pub open spec fn whole_lines(text: Seq<char>) -> bool {
    text.len() == 0 || text.last() == '\n'
}

/// Law: reading `key` from whole lines followed by more text gives the
/// value of those lines when they define `key` (later lines never override
/// an earlier definition), and otherwise defers to the text after them.
pub proof fn lemma_lookup_appended(prefix: Seq<char>, rest: Seq<char>, key: Seq<char>)
    requires
        whole_lines(prefix),
    ensures
        env_lookup(prefix + rest, key) == match env_lookup(prefix, key) {
            Some(v) => Some(v),
            None => env_lookup(rest, key),
        },
    decreases prefix.len(),
{
    if prefix.len() == 0 {
        assert(prefix + rest =~= rest);
        assert(prefix.take(0) =~= prefix);
    } else {
        let c = prefix + rest;
        let n = count_until(prefix, '\n');
        lemma_count_until_bound(prefix, '\n');
        if n == prefix.len() {
            assert(prefix[prefix.len() - 1] == '\n');
        }
        assert forall|k: int| 0 <= k < n implies c[k] != '\n' by {
            assert(c[k] == prefix[k]);
        }
        assert(c[n as int] == prefix[n as int]);
        lemma_count_until(c, '\n', n as int);
        assert(c.take(n as int) =~= prefix.take(n as int));
        let tail = prefix.skip(n + 1int);
        assert(c.skip(n + 1int) =~= tail + rest);
        if tail.len() > 0 {
            assert(tail.last() == prefix.last());
        }
        lemma_lookup_appended(tail, rest, key);
    }
}

/// The cleaned value of any text needs no more trimming: it neither
/// starts nor ends with whitespace, a quote or a line break, does not end
/// with a slash, and holds only characters of the text.
proof fn lemma_clean_value_shape(w: Seq<char>)
    ensures
        trim(clean_value(w), CharClass::Whitespace) == clean_value(w),
        clean_value(w).len() > 0 ==> !is_quote_or_line_break(clean_value(w)[0]),
        clean_value(w).len() > 0 ==> !is_quote_or_line_break(clean_value(w).last()),
        clean_value(w).len() > 0 ==> clean_value(w).last() != '/',
        forall|c: char| clean_value(w).contains(c) ==> w.contains(c),
{
    let a = trim_start(w, CharClass::ValueLead);
    let v = clean_value(w);
    lemma_trim_start_suffix(w, CharClass::ValueLead);
    lemma_trim_end_prefix(a, CharClass::ValueTail);
    lemma_trim_unchanged(v, CharClass::Whitespace);
    if v.len() > 0 {
        assert(v[0] == a[0]);
    }
    assert forall|c: char| v.contains(c) implies w.contains(c) by {
        let i = choose|i: int| 0 <= i < v.len() && v[i] == c;
        assert(a[i] == c);
        let k = i + (w.len() - a.len());
        assert(w[k] == c);
    }
}

/// Law: a value read from a `.env` text is cleaned completely: it has no
/// surrounding whitespace, neither starts nor ends with a quote or a line
/// break, never ends with a slash, and holds no line break `\n`.
pub proof fn lemma_values_are_cleaned(content: Seq<char>, key: Seq<char>)
    ensures
        env_lookup(content, key) matches Some(v) ==> {
            &&& trim(v, CharClass::Whitespace) == v
            &&& v.len() > 0 ==> !is_quote_or_line_break(v[0])
            &&& v.len() > 0 ==> !is_quote_or_line_break(v.last())
            &&& v.len() > 0 ==> v.last() != '/'
            &&& !v.contains('\n')
        },
    decreases content.len(),
{
    let n = count_until(content, '\n');
    lemma_count_until_bound(content, '\n');
    let line = content.take(n as int);
    let t = trim(line, CharClass::Whitespace);
    let e = count_until(t, '=');
    lemma_count_until_bound(t, '=');
    match line_value(line, key) {
        Some(v) => {
            let w = t.skip(e + 1int);
            lemma_clean_value_shape(w);
            lemma_trim_start_suffix(line, CharClass::Whitespace);
            lemma_trim_end_prefix(trim_start(line, CharClass::Whitespace), CharClass::Whitespace);
            if v.contains('\n') {
                assert(w.contains('\n'));
                let i = choose|i: int| 0 <= i < w.len() && w[i] == '\n';
                let j = i + e + 1;
                assert(t[j] == '\n');
                let ts = trim_start(line, CharClass::Whitespace);
                assert(ts[j] == '\n');
                let k = j + (line.len() - ts.len());
                assert(line[k] == '\n');
                assert(content[k] == '\n');
            }
        },
        None => {
            if n < content.len() {
                lemma_values_are_cleaned(content.skip(n + 1int), key);
            }
        },
    }
}

/// Whether `key` is a name that a line `key=...` defines as it stands: it
/// is non-empty, needs no trimming, holds no `=` or line break, and does not
/// start with `#`.
pub open spec fn plain_name(key: Seq<char>) -> bool {
    &&& key.len() > 0
    &&& key[0] != '#'
    &&& !key.contains('=')
    &&& !key.contains('\n')
    &&& trim(key, CharClass::Whitespace) == key
}

/// Whether `value` is read back as it stands: it holds no line break `\n`
/// and is already clean (no surrounding whitespace, quotes or line breaks,
/// and no trailing slash).
pub open spec fn plain_value(value: Seq<char>) -> bool {
    &&& !value.contains('\n')
    &&& value.len() > 0 ==> !in_class(CharClass::ValueLead, value[0])
    &&& value.len() > 0 ==> !in_class(CharClass::ValueTail, value.last())
}

/// The line `key=value` holds no line break and gives `value` for `key`.
proof fn lemma_assignment_line(key: Seq<char>, value: Seq<char>)
    requires
        plain_name(key),
        plain_value(value),
    ensures
        !(key + seq!['='] + value).contains('\n'),
        line_value(key + seq!['='] + value, key) == Some(value),
{
    let line = key + seq!['='] + value;
    assert(!line.contains('\n')) by {
        if line.contains('\n') {
            let i = choose|i: int| 0 <= i < line.len() && line[i] == '\n';
            if i < key.len() {
                assert(key[i] == '\n');
            } else if i > key.len() {
                assert(value[i - key.len() - 1] == '\n');
            }
        }
    }
    lemma_trim_unchanged(key, CharClass::Whitespace);
    lemma_trim_unchanged(line, CharClass::Whitespace);
    assert(trim_start(value, CharClass::ValueLead) == value);
    assert(trim_end(value, CharClass::ValueTail) == value);
    assert(line[0] == key[0]);
    if value.len() > 0 {
        assert(line.last() == value.last());
    }
    assert(trim(line, CharClass::Whitespace) == line);
    assert forall|k: int| 0 <= k < key.len() implies line[k] != '=' by {
        assert(line[k] == key[k]);
    }
    lemma_count_until(line, '=', key.len() as int);
    assert(line.take(key.len() as int) =~= key);
    assert(line.skip(key.len() + 1int) =~= value);
}

/// A text without line breaks is a single line.
proof fn lemma_single_line(line: Seq<char>, key: Seq<char>)
    requires
        !line.contains('\n'),
    ensures
        env_lookup(line, key) == line_value(line, key),
{
    assert forall|k: int| 0 <= k < line.len() implies line[k] != '\n' by {}
    lemma_count_until(line, '\n', line.len() as int);
    assert(line.take(line.len() as int) =~= line);
}

/// Law: a `.env` text whose first line is `key=value` gives `value` back
/// for `key`, whether more lines follow or not, when `key` is a plain name
/// and `value` a plain value.
pub proof fn lemma_assignment_read_back(key: Seq<char>, value: Seq<char>, rest: Seq<char>)
    requires
        plain_name(key),
        plain_value(value),
    ensures
        env_lookup(key + seq!['='] + value, key) == Some(value),
        env_lookup(key + seq!['='] + value + seq!['\n'] + rest, key) == Some(value),
{
    let line = key + seq!['='] + value;
    lemma_assignment_line(key, value);
    lemma_single_line(line, key);
    lemma_first_line(line, rest);
}

/// The first index in `v[lo..hi]` that holds `c`, or `hi`.
fn find_char(v: &Vec<char>, lo: usize, hi: usize, c: char) -> (i: usize)
    requires
        lo <= hi <= v@.len(),
    ensures
        lo <= i <= hi,
        count_until(v@.subrange(lo as int, hi as int), c) == i - lo,
{
    let mut i = lo;
    while i < hi && v[i] != c
        invariant
            lo <= i <= hi <= v@.len(),
            forall|k: int| lo <= k < i ==> v@[k] != c,
        decreases hi - i,
    {
        i = i + 1;
    }
    proof {
        lemma_count_until(v@.subrange(lo as int, hi as int), c, i - lo);
    }
    i
}

/// Whether `v[lo..hi]` equals `key`.
fn range_equals(v: &Vec<char>, lo: usize, hi: usize, key: &Vec<char>) -> (r: bool)
    requires
        lo <= hi <= v@.len(),
    ensures
        r == (v@.subrange(lo as int, hi as int) == key@),
{
    if hi - lo != key.len() {
        return false;
    }
    let mut i: usize = 0;
    while i < key.len()
        invariant
            lo <= hi <= v@.len(),
            hi - lo == key@.len(),
            i <= key@.len(),
            forall|k: int| 0 <= k < i ==> v@[lo + k] == key@[k],
        decreases key.len() - i,
    {
        if v[lo + i] != key[i] {
            assert(v@.subrange(lo as int, hi as int)[i as int] != key@[i as int]);
            return false;
        }
        i = i + 1;
    }
    assert(v@.subrange(lo as int, hi as int) =~= key@);
    true
}

/// The value for `key` given by the line `v[lo..hi]`, as bounds within `v`.
fn line_value_indices(v: &Vec<char>, lo: usize, hi: usize, key: &Vec<char>) -> (r: Option<(usize, usize)>)
    requires
        lo <= hi <= v@.len(),
    ensures
        match r {
            Some((a, b)) => a <= b <= v@.len() && line_value(v@.subrange(lo as int, hi as int), key@)
                == Some(v@.subrange(a as int, b as int)),
            None => line_value(v@.subrange(lo as int, hi as int), key@) is None,
        },
{
    let ghost line = v@.subrange(lo as int, hi as int);
    let (ls, le) = trim_indices(v, lo, hi, CharClass::Whitespace);
    let ghost t = v@.subrange(ls as int, le as int);
    if ls == le || v[ls] == '#' {
        return None;
    }
    let eq = find_char(v, ls, le, '=');
    if eq == le {
        return None;
    }
    let (ks, ke) = trim_indices(v, ls, eq, CharClass::Whitespace);
    assert(t.take(eq - ls) =~= v@.subrange(ls as int, eq as int));
    if !range_equals(v, ks, ke, key) {
        return None;
    }
    assert(t.skip(eq - ls + 1) =~= v@.subrange(eq + 1, le as int));
    let vs = trim_start_index(v, eq + 1, le, CharClass::ValueLead);
    let ve = trim_end_index(v, vs, le, CharClass::ValueTail);
    Some((vs, ve))
}

/// The value of `key` in the `.env` text `env_content`, read line by line:
/// blank lines and comment lines are skipped, and the first line of the form
/// `NAME=VALUE` whose trimmed name is `key` gives its value, stripped of
/// surrounding whitespace, quotes and line breaks, and of trailing slashes.
pub fn get_env_var(env_content: &str, key: &str) -> (r: Option<String>)
    ensures
        match r {
            Some(s) => env_lookup(env_content@, key@) == Some(s@),
            None => env_lookup(env_content@, key@) is None,
        },
{
    let v = chars_of(env_content);
    let k = chars_of(key);
    let n = v.len();
    let mut start: usize = 0;
    assert(v@.skip(0) =~= v@);
    loop
        invariant
            n == v@.len(),
            v@ == env_content@,
            k@ == key@,
            start <= n,
            env_lookup(env_content@, key@) == env_lookup(v@.skip(start as int), k@),
        decreases n - start,
    {
        let end = find_char(&v, start, n, '\n');
        let ghost rest = v@.skip(start as int);
        assert(rest =~= v@.subrange(start as int, n as int));
        assert(rest.take(end - start) =~= v@.subrange(start as int, end as int));
        match line_value_indices(&v, start, end, &k) {
            Some((a, b)) => {
                let s = env_content.substring_char(a, b);
                return Some(String::from_str(s));
            },
            None => {
                if end == n {
                    return None;
                }
                assert(rest.skip(end - start + 1) =~= v@.skip(end + 1));
                start = end + 1;
            },
        }
    }
}

} // verus!
