//! Character-level helpers shared by the parsers and the message builders.
//!
//! Strings are viewed as sequences of `char`; scanning code converts a string
//! to a `Vec<char>` once and works on indices from then on.

use vstd::prelude::*;

verus! {

/// `String::push` appends one character to the end of the string.
pub assume_specification[ String::push ](s: &mut String, c: char)
    ensures
        final(s)@ == old(s)@.push(c),
;

/// The characters of `s`, in order.
pub fn to_chars(s: &str) -> (v: Vec<char>)
    ensures
        v@ == s@,
{
    let mut v: Vec<char> = Vec::new();
    for c in it: s.chars()
        invariant
            v@ == it.seq().take(it.index() as int),
            it.seq() == s@,
    {
        v.push(c);
    }
    v
}

/// The string made of the characters `v[from..to]`.
pub fn slice_to_string(v: &Vec<char>, from: usize, to: usize) -> (s: String)
    requires
        from <= to <= v.len(),
    ensures
        s@ == v@.subrange(from as int, to as int),
{
    let mut s = String::new();
    let mut i: usize = from;
    while i < to
        invariant
            from <= i <= to <= v.len(),
            s@ == v@.subrange(from as int, i as int),
        decreases to - i,
    {
        s.push(v[i]);
        i += 1;
    }
    s
}

/// The string made of the characters of `v`.
pub fn from_chars(v: &Vec<char>) -> (s: String)
    ensures
        s@ == v@,
{
    let s = slice_to_string(v, 0, v.len());
    assert(v@.subrange(0, v.len() as int) == v@);
    s
}

/// Appends the characters of `s` to `dst`.
pub fn push_str(dst: &mut Vec<char>, s: &str)
    ensures
        final(dst)@ == old(dst)@ + s@,
{
    let ghost before = dst@;
    for c in it: s.chars()
        invariant
            dst@ == before + it.seq().take(it.index() as int),
            it.seq() == s@,
    {
        dst.push(c);
    }
}

/// Appends the characters of `src` to `dst`.
pub fn push_chars(dst: &mut Vec<char>, src: &Vec<char>)
    ensures
        final(dst)@ == old(dst)@ + src@,
{
    let ghost before = dst@;
    let mut i: usize = 0;
    while i < src.len()
        invariant
            i <= src.len(),
            dst@ == before + src@.take(i as int),
        decreases src.len() - i,
    {
        dst.push(src[i]);
        i += 1;
    }
    assert(src@.take(src.len() as int) == src@);
}

/// Whether two strings hold the same characters.
pub fn str_eq(a: &str, b: &str) -> (r: bool)
    ensures
        r == (a@ == b@),
{
    let x = to_chars(a);
    let y = to_chars(b);
    chars_eq(&x, &y)
}

/// Whether two character vectors hold the same characters.
pub fn chars_eq(a: &Vec<char>, b: &Vec<char>) -> (r: bool)
    ensures
        r == (a@ == b@),
{
    if a.len() != b.len() {
        return false;
    }
    let mut i: usize = 0;
    while i < a.len()
        invariant
            i <= a.len(),
            a.len() == b.len(),
            a@.take(i as int) == b@.take(i as int),
        decreases a.len() - i,
    {
        if a[i] != b[i] {
            return false;
        }
        assert(a@.take(i + 1) == a@.take(i as int).push(a@[i as int]));
        assert(b@.take(i + 1) == b@.take(i as int).push(b@[i as int]));
        i += 1;
    }
    assert(a@.take(a.len() as int) == a@);
    assert(b@.take(b.len() as int) == b@);
    true
}

/// Whether `c` is white space in the sense of Unicode's `White_Space`
/// property, which is what `char::is_whitespace` tests.
pub open spec fn is_space(c: char) -> bool {
    let n = c as u32;
    ||| 0x09 <= n <= 0x0d
    ||| n == 0x20
    ||| n == 0x85
    ||| n == 0xa0
    ||| n == 0x1680
    ||| 0x2000 <= n <= 0x200a
    ||| n == 0x2028
    ||| n == 0x2029
    ||| n == 0x202f
    ||| n == 0x205f
    ||| n == 0x3000
}

/// Whether `c` is white space.
pub fn is_whitespace(c: char) -> (r: bool)
    ensures
        r == is_space(c),
{
    let n: u32 = c as u32;
    (0x09 <= n && n <= 0x0d) || n == 0x20 || n == 0x85 || n == 0xa0 || n == 0x1680 || (0x2000 <= n
        && n <= 0x200a) || n == 0x2028 || n == 0x2029 || n == 0x202f || n == 0x205f || n == 0x3000
}

/// The number of white-space characters at the start of `s`.
pub open spec fn leading_spaces(s: Seq<char>) -> nat
    decreases s.len(),
{
    if s.len() > 0 && is_space(s[0]) {
        1 + leading_spaces(s.skip(1))
    } else {
        0
    }
}

/// The number of white-space characters at the end of `s`.
pub open spec fn trailing_spaces(s: Seq<char>) -> nat
    decreases s.len(),
{
    if s.len() > 0 && is_space(s.last()) {
        1 + trailing_spaces(s.drop_last())
    } else {
        0
    }
}

/// `s` without the white space at its start.
pub open spec fn trim_start(s: Seq<char>) -> Seq<char> {
    s.skip(leading_spaces(s) as int)
}

/// `s` without the white space at its end.
pub open spec fn trim_end(s: Seq<char>) -> Seq<char> {
    s.take(s.len() - trailing_spaces(s))
}

/// `s` without the white space at both ends.
pub open spec fn trim(s: Seq<char>) -> Seq<char> {
    trim_end(trim_start(s))
}

/// A prefix of white space that stops at another character, or at the end,
/// is the leading white space.
pub proof fn lemma_leading_spaces_is(s: Seq<char>, n: int)
    requires
        0 <= n <= s.len(),
        forall|i: int| 0 <= i < n ==> is_space(#[trigger] s[i]),
        n < s.len() ==> !is_space(s[n]),
    ensures
        leading_spaces(s) == n,
    decreases s.len(),
{
    if n > 0 {
        let t = s.skip(1);
        assert forall|i: int| 0 <= i < n - 1 implies is_space(#[trigger] t[i]) by {
            assert(t[i] == s[i + 1]);
        }
        if n - 1 < t.len() {
            assert(t[n - 1] == s[n]);
        }
        lemma_leading_spaces_is(t, n - 1);
    }
}

/// A suffix of white space that starts after another character, or at the
/// start, is the trailing white space.
pub proof fn lemma_trailing_spaces_is(s: Seq<char>, n: int)
    requires
        0 <= n <= s.len(),
        forall|i: int| s.len() - n <= i < s.len() ==> is_space(#[trigger] s[i]),
        n < s.len() ==> !is_space(s[s.len() - n - 1]),
    ensures
        trailing_spaces(s) == n,
    decreases s.len(),
{
    if n > 0 {
        let t = s.drop_last();
        assert forall|i: int| t.len() - (n - 1) <= i < t.len() implies is_space(#[trigger] t[i]) by {
            assert(t[i] == s[i]);
        }
        if n - 1 < t.len() {
            assert(t[t.len() - (n - 1) - 1] == s[s.len() - n - 1]);
        }
        lemma_trailing_spaces_is(t, n - 1);
    }
}

/// The bounds of `v[from..to]` once the white space at both ends is left out.
pub fn trim_range(v: &Vec<char>, from: usize, to: usize) -> (r: (usize, usize))
    requires
        from <= to <= v.len(),
    ensures
        from <= r.0 <= r.1 <= to,
        v@.subrange(r.0 as int, r.1 as int) == trim(v@.subrange(from as int, to as int)),
{
    let ghost s = v@.subrange(from as int, to as int);
    let mut a: usize = from;
    while a < to && is_whitespace(v[a])
        invariant
            from <= a <= to <= v.len(),
            s == v@.subrange(from as int, to as int),
            forall|i: int| 0 <= i < a - from ==> is_space(#[trigger] s[i]),
        decreases to - a,
    {
        a += 1;
    }
    proof {
        lemma_leading_spaces_is(s, a - from);
    }
    let ghost t = trim_start(s);
    assert(t == v@.subrange(a as int, to as int));
    let mut b: usize = to;
    while b > a && is_whitespace(v[b - 1])
        invariant
            a <= b <= to <= v.len(),
            t == v@.subrange(a as int, to as int),
            forall|i: int| b - a <= i < t.len() ==> is_space(#[trigger] t[i]),
        decreases b,
    {
        b -= 1;
    }
    proof {
        lemma_trailing_spaces_is(t, to - b);
        assert(trim_end(t) == v@.subrange(a as int, b as int));
    }
    (a, b)
}

/// `v` without the white space at both ends.
pub fn trim_chars(v: &Vec<char>) -> (r: Vec<char>)
    ensures
        r@ == trim(v@),
{
    let (a, b) = trim_range(v, 0, v.len());
    assert(v@.subrange(0, v.len() as int) == v@);
    copy_range(v, a, b)
}

/// A copy of `v[from..to]`.
pub fn copy_range(v: &Vec<char>, from: usize, to: usize) -> (r: Vec<char>)
    requires
        from <= to <= v.len(),
    ensures
        r@ == v@.subrange(from as int, to as int),
{
    let mut r: Vec<char> = Vec::new();
    let mut i: usize = from;
    while i < to
        invariant
            from <= i <= to <= v.len(),
            r@ == v@.subrange(from as int, i as int),
        decreases to - i,
    {
        r.push(v[i]);
        i += 1;
    }
    r
}

/// Whether `p` stands in `s` at index `i`.
pub open spec fn occurs_at(s: Seq<char>, p: Seq<char>, i: int) -> bool {
    0 <= i && i + p.len() <= s.len() && s.subrange(i, i + p.len()) == p
}

/// Whether `s` starts with `p`.
pub open spec fn has_prefix(s: Seq<char>, p: Seq<char>) -> bool {
    occurs_at(s, p, 0)
}

/// Whether `s` ends with `p`.
pub open spec fn has_suffix(s: Seq<char>, p: Seq<char>) -> bool {
    occurs_at(s, p, s.len() - p.len())
}

/// The first index at or after `from` at which `p` stands in `s`, or -1.
pub open spec fn index_from(s: Seq<char>, p: Seq<char>, from: int) -> int
    decreases s.len() + 1 - from,
{
    if from < 0 || from + p.len() > s.len() {
        -1
    } else if occurs_at(s, p, from) {
        from
    } else {
        index_from(s, p, from + 1)
    }
}

/// The first index at which `p` stands in `s`, or -1.
pub open spec fn index_of(s: Seq<char>, p: Seq<char>) -> int {
    index_from(s, p, 0)
}

/// Whether `p` stands somewhere in `s`.
pub open spec fn contains(s: Seq<char>, p: Seq<char>) -> bool {
    index_of(s, p) >= 0
}

/// `index_from` gives the first occurrence at or after `from`, and -1 only
/// where there is none.
pub proof fn lemma_index_from(s: Seq<char>, p: Seq<char>, from: int)
    requires
        0 <= from,
    ensures
        index_from(s, p, from) == -1 || (from <= index_from(s, p, from) && occurs_at(
            s,
            p,
            index_from(s, p, from),
        )),
        forall|j: int|
            from <= j && (j < index_from(s, p, from) || index_from(s, p, from) == -1)
                ==> !#[trigger] occurs_at(s, p, j),
    decreases s.len() + 1 - from,
{
    if from + p.len() > s.len() {
    } else if occurs_at(s, p, from) {
    } else {
        lemma_index_from(s, p, from + 1);
    }
}

/// Whether `p` stands in `v` at index `i`.
pub fn matches_at(v: &Vec<char>, p: &Vec<char>, i: usize) -> (r: bool)
    ensures
        r == occurs_at(v@, p@, i as int),
{
    if p.len() > v.len() || i > v.len() - p.len() {
        return false;
    }
    let mut k: usize = 0;
    while k < p.len()
        invariant
            k <= p.len(),
            i + p.len() <= v.len(),
            v@.subrange(i as int, i + k) == p@.take(k as int),
        decreases p.len() - k,
    {
        if v[i + k] != p[k] {
            assert(v@.subrange(i as int, i + p.len())[k as int] != p@[k as int]);
            return false;
        }
        assert(v@.subrange(i as int, i + k + 1) == v@.subrange(i as int, i + k).push(
            v@[i + k],
        ));
        assert(p@.take(k + 1) == p@.take(k as int).push(p@[k as int]));
        k += 1;
    }
    assert(p@.take(p.len() as int) == p@);
    true
}

/// The first index at or after `from` at which `p` stands in `v`.
pub fn find_from(v: &Vec<char>, p: &Vec<char>, from: usize) -> (r: Option<usize>)
    ensures
        match r {
            Some(i) => i as int == index_from(v@, p@, from as int),
            None => index_from(v@, p@, from as int) == -1,
        },
{
    let mut i: usize = from;
    while i <= v.len() && p.len() <= v.len() - i
        invariant
            from <= i,
            index_from(v@, p@, from as int) == index_from(v@, p@, i as int),
        decreases v.len() + 1 - i,
    {
        if matches_at(v, p, i) {
            return Some(i);
        }
        if i == v.len() {
            assert(index_from(v@, p@, i + 1) == -1);
            return None;
        }
        i += 1;
    }
    None
}

/// The first index at which `p` stands in `v`.
pub fn find(v: &Vec<char>, p: &Vec<char>) -> (r: Option<usize>)
    ensures
        match r {
            Some(i) => i as int == index_of(v@, p@),
            None => index_of(v@, p@) == -1,
        },
{
    find_from(v, p, 0)
}

/// Whether the literal `p` stands somewhere in `v`.
pub fn contains_str(v: &Vec<char>, p: &str) -> (r: bool)
    ensures
        r == contains(v@, p@),
{
    let pat = to_chars(p);
    find(v, &pat).is_some()
}

/// Whether `v` starts with the literal `p`.
pub fn starts_with_str(v: &Vec<char>, p: &str) -> (r: bool)
    ensures
        r == has_prefix(v@, p@),
{
    let pat = to_chars(p);
    matches_at(v, &pat, 0)
}

/// Whether `a` comes before `b` in the order of strings: at the first place
/// where they differ `a` has the smaller character, or `a` ends there and
/// `b` goes on.
pub open spec fn lex_less(a: Seq<char>, b: Seq<char>) -> bool
    decreases a.len(),
{
    if b.len() == 0 {
        false
    } else if a.len() == 0 {
        true
    } else if a[0] != b[0] {
        (a[0] as u32) < (b[0] as u32)
    } else {
        lex_less(a.skip(1), b.skip(1))
    }
}

/// Whether `a` comes before `b` in the order of strings.
pub fn chars_less(a: &Vec<char>, b: &Vec<char>) -> (r: bool)
    ensures
        r == lex_less(a@, b@),
{
    let mut i: usize = 0;
    assert(a@.skip(0) == a@ && b@.skip(0) == b@);
    while i < a.len() && i < b.len()
        invariant
            i <= a.len(),
            i <= b.len(),
            lex_less(a@, b@) == lex_less(a@.skip(i as int), b@.skip(i as int)),
        decreases a.len() - i,
    {
        let ghost x = a@.skip(i as int);
        let ghost y = b@.skip(i as int);
        assert(x[0] == a@[i as int] && y[0] == b@[i as int]);
        if a[i] != b[i] {
            return (a[i] as u32) < (b[i] as u32);
        }
        assert(x.skip(1) == a@.skip(i + 1));
        assert(y.skip(1) == b@.skip(i + 1));
        i += 1;
    }
    i < b.len()
}

/// Whether the string `a` comes before the string `b`.
pub fn str_less(a: &str, b: &str) -> (r: bool)
    ensures
        r == lex_less(a@, b@),
{
    let x = to_chars(a);
    let y = to_chars(b);
    chars_less(&x, &y)
}

/// `s` without the occurrences of `p`, found from left to right and not
/// overlapping.
pub open spec fn remove_all(s: Seq<char>, p: Seq<char>) -> Seq<char>
    decreases s.len(),
{
    if p.len() == 0 || s.len() < p.len() {
        s
    } else if occurs_at(s, p, 0) {
        remove_all(s.skip(p.len() as int), p)
    } else {
        seq![s[0]] + remove_all(s.skip(1), p)
    }
}

/// `v[from..to]` without the occurrences of the literal `p`.
pub fn remove_all_str(v: &Vec<char>, from: usize, to: usize, p: &str) -> (r: Vec<char>)
    requires
        from <= to <= v.len(),
    ensures
        r@ == remove_all(v@.subrange(from as int, to as int), p@),
{
    let pat = to_chars(p);
    let s = copy_range(v, from, to);
    let mut out: Vec<char> = Vec::new();
    if pat.len() == 0 {
        return s;
    }
    let mut i: usize = 0;
    assert(s@.skip(0) == s@);
    while i < s.len()
        invariant
            i <= s.len(),
            pat.len() > 0,
            remove_all(s@, pat@) == out@ + remove_all(s@.skip(i as int), pat@),
        decreases s.len() - i,
    {
        let ghost rest = s@.skip(i as int);
        if matches_at(&s, &pat, i) {
            assert(rest.subrange(0, pat.len() as int) == s@.subrange(i as int, i + pat.len()));
            assert(rest.skip(pat.len() as int) == s@.skip(i + pat.len()));
            i += pat.len();
        } else {
            assert(occurs_at(rest, pat@, 0) ==> occurs_at(s@, pat@, i as int)) by {
                if occurs_at(rest, pat@, 0) {
                    assert(rest.subrange(0, pat.len() as int) == s@.subrange(
                        i as int,
                        i + pat.len(),
                    ));
                }
            }
            assert(rest.skip(1) == s@.skip(i + 1));
            assert(rest[0] == s@[i as int]);
            let ghost before = out@;
            out.push(s[i]);
            assert(out@ + remove_all(s@.skip(i + 1), pat@) =~= before + (seq![s@[i as int]]
                + remove_all(s@.skip(i + 1), pat@)));
            i += 1;
        }
    }
    assert(s@.skip(s.len() as int) =~= Seq::<char>::empty());
    assert(out@ + Seq::<char>::empty() =~= out@);
    out
}

/// `s` in lower case, as `str::to_lowercase` gives it.
pub uninterp spec fn lowercase(s: Seq<char>) -> Seq<char>;

/// Calls `str::to_lowercase`, which follows Unicode's rules for lower case.
/// The result is a function of the text alone.
#[verifier::external_body]
pub(crate) fn to_lowercase(s: &str) -> (r: String)
    ensures
        r@ == lowercase(s@),
{
    s.to_lowercase()
}

/// `s` as the `Debug` format of a string writes it: in double quotes, with
/// escapes.
pub uninterp spec fn debug_quoted(s: Seq<char>) -> Seq<char>;

/// Formats a string with `{:?}`. The result is a function of the text
/// alone.
#[verifier::external_body]
pub(crate) fn debug_string(s: &str) -> (r: String)
    ensures
        r@ == debug_quoted(s@),
{
    format!("{:?}", s)
}

/// `sorted` with `x` put in before the entries at its end that come after
/// it.
pub open spec fn insert_sorted(sorted: Seq<Seq<char>>, x: Seq<char>) -> Seq<Seq<char>>
    decreases sorted.len(),
{
    if sorted.len() == 0 {
        seq![x]
    } else if lex_less(x, sorted.last()) {
        insert_sorted(sorted.drop_last(), x).push(sorted.last())
    } else {
        sorted.push(x)
    }
}

/// `lines` in the order of strings, sorted by insertion: lines that are
/// equal keep their order.
pub open spec fn sort_lines(lines: Seq<Seq<char>>) -> Seq<Seq<char>>
    decreases lines.len(),
{
    if lines.len() == 0 {
        Seq::empty()
    } else {
        insert_sorted(sort_lines(lines.drop_last()), lines.last())
    }
}

/// The characters of each line.
pub open spec fn lines_view(lines: Seq<Vec<char>>) -> Seq<Seq<char>> {
    lines.map_values(|l: Vec<char>| l@)
}

/// Puts `x` into `sorted` before the entries at its end that come after it.
pub fn insert_line(sorted: &mut Vec<Vec<char>>, x: Vec<char>)
    ensures
        lines_view(final(sorted)@) == insert_sorted(lines_view(old(sorted)@), x@),
{
    let ghost all = lines_view(sorted@);
    let mut j: usize = sorted.len();
    assert(all.take(j as int) == all);
    assert(all.skip(j as int) =~= Seq::empty());
    assert(insert_sorted(all, x@) =~= insert_sorted(all.take(j as int), x@) + all.skip(j as int));
    while j > 0 && chars_less(&x, &sorted[j - 1])
        invariant
            j <= sorted.len(),
            all == lines_view(sorted@),
            insert_sorted(all, x@) == insert_sorted(all.take(j as int), x@) + all.skip(j as int),
        decreases j,
    {
        let ghost prefix = all.take(j as int);
        assert(prefix.last() == sorted@[j - 1]@);
        assert(prefix.drop_last() == all.take(j - 1));
        assert(insert_sorted(prefix, x@) == insert_sorted(all.take(j - 1), x@).push(
            prefix.last(),
        ));
        assert(insert_sorted(all.take(j - 1), x@).push(prefix.last()) + all.skip(j as int)
            =~= insert_sorted(all.take(j - 1), x@) + all.skip(j - 1));
        j -= 1;
    }
    proof {
        let prefix = all.take(j as int);
        if j > 0 {
            assert(prefix.last() == sorted@[j - 1]@);
        }
        assert(insert_sorted(prefix, x@) =~= prefix.push(x@));
    }
    let ghost x_view = x@;
    sorted.insert(j, x);
    assert(lines_view(sorted@) =~= all.take(j as int).push(x_view) + all.skip(j as int));
}

/// Whether `c` is a letter or a digit, as `char::is_alphanumeric` tells.
pub uninterp spec fn alphanumeric(c: char) -> bool;

/// Calls `char::is_alphanumeric`, which follows Unicode's tables. The
/// result is a function of the character alone.
#[verifier::external_body]
pub(crate) fn is_alphanumeric(c: char) -> (r: bool)
    ensures
        r == alphanumeric(c),
{
    c.is_alphanumeric()
}

/// The number of bytes that `c` takes in UTF-8.
pub open spec fn utf8_width(c: char) -> nat {
    let n = c as u32;
    if n < 0x80 {
        1
    } else if n < 0x800 {
        2
    } else if n < 0x10000 {
        3
    } else {
        4
    }
}

/// The number of bytes that `s` takes in UTF-8.
pub open spec fn utf8_length(s: Seq<char>) -> nat
    decreases s.len(),
{
    if s.len() == 0 {
        0
    } else {
        utf8_length(s.drop_last()) + utf8_width(s.last())
    }
}

/// The pieces of `s` between the occurrences of the character `sep`. A
/// text without `sep` is one piece.
pub open spec fn split_on(s: Seq<char>, sep: char) -> Seq<Seq<char>>
    decreases s.len(),
{
    if s.len() == 0 {
        seq![Seq::<char>::empty()]
    } else {
        let before = split_on(s.drop_last(), sep);
        if s.last() == sep {
            before.push(Seq::<char>::empty())
        } else {
            before.update(before.len() - 1, before.last().push(s.last()))
        }
    }
}

/// The pieces of `s` that are not empty once they are trimmed, trimmed and
/// in order.
pub open spec fn filled(pieces: Seq<Seq<char>>) -> Seq<Seq<char>>
    decreases pieces.len(),
{
    if pieces.len() == 0 {
        Seq::empty()
    } else if trim(pieces.last()).len() > 0 {
        filled(pieces.drop_last()).push(trim(pieces.last()))
    } else {
        filled(pieces.drop_last())
    }
}

/// The lines of `s` that are not empty once they are trimmed, trimmed and
/// in order.
pub open spec fn filled_lines(s: Seq<char>) -> Seq<Seq<char>> {
    filled(split_on(s, '\n'))
}

/// `split_on` never gives an empty sequence.
pub proof fn lemma_split_on_nonempty(s: Seq<char>, sep: char)
    ensures
        split_on(s, sep).len() >= 1,
    decreases s.len(),
{
    if s.len() > 0 {
        lemma_split_on_nonempty(s.drop_last(), sep);
    }
}

/// The lines of `v` that are not empty once they are trimmed, trimmed and
/// in order.
pub fn nonempty_lines(v: &Vec<char>) -> (r: Vec<Vec<char>>)
    ensures
        lines_view(r@) == filled_lines(v@),
{
    let mut lines: Vec<Vec<char>> = Vec::new();
    let mut start: usize = 0;
    let mut i: usize = 0;
    assert(v@.take(0) =~= Seq::<char>::empty());
    assert(lines_view(lines@) =~= Seq::empty());
    assert(split_on(v@.take(0), '\n').drop_last() =~= Seq::empty());
    while i < v.len()
        invariant
            start <= i <= v.len(),
            split_on(v@.take(i as int), '\n').len() >= 1,
            split_on(v@.take(i as int), '\n').last() == v@.subrange(start as int, i as int),
            lines_view(lines@) == filled(split_on(v@.take(i as int), '\n').drop_last()),
        decreases v.len() - i,
    {
        let ghost before = split_on(v@.take(i as int), '\n');
        let ghost next = v@.take(i + 1);
        assert(next.drop_last() == v@.take(i as int));
        assert(next.last() == v@[i as int]);
        if v[i] == '\n' {
            let (a, b) = trim_range(v, start, i);
            assert(split_on(next, '\n').drop_last() =~= before);
            assert(before.drop_last().push(before.last()) =~= before);
            if a < b {
                let ghost old_lines = lines_view(lines@);
                let line = copy_range(v, a, b);
                lines.push(line);
                assert(lines_view(lines@) =~= old_lines.push(trim(before.last())));
            }
            start = i + 1;
            assert(v@.subrange(start as int, start as int) =~= Seq::<char>::empty());
        } else {
            assert(split_on(next, '\n').drop_last() =~= before.drop_last());
            assert(v@.subrange(start as int, i + 1) == v@.subrange(start as int, i as int).push(
                v@[i as int],
            ));
        }
        i += 1;
    }
    assert(v@.take(v.len() as int) == v@);
    let ghost all = split_on(v@, '\n');
    let (a, b) = trim_range(v, start, v.len());
    assert(all.drop_last().push(all.last()) =~= all);
    if a < b {
        let ghost old_lines = lines_view(lines@);
        let line = copy_range(v, a, b);
        lines.push(line);
        assert(lines_view(lines@) =~= old_lines.push(trim(all.last())));
    }
    lines
}

/// `s` with each occurrence of `p`, found from left to right and not
/// overlapping, replaced by `with`. `p` is not empty.
pub open spec fn replace_all(s: Seq<char>, p: Seq<char>, with: Seq<char>) -> Seq<char>
    decreases s.len(),
{
    if p.len() == 0 || s.len() < p.len() {
        s
    } else if occurs_at(s, p, 0) {
        with + replace_all(s.skip(p.len() as int), p, with)
    } else {
        seq![s[0]] + replace_all(s.skip(1), p, with)
    }
}

/// `v` with each occurrence of the literal `p` replaced by the literal
/// `with`.
pub fn replace_all_str(v: &Vec<char>, p: &str, with: &str) -> (r: Vec<char>)
    requires
        p@.len() > 0,
    ensures
        r@ == replace_all(v@, p@, with@),
{
    let pat = to_chars(p);
    let mut out: Vec<char> = Vec::new();
    let mut i: usize = 0;
    assert(v@.skip(0) == v@);
    while i < v.len()
        invariant
            i <= v.len(),
            pat@ == p@,
            pat.len() > 0,
            replace_all(v@, pat@, with@) == out@ + replace_all(v@.skip(i as int), pat@, with@),
        decreases v.len() - i,
    {
        let ghost rest = v@.skip(i as int);
        let ghost before = out@;
        if matches_at(v, &pat, i) {
            assert(rest.subrange(0, pat.len() as int) == v@.subrange(i as int, i + pat.len()));
            assert(rest.skip(pat.len() as int) == v@.skip(i + pat.len()));
            push_str(&mut out, with);
            assert(out@ + replace_all(v@.skip(i + pat.len()), pat@, with@) =~= before + (with@
                + replace_all(v@.skip(i + pat.len()), pat@, with@)));
            i += pat.len();
        } else {
            assert(occurs_at(rest, pat@, 0) ==> occurs_at(v@, pat@, i as int)) by {
                if occurs_at(rest, pat@, 0) {
                    assert(rest.subrange(0, pat.len() as int) == v@.subrange(
                        i as int,
                        i + pat.len(),
                    ));
                }
            }
            assert(rest.skip(1) == v@.skip(i + 1));
            assert(rest[0] == v@[i as int]);
            out.push(v[i]);
            assert(out@ + replace_all(v@.skip(i + 1), pat@, with@) =~= before + (seq![
                v@[i as int],
            ] + replace_all(v@.skip(i + 1), pat@, with@)));
            i += 1;
        }
    }
    assert(v@.skip(v.len() as int) =~= Seq::<char>::empty());
    assert(out@ + Seq::<char>::empty() =~= out@);
    out
}

/// A text without the separator is one piece.
pub proof fn lemma_split_on_plain(s: Seq<char>, sep: char)
    requires
        forall|i: int| 0 <= i < s.len() ==> #[trigger] s[i] != sep,
    ensures
        split_on(s, sep) == seq![s],
    decreases s.len(),
{
    if s.len() == 0 {
        assert(s =~= Seq::<char>::empty());
    } else {
        lemma_split_on_plain(s.drop_last(), sep);
        assert(s.last() != sep);
        assert(s.drop_last().push(s.last()) =~= s);
        assert(seq![s.drop_last()].update(0, s) =~= seq![s]);
    }
}

/// The pieces of a text after its first separator are the pieces of what
/// follows that separator.
pub proof fn lemma_split_on_first(a: Seq<char>, b: Seq<char>, sep: char)
    requires
        forall|i: int| 0 <= i < a.len() ==> #[trigger] a[i] != sep,
    ensures
        split_on(a + seq![sep] + b, sep) == seq![a] + split_on(b, sep),
    decreases b.len(),
{
    let s = a + seq![sep] + b;
    lemma_split_on_nonempty(b, sep);
    if b.len() == 0 {
        lemma_split_on_plain(a, sep);
        assert(s.drop_last() =~= a);
        assert(s.last() == sep);
        assert(split_on(b, sep) =~= seq![Seq::<char>::empty()]);
        assert(seq![a].push(Seq::<char>::empty()) =~= seq![a] + split_on(b, sep));
    } else {
        lemma_split_on_first(a, b.drop_last(), sep);
        lemma_split_on_nonempty(b.drop_last(), sep);
        assert(s.drop_last() =~= a + seq![sep] + b.drop_last());
        assert(s.last() == b.last());
        let before = split_on(b.drop_last(), sep);
        if b.last() == sep {
            assert((seq![a] + before).push(Seq::<char>::empty()) =~= seq![a] + before.push(
                Seq::<char>::empty(),
            ));
        } else {
            assert((seq![a] + before).update(
                (seq![a] + before).len() - 1,
                (seq![a] + before).last().push(b.last()),
            ) =~= seq![a] + before.update(before.len() - 1, before.last().push(b.last())));
        }
    }
}

/// The parts of `s` between white space: its longest runs of other
/// characters.
pub open spec fn fields(s: Seq<char>) -> Seq<Seq<char>> {
    unfilled_dropped(runs(s))
}

/// The runs of `s` between single white-space characters; two of them in a
/// row leave an empty run.
pub open spec fn runs(s: Seq<char>) -> Seq<Seq<char>>
    decreases s.len(),
{
    if s.len() == 0 {
        seq![Seq::<char>::empty()]
    } else {
        let before = runs(s.drop_last());
        if is_space(s.last()) {
            before.push(Seq::<char>::empty())
        } else {
            before.update(before.len() - 1, before.last().push(s.last()))
        }
    }
}

/// `pieces` without the empty ones.
pub open spec fn unfilled_dropped(pieces: Seq<Seq<char>>) -> Seq<Seq<char>>
    decreases pieces.len(),
{
    if pieces.len() == 0 {
        Seq::empty()
    } else if pieces.last().len() > 0 {
        unfilled_dropped(pieces.drop_last()).push(pieces.last())
    } else {
        unfilled_dropped(pieces.drop_last())
    }
}

/// The parts of `v` between white space.
pub fn split_fields(v: &Vec<char>) -> (r: Vec<Vec<char>>)
    ensures
        lines_view(r@) == fields(v@),
{
    let mut parts: Vec<Vec<char>> = Vec::new();
    let mut start: usize = 0;
    let mut i: usize = 0;
    assert(v@.take(0) =~= Seq::<char>::empty());
    assert(lines_view(parts@) =~= Seq::empty());
    assert(runs(v@.take(0)).drop_last() =~= Seq::empty());
    while i < v.len()
        invariant
            start <= i <= v.len(),
            runs(v@.take(i as int)).len() >= 1,
            runs(v@.take(i as int)).last() == v@.subrange(start as int, i as int),
            lines_view(parts@) == unfilled_dropped(runs(v@.take(i as int)).drop_last()),
        decreases v.len() - i,
    {
        let ghost before = runs(v@.take(i as int));
        let ghost next = v@.take(i + 1);
        assert(next.drop_last() == v@.take(i as int));
        assert(next.last() == v@[i as int]);
        if is_whitespace(v[i]) {
            assert(runs(next).drop_last() =~= before);
            assert(before.drop_last().push(before.last()) =~= before);
            if start < i {
                let ghost old_parts = lines_view(parts@);
                let part = copy_range(v, start, i);
                parts.push(part);
                assert(lines_view(parts@) =~= old_parts.push(before.last()));
            }
            start = i + 1;
            assert(v@.subrange(start as int, start as int) =~= Seq::<char>::empty());
        } else {
            assert(runs(next).drop_last() =~= before.drop_last());
            assert(v@.subrange(start as int, i + 1) == v@.subrange(start as int, i as int).push(
                v@[i as int],
            ));
        }
        i += 1;
    }
    assert(v@.take(v.len() as int) == v@);
    let ghost all = runs(v@);
    assert(all.drop_last().push(all.last()) =~= all);
    if start < v.len() {
        let ghost old_parts = lines_view(parts@);
        let part = copy_range(v, start, v.len());
        parts.push(part);
        assert(lines_view(parts@) =~= old_parts.push(all.last()));
    }
    parts
}

/// Whether no line of `lines` comes before a line that stands before it.
pub open spec fn in_order(lines: Seq<Seq<char>>) -> bool {
    forall|i: int, j: int|
        0 <= i < j < lines.len() ==> !lex_less(#[trigger] lines[j], #[trigger] lines[i])
}

/// The order of strings is transitive in the form that sorting needs: what
/// does not come before `b` does not come before anything that `b` does
/// not come after.
pub proof fn lemma_lex_order(a: Seq<char>, b: Seq<char>, c: Seq<char>)
    requires
        !lex_less(b, a),
        !lex_less(c, b),
    ensures
        !lex_less(c, a),
    decreases a.len(),
{
    if a.len() == 0 {
    } else if b.len() == 0 {
        assert(lex_less(b, a));
    } else if c.len() == 0 {
        assert(lex_less(c, b));
    } else if a[0] == b[0] && b[0] == c[0] {
        lemma_lex_order(a.skip(1), b.skip(1), c.skip(1));
    } else {
        let x = a[0] as u32;
        let y = b[0] as u32;
        let z = c[0] as u32;
        vstd::utf8::char_u32_cast(a[0], x);
        vstd::utf8::char_u32_cast(b[0], y);
        vstd::utf8::char_u32_cast(c[0], z);
        assert(a[0] != b[0] ==> x < y);
        assert(b[0] != c[0] ==> y < z);
        assert(x < z);
    }
}

/// Of two strings, one does not come before the other.
pub proof fn lemma_lex_total(a: Seq<char>, b: Seq<char>)
    ensures
        !lex_less(a, b) || !lex_less(b, a),
    decreases a.len(),
{
    if a.len() > 0 && b.len() > 0 && a[0] == b[0] {
        lemma_lex_total(a.skip(1), b.skip(1));
    }
}

/// Putting a line into lines that are in order leaves them in order, and
/// adds that line and no other.
pub proof fn lemma_insert_sorted(sorted: Seq<Seq<char>>, x: Seq<char>)
    requires
        in_order(sorted),
    ensures
        in_order(insert_sorted(sorted, x)),
        insert_sorted(sorted, x).to_multiset() == sorted.to_multiset().insert(x),
        insert_sorted(sorted, x).len() == sorted.len() + 1,
        forall|y: Seq<char>|
            (forall|i: int| 0 <= i < sorted.len() ==> !lex_less(y, #[trigger] sorted[i]))
                && !lex_less(y, x) ==> forall|i: int|
                0 <= i < insert_sorted(sorted, x).len() ==> !lex_less(
                    y,
                    #[trigger] insert_sorted(sorted, x)[i],
                ),
    decreases sorted.len(),
{
    broadcast use vstd::seq_lib::group_to_multiset_ensures;

    let after = insert_sorted(sorted, x);
    if sorted.len() == 0 {
        assert(after =~= Seq::<Seq<char>>::empty().push(x));
        assert(sorted =~= Seq::<Seq<char>>::empty());
    } else if lex_less(x, sorted.last()) {
        let shorter = sorted.drop_last();
        assert forall|i: int, j: int| 0 <= i < j < shorter.len() implies !lex_less(
            #[trigger] shorter[j],
            #[trigger] shorter[i],
        ) by {
            assert(shorter[i] == sorted[i] && shorter[j] == sorted[j]);
        }
        lemma_insert_sorted(shorter, x);
        let inner = insert_sorted(shorter, x);
        assert(after == inner.push(sorted.last()));
        lemma_lex_total(x, sorted.last());
        // every line of `inner` is `x` or a line of `shorter`, and neither
        // comes after the last line
        assert forall|i: int| 0 <= i < shorter.len() implies !lex_less(
            sorted.last(),
            #[trigger] shorter[i],
        ) by {
            assert(shorter[i] == sorted[i]);
        }
        assert forall|i: int, j: int| 0 <= i < j < after.len() implies !lex_less(
            #[trigger] after[j],
            #[trigger] after[i],
        ) by {
            if j < inner.len() {
                assert(after[i] == inner[i] && after[j] == inner[j]);
            } else {
                assert(after[i] == inner[i]);
            }
        }
        assert(sorted =~= shorter.push(sorted.last()));
        assert(after.to_multiset() =~= sorted.to_multiset().insert(x));
        assert forall|y: Seq<char>|
            (forall|i: int| 0 <= i < sorted.len() ==> !lex_less(y, #[trigger] sorted[i]))
                && !lex_less(y, x) implies forall|i: int|
            0 <= i < after.len() ==> !lex_less(y, #[trigger] after[i]) by {
            assert forall|i: int| 0 <= i < shorter.len() implies !lex_less(
                y,
                #[trigger] shorter[i],
            ) by {
                assert(shorter[i] == sorted[i]);
            }
            assert forall|i: int| 0 <= i < after.len() implies !lex_less(y, #[trigger] after[i]) by {
                if i < inner.len() {
                    assert(after[i] == inner[i]);
                } else {
                    assert(after[i] == sorted[sorted.len() - 1]);
                }
            }
        }
    } else {
        assert(after == sorted.push(x));
        assert forall|i: int, j: int| 0 <= i < j < after.len() implies !lex_less(
            #[trigger] after[j],
            #[trigger] after[i],
        ) by {
            if j < sorted.len() {
                assert(after[i] == sorted[i] && after[j] == sorted[j]);
            } else {
                assert(after[j] == x);
                assert(after[i] == sorted[i]);
                if i < sorted.len() - 1 {
                    lemma_lex_order(sorted[i], sorted.last(), x);
                }
            }
        }
        assert forall|y: Seq<char>|
            (forall|i: int| 0 <= i < sorted.len() ==> !lex_less(y, #[trigger] sorted[i]))
                && !lex_less(y, x) implies forall|i: int|
            0 <= i < after.len() ==> !lex_less(y, #[trigger] after[i]) by {
            assert forall|i: int| 0 <= i < after.len() implies !lex_less(y, #[trigger] after[i]) by {
                if i < sorted.len() {
                    assert(after[i] == sorted[i]);
                }
            }
        }
    }
}

/// Sorted lines are in order, and they are the lines that were given:
/// each as often as it was given.
pub proof fn law_sorted_lines(lines: Seq<Seq<char>>)
    ensures
        in_order(sort_lines(lines)),
        sort_lines(lines).to_multiset() == lines.to_multiset(),
        sort_lines(lines).len() == lines.len(),
    decreases lines.len(),
{
    broadcast use vstd::seq_lib::group_to_multiset_ensures;

    if lines.len() == 0 {
        assert(lines =~= Seq::<Seq<char>>::empty());
    } else {
        law_sorted_lines(lines.drop_last());
        lemma_insert_sorted(sort_lines(lines.drop_last()), lines.last());
        assert(lines =~= lines.drop_last().push(lines.last()));
    }
}

} // verus!
