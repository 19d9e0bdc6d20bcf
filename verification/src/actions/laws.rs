//! What holds of the parser of the action language on every well-formed
//! `do` action, whatever white space surrounds its parts and whichever
//! quotes it uses.

use crate::actions::parser::{
    action_name, bracket_content, coerce, coerce_scalar, do_params, flush, is_bracketed, is_quote,
    parse, scan, scan_start, scan_step, split_commas, ActionErrorView, ActionView, ScanState,
};
use crate::actions::value::{key_index, ParamValueView, ScalarView};
use crate::number::{decimal, signed_decimal};
use crate::text::{
    has_prefix, has_suffix, is_space, lemma_leading_spaces_is, lemma_trailing_spaces_is, trim,
    trim_end, trim_start,
};
use vstd::prelude::*;

verus! {

/// Whether every character of `w` is white space.
pub open spec fn all_space(w: Seq<char>) -> bool {
    forall|i: int| 0 <= i < w.len() ==> is_space(#[trigger] w[i])
}

/// Whether `c` is a character that the scanner, outside strings and lists,
/// adds to the key or the value: no quote, no square bracket, no `=`, no
/// comma and no white space.
pub open spec fn is_plain(c: char) -> bool {
    !is_quote(c) && c != '[' && c != '=' && c != ',' && !is_space(c)
}

/// Whether every character of `s` is plain.
pub open spec fn all_plain(s: Seq<char>) -> bool {
    forall|i: int| 0 <= i < s.len() ==> is_plain(#[trigger] s[i])
}

/// Whether the scanner is outside strings and lists.
pub open spec fn at_rest(st: ScanState) -> bool {
    st.quote is None && st.depth == 0
}

/// Scanning two texts one after the other is scanning their concatenation.
pub proof fn lemma_scan_append(st: ScanState, a: Seq<char>, b: Seq<char>)
    ensures
        scan(st, a + b) == scan(scan(st, a), b),
    decreases b.len(),
{
    if b.len() == 0 {
        assert(a + b == a);
    } else {
        lemma_scan_append(st, a, b.drop_last());
        assert((a + b).drop_last() == a + b.drop_last());
        assert((a + b).last() == b.last());
    }
}

/// Scanning one character is one step.
pub proof fn lemma_scan_one(st: ScanState, c: char)
    ensures
        scan(st, seq![c]) == scan_step(st, c),
{
    assert(seq![c].drop_last() == Seq::<char>::empty());
    assert(scan(st, Seq::<char>::empty()) == st);
}

/// Outside strings and lists white space changes nothing.
pub proof fn lemma_scan_space(st: ScanState, w: Seq<char>)
    requires
        at_rest(st),
        all_space(w),
    ensures
        scan(st, w) == st,
    decreases w.len(),
{
    if w.len() > 0 {
        lemma_scan_space(st, w.drop_last());
        assert(is_space(w.last()));
        let c = w.last();
        assert(!is_quote(c) && c != '[' && c != '=' && c != ',');
    }
}

/// Outside strings and lists plain characters go to the key while the key
/// is read.
pub proof fn lemma_scan_key(st: ScanState, word: Seq<char>)
    requires
        at_rest(st),
        st.in_key,
        all_plain(word),
    ensures
        scan(st, word) == (ScanState { key: st.key + word, ..st }),
    decreases word.len(),
{
    if word.len() == 0 {
        assert(st.key + word == st.key);
    } else {
        lemma_scan_key(st, word.drop_last());
        assert(is_plain(word.last()));
        assert(st.key + word == (st.key + word.drop_last()).push(word.last()));
    }
}

/// Inside a string every character but the closing quote goes to the
/// value.
pub proof fn lemma_scan_inside_string(st: ScanState, q: char, body: Seq<char>)
    requires
        st.quote == Some(q),
        forall|i: int| 0 <= i < body.len() ==> #[trigger] body[i] != q,
    ensures
        scan(st, body) == (ScanState { value: st.value + body, ..st }),
    decreases body.len(),
{
    if body.len() == 0 {
        assert(st.value + body == st.value);
    } else {
        lemma_scan_inside_string(st, q, body.drop_last());
        assert(body.last() != q);
        assert(st.value + body == (st.value + body.drop_last()).push(body.last()));
    }
}

/// A quoted string without its quote inside adds its text to the value.
pub proof fn lemma_scan_string(st: ScanState, q: char, body: Seq<char>)
    requires
        at_rest(st),
        is_quote(q),
        forall|i: int| 0 <= i < body.len() ==> #[trigger] body[i] != q,
    ensures
        scan(st, seq![q] + body + seq![q]) == (ScanState { value: st.value + body, ..st }),
{
    let opened = ScanState { quote: Some(q), ..st };
    lemma_scan_one(st, q);
    lemma_scan_append(st, seq![q], body);
    lemma_scan_inside_string(opened, q, body);
    lemma_scan_append(st, seq![q] + body, seq![q]);
    lemma_scan_one(scan(st, seq![q] + body), q);
}

/// Inside a list at depth 1 every character but a square bracket goes to
/// the value.
pub proof fn lemma_scan_inside_list(st: ScanState, body: Seq<char>)
    requires
        st.quote is None,
        st.depth == 1,
        forall|i: int| 0 <= i < body.len() ==> #[trigger] body[i] != '[' && body[i] != ']',
    ensures
        scan(st, body) == (ScanState { value: st.value + body, ..st }),
    decreases body.len(),
{
    if body.len() == 0 {
        assert(st.value + body == st.value);
    } else {
        lemma_scan_inside_list(st, body.drop_last());
        assert(body.last() != '[' && body.last() != ']');
        assert(st.value + body == (st.value + body.drop_last()).push(body.last()));
    }
}

/// A list without square brackets inside adds its text, brackets and all,
/// to the value.
pub proof fn lemma_scan_list(st: ScanState, body: Seq<char>)
    requires
        at_rest(st),
        forall|i: int| 0 <= i < body.len() ==> #[trigger] body[i] != '[' && body[i] != ']',
    ensures
        scan(st, seq!['['] + body + seq![']']) == (ScanState {
            value: st.value + (seq!['['] + body + seq![']']),
            ..st
        }),
{
    let opened = ScanState { value: st.value.push('['), depth: 1, ..st };
    lemma_scan_one(st, '[');
    lemma_scan_append(st, seq!['['], body);
    lemma_scan_inside_list(opened, body);
    lemma_scan_append(st, seq!['['] + body, seq![']']);
    lemma_scan_one(scan(st, seq!['['] + body), ']');
    assert(st.value.push('[') + body + seq![']'] =~= st.value + (seq!['['] + body + seq![']']));
    assert((st.value.push('[') + body).push(']') =~= st.value.push('[') + body + seq![']']);
}

/// A text between white space, which itself neither starts nor ends with
/// white space, is what trimming leaves.
pub proof fn lemma_trim_padded(before: Seq<char>, core: Seq<char>, after: Seq<char>)
    requires
        all_space(before),
        all_space(after),
        core.len() > 0 ==> !is_space(core[0]) && !is_space(core.last()),
    ensures
        trim(before + core + after) == core,
{
    let s = before + core + after;
    if core.len() == 0 {
        assert(s =~= before + after);
        assert forall|i: int| 0 <= i < s.len() implies is_space(#[trigger] s[i]) by {
            if i < before.len() {
                assert(s[i] == before[i]);
            } else {
                assert(s[i] == after[i - before.len()]);
            }
        }
        lemma_leading_spaces_is(s, s.len() as int);
        assert(trim_start(s) =~= Seq::<char>::empty());
        assert(trim(s) =~= core);
    } else {
        assert forall|i: int| 0 <= i < before.len() implies is_space(#[trigger] s[i]) by {
            assert(s[i] == before[i]);
        }
        assert(s[before.len() as int] == core[0]);
        lemma_leading_spaces_is(s, before.len() as int);
        let t = trim_start(s);
        assert(t =~= core + after);
        assert forall|i: int| t.len() - after.len() <= i < t.len() implies is_space(
            #[trigger] t[i],
        ) by {
            assert(t[i] == after[i - core.len()]);
        }
        assert(t[t.len() - after.len() - 1] == core.last());
        lemma_trailing_spaces_is(t, after.len() as int);
        assert(trim_end(t) =~= core);
    }
}

/// The start of a pair: white space, the key, white space, the `=` and
/// white space again leave the scanner with the key read and the value to
/// come.
pub proof fn lemma_scan_key_part(
    st: ScanState,
    before: Seq<char>,
    key: Seq<char>,
    between: Seq<char>,
    after: Seq<char>,
)
    requires
        at_rest(st),
        st.in_key,
        st.key.len() == 0,
        all_space(before),
        all_space(between),
        all_space(after),
        all_plain(key),
    ensures
        scan(st, before + key + between + seq!['='] + after) == (ScanState {
            key,
            in_key: false,
            ..st
        }),
{
    let keyed = ScanState { key, ..st };
    lemma_scan_space(st, before);
    lemma_scan_append(st, before, key);
    lemma_scan_key(st, key);
    assert(st.key + key =~= key);
    lemma_scan_append(st, before + key, between);
    lemma_scan_space(keyed, between);
    lemma_scan_append(st, before + key + between, seq!['=']);
    lemma_scan_one(keyed, '=');
    let turned = ScanState { key, in_key: false, ..st };
    lemma_scan_append(st, before + key + between + seq!['='], after);
    lemma_scan_space(turned, after);
}

/// A number written in decimal between white space, as it stands in a
/// list, is read as that number, and holds neither a comma nor a square
/// bracket.
pub proof fn lemma_list_item(before: Seq<char>, n: i64, after: Seq<char>)
    requires
        all_space(before),
        all_space(after),
    ensures
        coerce_scalar(trim(before + signed_decimal(n as int) + after)) == ScalarView::Int(n),
        forall|i: int|
            0 <= i < (before + signed_decimal(n as int) + after).len() ==> {
                let c = #[trigger] (before + signed_decimal(n as int) + after)[i];
                c != ',' && c != '[' && c != ']'
            },
{
    let text = signed_decimal(n as int);
    crate::number::lemma_i64_round_trip(n);
    assert(!is_space(text[0]) && !is_space(text.last()));
    lemma_trim_padded(before, text, after);
    let all = before + text + after;
    assert forall|i: int| 0 <= i < all.len() implies {
        let c = #[trigger] all[i];
        c != ',' && c != '[' && c != ']'
    } by {
        if i < before.len() {
            assert(all[i] == before[i]);
            assert(is_space(before[i]));
        } else if i < before.len() + text.len() {
            assert(all[i] == text[i - before.len()]);
        } else {
            assert(all[i] == after[i - before.len() - text.len()]);
            assert(is_space(after[i - before.len() - text.len()]));
        }
    }
}

/// The text of a tap as a model may write it: `do(action="X",
/// element=[a,b])`, with the quote `q` around the name `x`, the numbers
/// `a` and `b` in decimal, and the white space `w` wherever white space may
/// stand: at both ends, after the opening bracket, around each `=` and
/// comma, inside the square brackets and before the closing bracket.
pub open spec fn written_tap(q: char, x: Seq<char>, a: i64, b: i64, w: Seq<Seq<char>>) -> Seq<
    char,
> {
    w[0] + "do("@ + tap_content(q, x, a, b, w) + ")"@ + w[13]
}

/// What stands between the brackets of [`written_tap`].
pub open spec fn tap_content(q: char, x: Seq<char>, a: i64, b: i64, w: Seq<Seq<char>>) -> Seq<
    char,
> {
    (w[1] + "action"@ + w[2] + seq!['='] + w[3]) + (seq![q] + x + seq![q]) + w[4] + seq![',']
        + (w[5] + "element"@ + w[6] + seq!['='] + w[7]) + (seq!['['] + tap_list(a, b, w) + seq![
        ']',
    ]) + w[12]
}

/// What stands between the square brackets of [`written_tap`].
pub open spec fn tap_list(a: i64, b: i64, w: Seq<Seq<char>>) -> Seq<char> {
    (w[8] + signed_decimal(a as int) + w[9]) + seq![','] + (w[10] + signed_decimal(b as int)
        + w[11])
}

/// The parameters that a tap on the point `(a, b)` under the name `x`
/// carries.
pub open spec fn tap_params(x: Seq<char>, a: i64, b: i64) -> Seq<(Seq<char>, ParamValueView)> {
    seq![
        ("action"@, ParamValueView::One(ScalarView::Text(x))),
        ("element"@, ParamValueView::List(seq![ScalarView::Int(a), ScalarView::Int(b)])),
    ]
}

/// What the scanner makes of the content of a well-formed tap.
pub proof fn lemma_tap_params(q: char, x: Seq<char>, a: i64, b: i64, w: Seq<Seq<char>>)
    requires
        is_quote(q),
        w.len() == 14,
        forall|i: int| 0 <= i < 14 ==> all_space(#[trigger] w[i]),
        forall|i: int| 0 <= i < x.len() ==> #[trigger] x[i] != q,
        coerce(x) == ParamValueView::One(ScalarView::Text(x)),
    ensures
        do_params(tap_content(q, x, a, b, w)) == tap_params(x, a, b),
{
    reveal_strlit("action");
    reveal_strlit("element");
    let key1 = "action"@;
    let key2 = "element"@;
    assert(all_plain(key1)) by {
        assert forall|i: int| 0 <= i < key1.len() implies is_plain(#[trigger] key1[i]) by {
            assert(key1.len() == 6);
        }
    }
    assert(all_plain(key2)) by {
        assert forall|i: int| 0 <= i < key2.len() implies is_plain(#[trigger] key2[i]) by {
            assert(key2.len() == 7);
        }
    }
    assert(key1 != key2) by {
        assert(key1.len() != key2.len());
    }
    let seg1 = w[1] + key1 + w[2] + seq!['='] + w[3];
    let seg2 = seq![q] + x + seq![q];
    let seg3 = w[4];
    let seg4 = seq![','];
    let seg5 = w[5] + key2 + w[6] + seq!['='] + w[7];
    let inner = tap_list(a, b, w);
    let seg6 = seq!['['] + inner + seq![']'];
    let seg7 = w[12];
    let content = tap_content(q, x, a, b, w);
    assert(content == seg1 + seg2 + seg3 + seg4 + seg5 + seg6 + seg7);
    let s0 = scan_start();
    // the first pair
    lemma_scan_key_part(s0, w[1], key1, w[2], w[3]);
    let s1 = ScanState { key: key1, in_key: false, ..s0 };
    lemma_scan_append(s0, seg1, seg2);
    lemma_scan_string(s1, q, x);
    let s2 = ScanState { value: s1.value + x, ..s1 };
    assert(s1.value + x =~= x);
    lemma_scan_append(s0, seg1 + seg2, seg3);
    lemma_scan_space(s2, seg3);
    lemma_scan_append(s0, seg1 + seg2 + seg3, seg4);
    lemma_scan_one(s2, ',');
    let s4 = flush(s2);
    assert(scan(s0, seg1 + seg2 + seg3 + seg4) == s4);
    let first = ("action"@, ParamValueView::One(ScalarView::Text(x)));
    assert(s4.params =~= seq![first]) by {
        assert(key_index(Seq::<(Seq<char>, ParamValueView)>::empty(), key1) == -1);
    }
    // the second pair
    lemma_scan_append(s0, seg1 + seg2 + seg3 + seg4, seg5);
    lemma_scan_key_part(s4, w[5], key2, w[6], w[7]);
    let s5 = ScanState { key: key2, in_key: false, ..s4 };
    lemma_list_item(w[8], a, w[9]);
    lemma_list_item(w[10], b, w[11]);
    let left = w[8] + signed_decimal(a as int) + w[9];
    let right = w[10] + signed_decimal(b as int) + w[11];
    assert forall|i: int| 0 <= i < inner.len() implies #[trigger] inner[i] != '[' && inner[i]
        != ']' by {
        if i < left.len() {
            assert(inner[i] == left[i]);
        } else if i == left.len() {
            assert(inner[i] == ',');
        } else {
            assert(inner[i] == right[i - left.len() - 1]);
        }
    }
    lemma_scan_append(s0, seg1 + seg2 + seg3 + seg4 + seg5, seg6);
    lemma_scan_list(s5, inner);
    let s6 = ScanState { value: s5.value + seg6, ..s5 };
    assert(s5.value + seg6 =~= seg6);
    lemma_scan_append(s0, seg1 + seg2 + seg3 + seg4 + seg5 + seg6, seg7);
    lemma_scan_space(s6, seg7);
    assert(scan(s0, content) == s6);
    // the value of the list
    assert(seg6[0] == '[' && seg6.last() == ']');
    assert(is_bracketed(seg6));
    assert(seg6.subrange(1, seg6.len() - 1) =~= inner);
    assert forall|i: int| 0 <= i < left.len() implies #[trigger] left[i] != ',' by {}
    assert forall|i: int| 0 <= i < right.len() implies #[trigger] right[i] != ',' by {}
    crate::text::lemma_split_on_first(left, right, ',');
    crate::text::lemma_split_on_plain(right, ',');
    assert(split_commas(left + seq![','] + right) =~= seq![left, right]);
    let read = |piece: Seq<char>| coerce_scalar(trim(piece));
    assert(seq![left, right].map_values(read) =~= seq![ScalarView::Int(a), ScalarView::Int(b)]);
    assert(coerce(seg6) == ParamValueView::List(
        seq![ScalarView::Int(a), ScalarView::Int(b)],
    ));
    // the two pairs together
    let second = ("element"@, ParamValueView::List(seq![ScalarView::Int(a), ScalarView::Int(b)]));
    assert(key_index(seq![first], key2) == -1) by {
        crate::actions::value::lemma_key_index_none(seq![first], key2);
    }
    assert(flush(s6).params =~= seq![first, second]);
}

/// A well-formed tap is read as it was meant, whatever white space it is
/// written with and whichever quotes stand around its name: the action
/// has the name that was written and the two numbers under `element`, and
/// nothing else.
///
/// The name is kept to the letter, white space included. It must be one
/// that reads as itself: a name that spells a number or stands in square
/// brackets is read as that number or list.
pub proof fn law_tap_is_read_as_written(q: char, x: Seq<char>, a: i64, b: i64, w: Seq<Seq<char>>)
    requires
        is_quote(q),
        w.len() == 14,
        forall|i: int| 0 <= i < 14 ==> all_space(#[trigger] w[i]),
        forall|i: int| 0 <= i < x.len() ==> #[trigger] x[i] != q,
        coerce(x) == ParamValueView::One(ScalarView::Text(x)),
    ensures
        parse(written_tap(q, x, a, b, w)) == Ok::<ActionView, ActionErrorView>(
            ActionView::Do { name: x, params: tap_params(x, a, b) },
        ),
{
    reveal_strlit("do(");
    reveal_strlit(")");
    reveal_strlit("action");
    reveal_strlit("element");
    let content = tap_content(q, x, a, b, w);
    let core = "do("@ + content + ")"@;
    let text = written_tap(q, x, a, b, w);
    assert(text =~= w[0] + core + w[13]);
    assert(core[0] == 'd');
    assert(core.last() == ')');
    lemma_trim_padded(w[0], core, w[13]);
    assert(trim(text) == core);
    assert(core.subrange(0, 3) =~= "do("@);
    assert(has_prefix(core, "do("@));
    let rest = core.skip(3);
    assert(rest.subrange(rest.len() - 1, rest.len() as int) =~= ")"@);
    assert(has_suffix(rest, ")"@));
    assert(core.subrange(3, core.len() - 1) =~= content);
    assert(bracket_content(core, "do("@) == Some(content));
    lemma_tap_params(q, x, a, b, w);
    let params = tap_params(x, a, b);
    assert(key_index(params, "action"@) == 0);
    assert(action_name(params) == x);
}

/// What stands between quotes is the value, to the letter: its blanks,
/// its commas and its `=` are kept. The white space around the key, the
/// `=` and the quoted text is not part of either.
pub proof fn law_quoted_value_is_kept(key: Seq<char>, q: char, x: Seq<char>, w: Seq<Seq<char>>)
    requires
        key.len() > 0,
        all_plain(key),
        is_quote(q),
        forall|i: int| 0 <= i < x.len() ==> #[trigger] x[i] != q,
        w.len() == 4,
        forall|i: int| 0 <= i < 4 ==> all_space(#[trigger] w[i]),
    ensures
        do_params(w[0] + key + w[1] + seq!['='] + w[2] + (seq![q] + x + seq![q]) + w[3]) == seq![
            (key, coerce(x)),
        ],
{
    let s0 = scan_start();
    let head = w[0] + key + w[1] + seq!['='] + w[2];
    let quoted = seq![q] + x + seq![q];
    lemma_scan_key_part(s0, w[0], key, w[1], w[2]);
    let s1 = ScanState { key, in_key: false, ..s0 };
    lemma_scan_append(s0, head, quoted);
    lemma_scan_string(s1, q, x);
    let s2 = ScanState { value: s1.value + x, ..s1 };
    assert(s1.value + x =~= x);
    lemma_scan_append(s0, head + quoted, w[3]);
    lemma_scan_space(s2, w[3]);
    assert(key_index(Seq::<(Seq<char>, ParamValueView)>::empty(), key) == -1);
    assert(flush(s2).params =~= seq![(key, coerce(x))]);
}

} // verus!
