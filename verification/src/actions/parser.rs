//! The parser of the action language.
//!
//! The model answers with `do(key=value, ...)` or `finish(message=...)`. The
//! text between the brackets is read by a small state machine that knows
//! three modes: inside a quoted string, inside a bracketed list, and plain
//! scanning of keys and values.

use crate::actions::value::{
    params_view, scalars_view, set_param, upsert, lookup, Param, ParamValue, ParamValueView,
    Scalar, ScalarView,
};
use crate::number::{float_literal, i64_literal, is_float_literal, parse_i64};
use crate::text::{
    copy_range, from_chars, is_space, is_whitespace, to_chars, trim, trim_range, has_prefix,
    has_suffix, index_of, find,
};
use vstd::prelude::*;

verus! {

/// What the model asks for: to end the task, or to do something.
///
/// The parameters of `Do` hold every pair that was written, the one called
/// `action` too; `name` is the text under `action`, or empty where there is
/// none.
#[derive(Debug, Clone, PartialEq, Eq)]
pub enum Action {
    Finish { message: Option<String> },
    Do { name: String, params: Vec<Param> },
}

/// The mathematical value of an [`Action`].
pub enum ActionView {
    Finish { message: Option<Seq<char>> },
    Do { name: Seq<char>, params: Seq<(Seq<char>, ParamValueView)> },
}

/// The characters of an optional string.
pub open spec fn option_view(s: Option<String>) -> Option<Seq<char>> {
    match s {
        Some(t) => Some(t@),
        None => None,
    }
}

impl View for Action {
    type V = ActionView;

    open spec fn view(&self) -> ActionView {
        match self {
            Action::Finish { message } => ActionView::Finish { message: option_view(*message) },
            Action::Do { name, params } => ActionView::Do {
                name: name@,
                params: params_view(params@),
            },
        }
    }
}

/// The reading of a single value: an integer where the text is one, else a
/// floating-point number where it is one, else the text itself.
pub open spec fn coerce_scalar(t: Seq<char>) -> ScalarView {
    match i64_literal(t) {
        Some(n) => ScalarView::Int(n),
        None => if float_literal(t) {
            ScalarView::Float(t)
        } else {
            ScalarView::Text(t)
        },
    }
}

/// The pieces of `s` between its commas. A text without a comma is one
/// piece.
pub open spec fn split_commas(s: Seq<char>) -> Seq<Seq<char>> {
    crate::text::split_on(s, ',')
}

/// Whether `t` is written as a list: in square brackets.
pub open spec fn is_bracketed(t: Seq<char>) -> bool {
    t.len() >= 2 && t[0] == '[' && t.last() == ']'
}

/// The reading of a value: a list where the text stands in square brackets,
/// each piece between commas trimmed and read on its own; a single value
/// otherwise.
pub open spec fn coerce(t: Seq<char>) -> ParamValueView {
    if is_bracketed(t) {
        ParamValueView::List(
            split_commas(t.subrange(1, t.len() - 1)).map_values(
                |piece: Seq<char>| coerce_scalar(trim(piece)),
            ),
        )
    } else {
        ParamValueView::One(coerce_scalar(t))
    }
}

/// Reads a single value.
pub fn read_scalar(t: &Vec<char>) -> (r: Scalar)
    ensures
        r@ == coerce_scalar(t@),
{
    match parse_i64(t) {
        Some(n) => Scalar::Int(n),
        None => if is_float_literal(t) {
            Scalar::Float(from_chars(t))
        } else {
            Scalar::Text(from_chars(t))
        },
    }
}

/// Reads the pieces of `t[from..to]` between commas.
fn read_list(t: &Vec<char>, from: usize, to: usize) -> (r: Vec<Scalar>)
    requires
        from <= to <= t.len(),
    ensures
        scalars_view(r@) == split_commas(t@.subrange(from as int, to as int)).map_values(
            |piece: Seq<char>| coerce_scalar(trim(piece)),
        ),
{
    let ghost inner = t@.subrange(from as int, to as int);
    let ghost read = |piece: Seq<char>| coerce_scalar(trim(piece));
    let mut done: Vec<Scalar> = Vec::new();
    let mut start: usize = from;
    let mut i: usize = from;
    while i < to
        invariant
            from <= start <= i <= to <= t.len(),
            inner == t@.subrange(from as int, to as int),
            read == |piece: Seq<char>| coerce_scalar(trim(piece)),
            split_commas(inner.take(i - from)).len() == done.len() + 1,
            split_commas(inner.take(i - from)).last() == t@.subrange(start as int, i as int),
            scalars_view(done@) == split_commas(inner.take(i - from)).drop_last().map_values(read),
        decreases to - i,
    {
        let ghost before = split_commas(inner.take(i - from));
        let ghost next = inner.take(i - from + 1);
        assert(next.drop_last() == inner.take(i - from));
        assert(next.last() == t@[i as int]);
        if t[i] == ',' {
            let (a, b) = trim_range(t, start, i);
            let piece = copy_range(t, a, b);
            let item = read_scalar(&piece);
            let ghost old_done = scalars_view(done@);
            done.push(item);
            assert(scalars_view(done@) =~= old_done.push(item@));
            assert(split_commas(next) == before.push(Seq::<char>::empty()));
            assert(split_commas(next).drop_last() == before);
            assert(before == before.drop_last().push(before.last()));
            assert(before.map_values(read) =~= before.drop_last().map_values(read).push(
                read(before.last()),
            ));
            start = i + 1;
            assert(t@.subrange(start as int, start as int) == Seq::<char>::empty());
        } else {
            assert(split_commas(next) == before.update(
                before.len() - 1,
                before.last().push(t@[i as int]),
            ));
            assert(split_commas(next).drop_last() =~= before.drop_last());
            assert(t@.subrange(start as int, i + 1) == t@.subrange(start as int, i as int).push(
                t@[i as int],
            ));
        }
        i += 1;
    }
    assert(inner.take(to - from) == inner);
    let ghost all = split_commas(inner);
    let (a, b) = trim_range(t, start, to);
    let piece = copy_range(t, a, b);
    let item = read_scalar(&piece);
    let ghost old_done = scalars_view(done@);
    done.push(item);
    assert(scalars_view(done@) =~= old_done.push(item@));
    assert(all == all.drop_last().push(all.last()));
    assert(all.map_values(read) =~= all.drop_last().map_values(read).push(read(all.last())));
    done
}

/// Reads a value.
pub fn read_value(t: &Vec<char>) -> (r: ParamValue)
    ensures
        r@ == coerce(t@),
{
    let n = t.len();
    if n >= 2 && t[0] == '[' && t[n - 1] == ']' {
        ParamValue::List(read_list(t, 1, n - 1))
    } else {
        ParamValue::One(read_scalar(t))
    }
}

/// Action handling errors.
#[derive(Debug, Clone, PartialEq, Eq)]
pub enum ActionError {
    UnknownActionType(String),
    UnknownAction(String),
    MissingParameter(String),
    ExecutionFailed(String),
    ParseError(String),
}

/// The mathematical value of an [`ActionError`].
pub enum ActionErrorView {
    UnknownActionType(Seq<char>),
    UnknownAction(Seq<char>),
    MissingParameter(Seq<char>),
    ExecutionFailed(Seq<char>),
    ParseError(Seq<char>),
}

impl View for ActionError {
    type V = ActionErrorView;

    open spec fn view(&self) -> ActionErrorView {
        match self {
            ActionError::UnknownActionType(t) => ActionErrorView::UnknownActionType(t@),
            ActionError::UnknownAction(t) => ActionErrorView::UnknownAction(t@),
            ActionError::MissingParameter(t) => ActionErrorView::MissingParameter(t@),
            ActionError::ExecutionFailed(t) => ActionErrorView::ExecutionFailed(t@),
            ActionError::ParseError(t) => ActionErrorView::ParseError(t@),
        }
    }
}

/// The text of an error, as it is shown to a reader.
pub open spec fn error_text(e: ActionErrorView) -> Seq<char> {
    match e {
        ActionErrorView::UnknownActionType(t) => "Unknown action type: "@ + t,
        ActionErrorView::UnknownAction(t) => "Unknown action: "@ + t,
        ActionErrorView::MissingParameter(t) => "Missing required parameter: "@ + t,
        ActionErrorView::ExecutionFailed(t) => "Action failed: "@ + t,
        ActionErrorView::ParseError(t) => "Parse error: "@ + t,
    }
}

impl ActionError {
    /// The text of the error, as it is shown to a reader.
    pub fn message(&self) -> (r: String)
        ensures
            r@ == error_text(self@),
    {
        let (head, tail) = match self {
            ActionError::UnknownActionType(t) => ("Unknown action type: ", t),
            ActionError::UnknownAction(t) => ("Unknown action: ", t),
            ActionError::MissingParameter(t) => ("Missing required parameter: ", t),
            ActionError::ExecutionFailed(t) => ("Action failed: ", t),
            ActionError::ParseError(t) => ("Parse error: ", t),
        };
        let mut out = to_chars(head);
        crate::text::push_str(&mut out, tail.as_str());
        from_chars(&out)
    }
}

/// The state of the scanner between two characters.
pub struct ScanState {
    /// The key read so far.
    pub key: Seq<char>,
    /// The value read so far.
    pub value: Seq<char>,
    /// The quote that opened the string the scanner is in, if it is in one.
    pub quote: Option<char>,
    /// How many square brackets are open; 0 outside a list.
    pub depth: nat,
    /// Whether plain characters go to the key.
    pub in_key: bool,
    /// The parameters completed so far.
    pub params: Seq<(Seq<char>, ParamValueView)>,
}

/// The state before the first character.
pub open spec fn scan_start() -> ScanState {
    ScanState {
        key: Seq::empty(),
        value: Seq::empty(),
        quote: None,
        depth: 0,
        in_key: true,
        params: Seq::empty(),
    }
}

/// Ends the pair that is being read: where its key is not empty, the value
/// is read and stored under the key. The value is read as it stands: white
/// space outside quotes and lists never reached it, and what stood inside
/// quotes is kept to the letter.
pub open spec fn flush(st: ScanState) -> ScanState {
    ScanState {
        key: Seq::empty(),
        value: Seq::empty(),
        quote: st.quote,
        depth: st.depth,
        in_key: true,
        params: if st.key.len() > 0 {
            upsert(st.params, st.key, coerce(st.value))
        } else {
            st.params
        },
    }
}

/// The state after one more character.
///
/// Inside a string every character but the closing quote belongs to the
/// value. Inside a list every character belongs to the value, and the list
/// ends with the bracket that closes its first one. Elsewhere a quote opens
/// a string, a square bracket a list, `=` turns to the value, a comma ends
/// the pair, white space is skipped, and any other character belongs to the
/// key or the value.
pub open spec fn scan_step(st: ScanState, c: char) -> ScanState {
    if st.quote is Some {
        if c == st.quote->0 {
            ScanState { quote: None, ..st }
        } else {
            ScanState { value: st.value.push(c), ..st }
        }
    } else if st.depth > 0 {
        ScanState {
            value: st.value.push(c),
            depth: if c == '[' {
                st.depth + 1
            } else if c == ']' {
                (st.depth - 1) as nat
            } else {
                st.depth
            },
            ..st
        }
    } else if c == '"' || c == '\'' {
        ScanState { quote: Some(c), ..st }
    } else if c == '[' {
        ScanState { value: st.value.push(c), depth: 1, ..st }
    } else if c == '=' {
        ScanState { in_key: false, ..st }
    } else if c == ',' {
        flush(st)
    } else if is_space(c) {
        st
    } else if st.in_key {
        ScanState { key: st.key.push(c), ..st }
    } else {
        ScanState { value: st.value.push(c), ..st }
    }
}

/// The state after the characters of `s`, starting in `st`.
pub open spec fn scan(st: ScanState, s: Seq<char>) -> ScanState
    decreases s.len(),
{
    if s.len() == 0 {
        st
    } else {
        scan_step(scan(st, s.drop_last()), s.last())
    }
}

/// The parameters written in `content`, the text between the brackets of a
/// `do(...)`.
pub open spec fn do_params(content: Seq<char>) -> Seq<(Seq<char>, ParamValueView)> {
    flush(scan(scan_start(), content)).params
}

/// The name of the action: the text under `action`, or empty.
pub open spec fn action_name(params: Seq<(Seq<char>, ParamValueView)>) -> Seq<char> {
    match lookup(params, "action"@) {
        Some(ParamValueView::One(ScalarView::Text(t))) => t,
        _ => Seq::empty(),
    }
}

/// The action that `do(content)` stands for.
pub open spec fn parse_do(content: Seq<char>) -> ActionView {
    ActionView::Do { name: action_name(do_params(content)), params: do_params(content) }
}

/// The text of `s` between `open` at its start and `)` at its end, where it
/// has both.
pub open spec fn bracket_content(s: Seq<char>, open: Seq<char>) -> Option<Seq<char>> {
    if has_prefix(s, open) && has_suffix(s.skip(open.len() as int), ")"@) {
        Some(s.subrange(open.len() as int, s.len() - ")"@.len()))
    } else {
        None
    }
}

/// The bounds of the text between `open` at the start of `v` and `)` at its
/// end.
fn content_range(v: &Vec<char>, open: &str) -> (r: Option<(usize, usize)>)
    ensures
        match r {
            Some((from, to)) => from <= to <= v.len() && bracket_content(v@, open@) == Some(
                v@.subrange(from as int, to as int),
            ),
            None => bracket_content(v@, open@) is None,
        },
{
    proof {
        reveal_strlit(")");
    }
    let head = to_chars(open);
    if !crate::text::matches_at(v, &head, 0) {
        return None;
    }
    let n = v.len();
    let from = head.len();
    let ghost rest = v@.skip(from as int);
    if n == from {
        return None;
    }
    assert(rest.subrange(rest.len() - 1, rest.len() as int) =~= seq![v@[n - 1]]);
    assert(")"@ =~= seq![')']);
    if v[n - 1] != ')' {
        assert(rest.subrange(rest.len() - 1, rest.len() as int)[0] != ")"@[0]);
        return None;
    }
    Some((from, n - 1))
}

/// Parses the text of a `do(...)` action.
///
/// Succeeds exactly where the text starts with `do(` and ends with `)`; what
/// stands between is read by the scanner.
pub fn parse_do_action(response: &str) -> (r: Result<Action, ActionError>)
    ensures
        match r {
            Ok(a) => bracket_content(response@, "do("@) matches Some(content) && a@ == parse_do(
                content,
            ),
            Err(e) => bracket_content(response@, "do("@) is None && e@
                == ActionErrorView::ParseError("Invalid do() format"@),
        },
{
    let v = to_chars(response);
    parse_do_chars(&v)
}

/// Parses the characters of a `do(...)` action.
fn parse_do_chars(v: &Vec<char>) -> (r: Result<Action, ActionError>)
    ensures
        match r {
            Ok(a) => bracket_content(v@, "do("@) matches Some(content) && a@ == parse_do(content),
            Err(e) => bracket_content(v@, "do("@) is None && e@ == ActionErrorView::ParseError(
                "Invalid do() format"@,
            ),
        },
{
    let (from, to) = match content_range(v, "do(") {
        Some(range) => range,
        None => {
            return Err(ActionError::ParseError(String::from_str("Invalid do() format")));
        },
    };
    let ghost content = v@.subrange(from as int, to as int);
    let mut key: Vec<char> = Vec::new();
    let mut value: Vec<char> = Vec::new();
    let mut quote: Option<char> = None;
    let mut depth: usize = 0;
    let mut in_key = true;
    let mut params: Vec<Param> = Vec::new();
    assert(params_view(params@) =~= Seq::empty());
    assert(content.take(0) =~= Seq::empty());
    let mut i: usize = from;
    while i < to
        invariant
            from <= i <= to <= v.len(),
            content == v@.subrange(from as int, to as int),
            depth <= i - from,
            scan(scan_start(), content.take(i - from)) == (ScanState {
                key: key@,
                value: value@,
                quote: quote,
                depth: depth as nat,
                in_key: in_key,
                params: params_view(params@),
            }),
        decreases to - i,
    {
        let c = v[i];
        let ghost before = scan(scan_start(), content.take(i - from));
        let ghost next = content.take(i - from + 1);
        assert(next.drop_last() == content.take(i - from));
        assert(next.last() == c);
        assert(scan(scan_start(), next) == scan_step(before, c));
        match quote {
            Some(q) => {
                if c == q {
                    quote = None;
                } else {
                    value.push(c);
                }
            },
            None => {
                if depth > 0 {
                    value.push(c);
                    if c == '[' {
                        depth += 1;
                    } else if c == ']' {
                        depth -= 1;
                    }
                } else if c == '"' || c == '\'' {
                    quote = Some(c);
                } else if c == '[' {
                    value.push(c);
                    depth = 1;
                } else if c == '=' {
                    in_key = false;
                } else if c == ',' {
                    store_pair(&mut params, &key, &value);
                    key = Vec::new();
                    value = Vec::new();
                    in_key = true;
                } else if is_whitespace(c) {
                } else if in_key {
                    key.push(c);
                } else {
                    value.push(c);
                }
            },
        }
        i += 1;
    }
    assert(content.take(to - from) == content);
    store_pair(&mut params, &key, &value);
    let name = match crate::actions::value::get_param(&params, "action") {
        Some(ParamValue::One(Scalar::Text(t))) => t.clone(),
        _ => String::new(),
    };
    Ok(Action::Do { name, params })
}

/// Stores the value read from `value` under `key`, unless the key is empty.
fn store_pair(params: &mut Vec<Param>, key: &Vec<char>, value: &Vec<char>)
    ensures
        params_view(final(params)@) == if key@.len() > 0 {
            upsert(params_view(old(params)@), key@, coerce(value@))
        } else {
            params_view(old(params)@)
        },
{
    if key.len() > 0 {
        let parsed = read_value(value);
        set_param(params, from_chars(key), parsed);
    }
}

/// Whether `c` opens and closes a string.
pub open spec fn is_quote(c: char) -> bool {
    c == '"' || c == '\''
}

/// The message written in `content`, the text between the brackets of a
/// `finish(...)`.
///
/// The message follows the first `message=`. Where it starts with a quote it
/// runs to the next quote of the same kind, or to the end; otherwise it runs
/// to the next comma, or to the end, and is trimmed.
pub open spec fn finish_message(content: Seq<char>) -> Option<Seq<char>> {
    let at = index_of(content, "message="@);
    if at < 0 {
        None
    } else {
        let start = at + "message="@.len();
        if start < content.len() && is_quote(content[start]) {
            let close = crate::text::index_from(content, seq![content[start]], start + 1);
            if close < 0 {
                Some(content.skip(start + 1))
            } else {
                Some(content.subrange(start + 1, close))
            }
        } else {
            let comma = crate::text::index_from(content, seq![','], start);
            if comma < 0 {
                Some(trim(content.skip(start)))
            } else {
                Some(trim(content.subrange(start, comma)))
            }
        }
    }
}

/// The action that `finish(content)` stands for.
pub open spec fn parse_finish(content: Seq<char>) -> ActionView {
    ActionView::Finish { message: finish_message(content) }
}

/// Reads the message of a `finish(...)` from `c`, the text between its
/// brackets.
fn read_finish_message(c: &Vec<char>) -> (r: Option<String>)
    ensures
        option_view(r) == finish_message(c@),
{
    let pattern = to_chars("message=");
    let at = match find(c, &pattern) {
        Some(at) => at,
        None => {
            return None;
        },
    };
    proof {
        crate::text::lemma_index_from(c@, pattern@, 0);
    }
    let n = c.len();
    let start = at + pattern.len();
    if start < n && (c[start] == '"' || c[start] == '\'') {
        let mut q: Vec<char> = Vec::new();
        q.push(c[start]);
        assert(q@ =~= seq![c@[start as int]]);
        match crate::text::find_from(c, &q, start + 1) {
            Some(close) => {
                proof {
                    crate::text::lemma_index_from(c@, q@, start + 1);
                }
                Some(crate::text::slice_to_string(c, start + 1, close))
            },
            None => {
                assert(c@.skip(start + 1) == c@.subrange(start + 1, n as int));
                Some(crate::text::slice_to_string(c, start + 1, n))
            },
        }
    } else {
        let mut comma: Vec<char> = Vec::new();
        comma.push(',');
        assert(comma@ =~= seq![',']);
        let end = match crate::text::find_from(c, &comma, start) {
            Some(end) => {
                proof {
                    crate::text::lemma_index_from(c@, comma@, start as int);
                }
                end
            },
            None => {
                assert(c@.skip(start as int) == c@.subrange(start as int, n as int));
                n
            },
        };
        let (a, b) = trim_range(c, start, end);
        Some(crate::text::slice_to_string(c, a, b))
    }
}

/// Parses the characters of a `finish(...)` action.
fn parse_finish_chars(v: &Vec<char>) -> (r: Result<Action, ActionError>)
    ensures
        match r {
            Ok(a) => bracket_content(v@, "finish("@) matches Some(content) && a@ == parse_finish(
                content,
            ),
            Err(e) => bracket_content(v@, "finish("@) is None && e@ == ActionErrorView::ParseError(
                "Invalid finish() format"@,
            ),
        },
{
    let (from, to) = match content_range(v, "finish(") {
        Some(range) => range,
        None => {
            return Err(ActionError::ParseError(String::from_str("Invalid finish() format")));
        },
    };
    let content = copy_range(v, from, to);
    let message = read_finish_message(&content);
    Ok(Action::Finish { message })
}

/// Parses the text of a `finish(...)` action.
///
/// Succeeds exactly where the text starts with `finish(` and ends with `)`.
pub fn parse_finish_action(response: &str) -> (r: Result<Action, ActionError>)
    ensures
        match r {
            Ok(a) => bracket_content(response@, "finish("@) matches Some(content) && a@
                == parse_finish(content),
            Err(e) => bracket_content(response@, "finish("@) is None && e@
                == ActionErrorView::ParseError("Invalid finish() format"@),
        },
{
    let v = to_chars(response);
    parse_finish_chars(&v)
}

/// Reads a value from text: the text is trimmed, then read as a list where
/// it stands in square brackets and as a single value otherwise.
pub fn parse_value(value: &str) -> (r: ParamValue)
    ensures
        r@ == coerce(trim(value@)),
{
    let v = to_chars(value);
    let trimmed = crate::text::trim_chars(&v);
    read_value(&trimmed)
}

/// What the parser makes of a model's answer.
///
/// The answer is trimmed. It must start with `do(` or `finish(` and end with
/// the closing bracket; anything else is an error that says which of the
/// three went wrong.
pub open spec fn parse(response: Seq<char>) -> Result<ActionView, ActionErrorView> {
    let t = trim(response);
    if has_prefix(t, "do("@) {
        match bracket_content(t, "do("@) {
            Some(content) => Ok(parse_do(content)),
            None => Err(ActionErrorView::ParseError("Invalid do() format"@)),
        }
    } else if has_prefix(t, "finish("@) {
        match bracket_content(t, "finish("@) {
            Some(content) => Ok(parse_finish(content)),
            None => Err(ActionErrorView::ParseError("Invalid finish() format"@)),
        }
    } else {
        Err(ActionErrorView::ParseError("Failed to parse action: "@ + t))
    }
}

/// The action or the error of `r`, as mathematical values.
pub open spec fn parsed_view(r: Result<Action, ActionError>) -> Result<
    ActionView,
    ActionErrorView,
> {
    match r {
        Ok(a) => Ok(a@),
        Err(e) => Err(e@),
    }
}

/// Parses a model's answer into an action.
pub fn parse_action(response: &str) -> (r: Result<Action, ActionError>)
    ensures
        parsed_view(r) == parse(response@),
{
    let raw = to_chars(response);
    let v = crate::text::trim_chars(&raw);
    if crate::text::starts_with_str(&v, "do(") {
        parse_do_chars(&v)
    } else if crate::text::starts_with_str(&v, "finish(") {
        parse_finish_chars(&v)
    } else {
        let mut text = to_chars("Failed to parse action: ");
        crate::text::push_chars(&mut text, &v);
        Err(ActionError::ParseError(from_chars(&text)))
    }
}

/// `params` stored one after the other, each under its key, on top of
/// `base`.
pub open spec fn stored(
    base: Seq<(Seq<char>, ParamValueView)>,
    params: Seq<(Seq<char>, ParamValueView)>,
) -> Seq<(Seq<char>, ParamValueView)>
    decreases params.len(),
{
    if params.len() == 0 {
        base
    } else {
        upsert(stored(base, params.drop_last()), params.last().0, params.last().1)
    }
}

/// The `do` action called `action` with the parameters `params`: the name
/// stands first, under `action`, and a parameter that is given twice, or
/// under `action`, counts as given last.
pub open spec fn made_do(action: Seq<char>, params: Seq<(Seq<char>, ParamValueView)>)
    -> ActionView {
    let all = stored(
        seq![("action"@, ParamValueView::One(ScalarView::Text(action)))],
        params,
    );
    ActionView::Do { name: action_name(all), params: all }
}

/// Makes a `do` action.
pub fn do_action(action: &str, params: Vec<Param>) -> (r: Action)
    ensures
        r@ == made_do(action@, params_view(params@)),
{
    let ghost given = params_view(params@);
    let mut all: Vec<Param> = Vec::new();
    all.push(
        Param {
            key: String::from_str("action"),
            value: ParamValue::One(Scalar::Text(String::from_str(action))),
        },
    );
    let ghost base = params_view(all@);
    assert(base =~= seq![("action"@, ParamValueView::One(ScalarView::Text(action@)))]);
    let mut params = params;
    let mut rest: Vec<Param> = Vec::new();
    // The parameters are taken from the end, so they are turned round first.
    let mut n: usize = 0;
    let total = params.len();
    while params.len() > 0
        invariant
            n + params.len() == total,
            total == given.len(),
            rest.len() == n,
            params_view(params@) == given.take(params.len() as int),
            forall|j: int| 0 <= j < n ==> (#[trigger] rest@[j])@ == given[total - 1 - j],
        decreases params.len(),
    {
        let ghost before = params_view(params@);
        let last = params.pop().unwrap();
        assert(params_view(params@) =~= before.drop_last());
        assert(before.last() == last@);
        rest.push(last);
        n += 1;
    }
    let mut k: usize = total;
    assert(given.take(0) =~= Seq::empty());
    while rest.len() > 0
        invariant
            rest.len() <= total,
            k == rest.len(),
            total == given.len(),
            forall|j: int| 0 <= j < rest.len() ==> (#[trigger] rest@[j])@ == given[total - 1 - j],
            params_view(all@) == stored(base, given.take(total - k)),
        decreases rest.len(),
    {
        let next = rest.pop().unwrap();
        let ghost upto = given.take(total - k + 1);
        assert(upto.drop_last() == given.take(total - k));
        assert(upto.last() == next@);
        set_param(&mut all, next.key, next.value);
        k -= 1;
    }
    assert(given.take(total as int) == given);
    let name = match crate::actions::value::get_param(&all, "action") {
        Some(ParamValue::One(Scalar::Text(t))) => t.clone(),
        _ => String::new(),
    };
    Action::Do { name, params: all }
}

/// Makes a `finish` action.
pub fn finish_action(message: Option<&str>) -> (r: Action)
    ensures
        r@ == (ActionView::Finish {
            message: match message {
                Some(m) => Some(m@),
                None => None,
            },
        }),
{
    Action::Finish {
        message: match message {
            Some(m) => Some(String::from_str(m)),
            None => None,
        },
    }
}

} // verus!
