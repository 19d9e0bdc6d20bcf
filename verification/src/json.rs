//! JSON text, read and written by `serde_json`.
//!
//! The functions here are the only ones that call `serde_json`. Each takes
//! text and gives text: a JSON document is taken apart one level at a time,
//! and what stands inside stays JSON text until it is taken apart in turn.

use vstd::prelude::*;

verus! {

/// The members of the JSON object that `text` is, in the order of their
/// names, each with its value as compact JSON text; none where `text` is no
/// JSON object. Of two members with one name the later one counts.
pub uninterp spec fn json_object_members(text: Seq<char>) -> Option<Seq<(Seq<char>, Seq<char>)>>;

/// The items of the JSON array that `text` is, each as compact JSON text;
/// none where `text` is no JSON array.
pub uninterp spec fn json_array_items(text: Seq<char>) -> Option<Seq<Seq<char>>>;

/// The string that the JSON text `text` denotes; none where `text` is no
/// JSON string.
pub uninterp spec fn json_string_value(text: Seq<char>) -> Option<Seq<char>>;

/// The JSON text that denotes the string `s`, in quotes and with escapes.
pub uninterp spec fn json_string_text(s: Seq<char>) -> Option<Seq<char>>;

/// The names and values of a list of pairs of strings.
pub open spec fn pairs_view(pairs: Seq<(String, String)>) -> Seq<(Seq<char>, Seq<char>)> {
    pairs.map_values(|p: (String, String)| (p.0@, p.1@))
}

/// The characters of each string of a list.
pub open spec fn texts_view(list: Seq<String>) -> Seq<Seq<char>> {
    list.map_values(|s: String| s@)
}

/// Calls `serde_json::from_str` for a map from names to values and writes
/// each value out again with `Value::to_string`. The result is a function of
/// the text alone.
#[verifier::external_body]
pub(crate) fn parse_object(text: &str) -> (r: Option<Vec<(String, String)>>)
    ensures
        match r {
            Some(members) => json_object_members(text@) == Some(pairs_view(members@)),
            None => json_object_members(text@) is None,
        },
{
    let parsed: Result<std::collections::BTreeMap<String, serde_json::Value>, serde_json::Error> =
        serde_json::from_str(text);
    match parsed {
        Ok(map) => Some(map.into_iter().map(|(k, v)| (k, v.to_string())).collect()),
        Err(_) => None,
    }
}

/// Calls `serde_json::from_str` for a list of values and writes each value
/// out again with `Value::to_string`. The result is a function of the text
/// alone.
#[verifier::external_body]
pub(crate) fn parse_array(text: &str) -> (r: Option<Vec<String>>)
    ensures
        match r {
            Some(items) => json_array_items(text@) == Some(texts_view(items@)),
            None => json_array_items(text@) is None,
        },
{
    let parsed: Result<Vec<serde_json::Value>, serde_json::Error> = serde_json::from_str(text);
    match parsed {
        Ok(items) => Some(items.into_iter().map(|v| v.to_string()).collect()),
        Err(_) => None,
    }
}

/// Calls `serde_json::from_str` for a string. The result is a function of
/// the text alone.
#[verifier::external_body]
pub(crate) fn parse_string(text: &str) -> (r: Option<String>)
    ensures
        match r {
            Some(s) => json_string_value(text@) == Some(s@),
            None => json_string_value(text@) is None,
        },
{
    let parsed: Result<String, serde_json::Error> = serde_json::from_str(text);
    parsed.ok()
}

/// Calls `serde_json::to_string` on a string. The result is a function of
/// the string alone.
#[verifier::external_body]
pub(crate) fn write_string(s: &str) -> (r: Option<String>)
    ensures
        match r {
            Some(t) => json_string_text(s@) == Some(t@),
            None => json_string_text(s@) is None,
        },
{
    serde_json::to_string(s).ok()
}

/// What `serde_json` says of text that is no JSON value; none of text that
/// is one.
pub uninterp spec fn json_error_text(text: Seq<char>) -> Option<Seq<char>>;

/// Calls `serde_json::from_str` for any value and, where it fails, writes
/// the error out with `to_string`. The result is a function of the text
/// alone.
#[verifier::external_body]
pub(crate) fn parse_error(text: &str) -> (r: Option<String>)
    ensures
        match r {
            Some(e) => json_error_text(text@) == Some(e@),
            None => json_error_text(text@) is None,
        },
{
    let parsed: Result<serde_json::Value, serde_json::Error> = serde_json::from_str(text);
    parsed.err().map(|e| e.to_string())
}

/// The value of the member called `key` in a list of members.
pub open spec fn member_value(members: Seq<(Seq<char>, Seq<char>)>, key: Seq<char>) -> Option<
    Seq<char>,
>
    decreases members.len(),
{
    if members.len() == 0 {
        None
    } else if members[0].0 == key {
        Some(members[0].1)
    } else {
        member_value(members.skip(1), key)
    }
}

/// The JSON text of the member called `key` of the JSON object that `text`
/// is; none where `text` is no object or has no such member.
pub open spec fn json_member(text: Seq<char>, key: Seq<char>) -> Option<Seq<char>> {
    match json_object_members(text) {
        Some(members) => member_value(members, key),
        None => None,
    }
}

/// The JSON text of the item at `index` of the JSON array that `text` is;
/// none where `text` is no array or is too short.
pub open spec fn json_item(text: Seq<char>, index: nat) -> Option<Seq<char>> {
    match json_array_items(text) {
        Some(items) => if index < items.len() {
            Some(items[index as int])
        } else {
            None
        },
        None => None,
    }
}

/// A step into a JSON value: to a member of an object or to an item of an
/// array.
#[derive(Debug, Clone, Copy, PartialEq, Eq)]
pub enum Step {
    Key(&'static str),
    Index(usize),
}

/// The JSON text that is reached from `text` by one step.
pub open spec fn json_step(text: Seq<char>, step: Step) -> Option<Seq<char>> {
    match step {
        Step::Key(key) => json_member(text, key@),
        Step::Index(index) => json_item(text, index as nat),
    }
}

/// The JSON text that is reached from `text` by the steps of `path`.
pub open spec fn json_at(text: Seq<char>, path: Seq<Step>) -> Option<Seq<char>>
    decreases path.len(),
{
    if path.len() == 0 {
        Some(text)
    } else {
        match json_at(text, path.drop_last()) {
            Some(inner) => json_step(inner, path.last()),
            None => None,
        }
    }
}

/// The string that is reached from `text` by the steps of `path`.
pub open spec fn json_string_at(text: Seq<char>, path: Seq<Step>) -> Option<Seq<char>> {
    match json_at(text, path) {
        Some(inner) => json_string_value(inner),
        None => None,
    }
}

/// The JSON text of the member called `key` of the JSON object that `text`
/// is.
pub fn member(text: &str, key: &str) -> (r: Option<String>)
    ensures
        crate::actions::parser::option_view(r) == json_member(text@, key@),
{
    let members = match parse_object(text) {
        Some(members) => members,
        None => {
            return None;
        },
    };
    let ghost all = pairs_view(members@);
    let mut i: usize = 0;
    assert(all.skip(0) == all);
    while i < members.len()
        invariant
            i <= members.len(),
            all == pairs_view(members@),
            json_object_members(text@) == Some(all),
            member_value(all, key@) == member_value(all.skip(i as int), key@),
        decreases members.len() - i,
    {
        let ghost rest = all.skip(i as int);
        assert(rest[0] == all[i as int]);
        assert(rest.skip(1) == all.skip(i + 1));
        if crate::text::str_eq(members[i].0.as_str(), key) {
            return Some(members[i].1.clone());
        }
        i += 1;
    }
    None
}

/// The JSON text of the item at `index` of the JSON array that `text` is.
pub fn item(text: &str, index: usize) -> (r: Option<String>)
    ensures
        crate::actions::parser::option_view(r) == json_item(text@, index as nat),
{
    match parse_array(text) {
        Some(items) => if index < items.len() {
            Some(items[index].clone())
        } else {
            None
        },
        None => None,
    }
}

/// The JSON text that is reached from `text` by the steps of `path`.
pub fn value_at(text: &str, path: &Vec<Step>) -> (r: Option<String>)
    ensures
        crate::actions::parser::option_view(r) == json_at(text@, path@),
{
    let mut current = String::from_str(text);
    let mut i: usize = 0;
    assert(path@.take(0) =~= Seq::empty());
    while i < path.len()
        invariant
            i <= path.len(),
            json_at(text@, path@.take(i as int)) == Some(current@),
        decreases path.len() - i,
    {
        assert(path@.take(i + 1).drop_last() == path@.take(i as int));
        assert(path@.take(i + 1).last() == path@[i as int]);
        let next = match path[i] {
            Step::Key(key) => member(current.as_str(), key),
            Step::Index(index) => item(current.as_str(), index),
        };
        match next {
            Some(inner) => {
                current = inner;
            },
            None => {
                proof {
                    lemma_json_at_stays_none(text@, path@, i + 1);
                }
                return None;
            },
        }
        i += 1;
    }
    assert(path@.take(path.len() as int) == path@);
    Some(current)
}

/// Where a path leads nowhere, no longer path does.
pub proof fn lemma_json_at_stays_none(text: Seq<char>, path: Seq<Step>, k: int)
    requires
        0 <= k <= path.len(),
        json_at(text, path.take(k)) is None,
    ensures
        json_at(text, path) is None,
    decreases path.len(),
{
    if k < path.len() {
        assert(path.drop_last().take(k) == path.take(k));
        lemma_json_at_stays_none(text, path.drop_last(), k);
    } else {
        assert(path.take(k) == path);
    }
}

/// The string that is reached from `text` by the steps of `path`.
pub fn string_at(text: &str, path: &Vec<Step>) -> (r: Option<String>)
    ensures
        crate::actions::parser::option_view(r) == json_string_at(text@, path@),
{
    match value_at(text, path) {
        Some(inner) => parse_string(inner.as_str()),
        None => None,
    }
}

} // verus!
