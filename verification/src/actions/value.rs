//! The values that an action carries.

use crate::text::str_eq;
use vstd::prelude::*;

verus! {

/// A single value: a number or a piece of text.
///
/// A floating-point number is kept as the literal that spelled it.
#[derive(Debug, Clone, PartialEq, Eq)]
pub enum Scalar {
    Int(i64),
    Float(String),
    Text(String),
}

/// The mathematical value of a [`Scalar`].
pub enum ScalarView {
    Int(i64),
    Float(Seq<char>),
    Text(Seq<char>),
}

impl View for Scalar {
    type V = ScalarView;

    open spec fn view(&self) -> ScalarView {
        match self {
            Scalar::Int(n) => ScalarView::Int(*n),
            Scalar::Float(t) => ScalarView::Float(t@),
            Scalar::Text(t) => ScalarView::Text(t@),
        }
    }
}

/// The value of one parameter: a single value or a list of them.
#[derive(Debug, Clone, PartialEq, Eq)]
pub enum ParamValue {
    One(Scalar),
    List(Vec<Scalar>),
}

/// The mathematical value of a [`ParamValue`].
pub enum ParamValueView {
    One(ScalarView),
    List(Seq<ScalarView>),
}

/// The values of a list of scalars.
pub open spec fn scalars_view(items: Seq<Scalar>) -> Seq<ScalarView> {
    items.map_values(|s: Scalar| s@)
}

impl View for ParamValue {
    type V = ParamValueView;

    open spec fn view(&self) -> ParamValueView {
        match self {
            ParamValue::One(s) => ParamValueView::One(s@),
            ParamValue::List(items) => ParamValueView::List(scalars_view(items@)),
        }
    }
}

/// A named parameter of an action.
#[derive(Debug, Clone, PartialEq, Eq)]
pub struct Param {
    pub key: String,
    pub value: ParamValue,
}

impl View for Param {
    type V = (Seq<char>, ParamValueView);

    open spec fn view(&self) -> (Seq<char>, ParamValueView) {
        (self.key@, self.value@)
    }
}

/// The keys and values of a list of parameters, in order.
pub open spec fn params_view(params: Seq<Param>) -> Seq<(Seq<char>, ParamValueView)> {
    params.map_values(|p: Param| p@)
}

/// The index of the first entry of `params` whose key is `key`, or -1.
pub open spec fn key_index(params: Seq<(Seq<char>, ParamValueView)>, key: Seq<char>) -> int
    decreases params.len(),
{
    if params.len() == 0 {
        -1
    } else if params[0].0 == key {
        0
    } else {
        let rest = key_index(params.skip(1), key);
        if rest < 0 {
            -1
        } else {
            rest + 1
        }
    }
}

/// The value that `params` holds under `key`.
pub open spec fn lookup(params: Seq<(Seq<char>, ParamValueView)>, key: Seq<char>) -> Option<
    ParamValueView,
> {
    let i = key_index(params, key);
    if i < 0 {
        None
    } else {
        Some(params[i].1)
    }
}

/// `params` with `key` set to `value`: in place where the key is there
/// already, at the end where it is new.
pub open spec fn upsert(
    params: Seq<(Seq<char>, ParamValueView)>,
    key: Seq<char>,
    value: ParamValueView,
) -> Seq<(Seq<char>, ParamValueView)> {
    let i = key_index(params, key);
    if i < 0 {
        params.push((key, value))
    } else {
        params.update(i, (key, value))
    }
}

/// `key_index` finds the first entry with the key, and -1 only where no
/// entry has it.
pub proof fn lemma_key_index(params: Seq<(Seq<char>, ParamValueView)>, key: Seq<char>)
    ensures
        -1 <= key_index(params, key) < params.len(),
        key_index(params, key) >= 0 ==> params[key_index(params, key)].0 == key,
        forall|j: int|
            0 <= j < params.len() && (j < key_index(params, key) || key_index(params, key) < 0)
                ==> (#[trigger] params[j]).0 != key,
    decreases params.len(),
{
    if params.len() > 0 && params[0].0 != key {
        let rest = params.skip(1);
        lemma_key_index(rest, key);
        assert forall|j: int|
            0 <= j < params.len() && (j < key_index(params, key) || key_index(params, key)
                < 0) implies (#[trigger] params[j]).0 != key by {
            if j > 0 {
                assert(params[j] == rest[j - 1]);
            }
        }
    }
}

/// An entry that no earlier entry shares its key with is the one that
/// `key_index` finds.
pub proof fn lemma_key_index_is(params: Seq<(Seq<char>, ParamValueView)>, key: Seq<char>, i: int)
    requires
        0 <= i < params.len(),
        params[i].0 == key,
        forall|j: int| 0 <= j < i ==> (#[trigger] params[j]).0 != key,
    ensures
        key_index(params, key) == i,
{
    lemma_key_index(params, key);
}

/// Where no entry has the key, `key_index` is -1.
pub proof fn lemma_key_index_none(params: Seq<(Seq<char>, ParamValueView)>, key: Seq<char>)
    requires
        forall|j: int| 0 <= j < params.len() ==> (#[trigger] params[j]).0 != key,
    ensures
        key_index(params, key) == -1,
{
    lemma_key_index(params, key);
}

/// The index of the parameter called `key`.
pub fn find_param(params: &Vec<Param>, key: &str) -> (r: Option<usize>)
    ensures
        match r {
            Some(i) => i < params.len() && i as int == key_index(params_view(params@), key@),
            None => key_index(params_view(params@), key@) == -1,
        },
{
    let ghost view = params_view(params@);
    let mut i: usize = 0;
    while i < params.len()
        invariant
            i <= params.len(),
            view == params_view(params@),
            forall|j: int| 0 <= j < i ==> (#[trigger] view[j]).0 != key@,
        decreases params.len() - i,
    {
        if str_eq(params[i].key.as_str(), key) {
            proof {
                lemma_key_index_is(view, key@, i as int);
            }
            return Some(i);
        }
        i += 1;
    }
    proof {
        lemma_key_index_none(view, key@);
    }
    None
}

/// The value of the parameter called `key`.
pub fn get_param<'a>(params: &'a Vec<Param>, key: &str) -> (r: Option<&'a ParamValue>)
    ensures
        match r {
            Some(v) => lookup(params_view(params@), key@) == Some(v@),
            None => lookup(params_view(params@), key@) is None,
        },
{
    match find_param(params, key) {
        Some(i) => Some(&params[i].value),
        None => None,
    }
}

/// Sets the parameter called `key` to `value`, in place where it is there
/// already and at the end where it is new.
pub fn set_param(params: &mut Vec<Param>, key: String, value: ParamValue)
    ensures
        params_view(final(params)@) == upsert(params_view(old(params)@), key@, value@),
{
    let found = find_param(params, key.as_str());
    let ghost before = params_view(params@);
    let ghost entry = (key@, value@);
    match found {
        Some(i) => {
            params.set(i, Param { key, value });
            assert(params_view(params@) =~= before.update(i as int, entry));
        },
        None => {
            params.push(Param { key, value });
            assert(params_view(params@) =~= before.push(entry));
        },
    }
}

} // verus!
