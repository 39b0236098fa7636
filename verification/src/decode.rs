//! Reading JSON text. The parsing is done by `serde_json`; what this module
//! proves is that the tree handed on is the tree that was parsed.

use vstd::prelude::*;
use crate::json::{
    items_view, lemma_array_view, lemma_object_view, Json, JsonObject, JsonView,
};

verus! {

/// Declares `serde_json::Value`, the value that the parser returns. Nothing
/// inside it is visible here: it is only carried from [`parse_value`] to
/// [`peel`].
#[verifier::external_type_specification]
#[verifier::external_body]
pub struct ExValue(serde_json::Value);

/// The tree that a `serde_json::Value` holds, without the value of its numbers.
pub uninterp spec fn value_tree(v: serde_json::Value) -> JsonView;

/// What `serde_json::from_str` makes of a text: the tree of the value that it
/// returns, or `None` where it returns an error.
pub uninterp spec fn parsed_json(text: Seq<char>) -> Option<JsonView>;

/// One level of a `serde_json::Value`: its variant, with the fields moved out.
enum Shallow {
    Null,
    Bool(bool),
    Number,
    String(String),
    Array(Vec<serde_json::Value>),
    Object(Vec<(String, serde_json::Value)>),
}

/// The trees of a sequence of values.
spec fn value_trees(items: Seq<serde_json::Value>) -> Seq<JsonView> {
    items.map_values(|item: serde_json::Value| value_tree(item))
}

/// The keys and trees of a sequence of members.
spec fn member_trees(members: Seq<(String, serde_json::Value)>) -> Seq<(Seq<char>, JsonView)> {
    members.map_values(|member: (String, serde_json::Value)| (member.0@, value_tree(member.1)))
}

impl Shallow {
    /// The tree that this level and the values below it stand for.
    spec fn tree(self) -> JsonView {
        match self {
            Shallow::Null => JsonView::Null,
            Shallow::Bool(b) => JsonView::Bool(b),
            Shallow::Number => JsonView::Number,
            Shallow::String(s) => JsonView::String(s@),
            Shallow::Array(items) => JsonView::Array(value_trees(items@)),
            Shallow::Object(members) => JsonView::Object(member_trees(members@)),
        }
    }
}

/// Calls `serde_json::from_str` for a `serde_json::Value`. Trusted: the result
/// is `Some` exactly where the call returns `Ok`, and then holds that value.
#[verifier::external_body]
fn parse_value(text: &str) -> (r: Option<serde_json::Value>)
    ensures
        match r {
            Some(v) => parsed_json(text@) == Some(value_tree(v)),
            None => parsed_json(text@) is None,
        },
{
    serde_json::from_str::<serde_json::Value>(text).ok()
}

/// Takes a `serde_json::Value` apart by its variant. Trusted: a string, the
/// items of an array and the members of an object are moved out unchanged,
/// the members in the order in which the `serde_json::Map` hands them out;
/// of a number only the variant is kept.
#[verifier::external_body]
fn peel(v: serde_json::Value) -> (r: Shallow)
    ensures
        r.tree() == value_tree(v),
{
    match v {
        serde_json::Value::Null => Shallow::Null,
        serde_json::Value::Bool(b) => Shallow::Bool(b),
        serde_json::Value::Number(_) => Shallow::Number,
        serde_json::Value::String(s) => Shallow::String(s),
        serde_json::Value::Array(items) => Shallow::Array(items),
        serde_json::Value::Object(members) => Shallow::Object(members.into_iter().collect()),
    }
}

/// Rebuilds a parsed value as a [`Json`] tree.
fn json_of_value(v: serde_json::Value) -> (j: Json)
    ensures
        j@ == value_tree(v),
    decreases value_tree(v),
{
    match peel(v) {
        Shallow::Null => Json::Null,
        Shallow::Bool(b) => Json::Bool(b),
        Shallow::Number => Json::Number,
        Shallow::String(s) => Json::String(s),
        Shallow::Array(items) => {
            let ghost all = items@;
            let mut out: Vec<Json> = Vec::new();
            for item in it: items
                invariant
                    it.seq() == all,
                    value_tree(v) == JsonView::Array(value_trees(all)),
                    out@.len() == it.index(),
                    forall|k: int| 0 <= k < out@.len() ==> (#[trigger] out@[k])@ == value_tree(all[k]),
            {
                proof {
                    let trees = value_trees(all);
                    assert(decreases_to!(value_tree(v) => value_tree(v)->Array_0));
                    assert(decreases_to!(trees => trees[it.index()]));
                }
                out.push(json_of_value(item));
            }
            proof {
                lemma_array_view(out);
                assert(items_view(out@) =~= value_trees(all));
            }
            Json::Array(out)
        },
        Shallow::Object(members) => {
            let ghost all = members@;
            let mut out: Vec<(String, Json)> = Vec::new();
            for member in it: members
                invariant
                    it.seq() == all,
                    value_tree(v) == JsonView::Object(member_trees(all)),
                    out@.len() == it.index(),
                    forall|k: int|
                        0 <= k < out@.len() ==> {
                            &&& (#[trigger] out@[k]).0@ == all[k].0@
                            &&& out@[k].1@ == value_tree(all[k].1)
                        },
            {
                proof {
                    let trees = member_trees(all);
                    assert(decreases_to!(value_tree(v) => value_tree(v)->Object_0));
                    assert(decreases_to!(trees[it.index()] => trees[it.index()].1));
                }
                let (key, value) = member;
                out.push((key, json_of_value(value)));
            }
            let object = JsonObject { members: out };
            proof {
                lemma_object_view(object);
                assert(object@ =~= member_trees(all));
            }
            Json::Object(object)
        },
    }
}

/// Parses a JSON text. `None` where the text is not JSON.
pub fn parse_json(text: &str) -> (r: Option<Json>)
    ensures
        r.deep_view() == parsed_json(text@),
{
    match parse_value(text) {
        Some(v) => Some(json_of_value(v)),
        None => None,
    }
}

} // verus!
