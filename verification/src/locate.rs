//! Finding the recipe object: a depth-first search, parents before children,
//! through each JSON text in turn. The first object that is typed as a recipe
//! is the result.

use vstd::prelude::*;
use crate::constants::{LdFields, RECIPE_TYPE};
use crate::decode::{parse_json, parsed_json};
use crate::json::{
    items_view, lemma_array_view, lemma_object_view, lookup, members_view, Json, JsonObject,
    JsonView, ObjectView,
};
use crate::text::texts;

verus! {

/// Whether an object is typed as a recipe: its type tag is the text "Recipe",
/// or an array with that text among its items.
pub open spec fn typed_as_recipe(members: ObjectView) -> bool {
    match lookup(members, LdFields::TYPE@) {
        Some(JsonView::String(tag)) => tag == RECIPE_TYPE@,
        Some(JsonView::Array(tags)) => tags.contains(JsonView::String(RECIPE_TYPE@)),
        _ => false,
    }
}

/// The first recipe object in `v`: `v` itself, or else the first one in its
/// items or in the values of its members, each searched in the same way.
pub open spec fn first_recipe(v: JsonView) -> Option<ObjectView>
    decreases v,
{
    match v {
        JsonView::Object(members) => if typed_as_recipe(members) {
            Some(members)
        } else {
            first_recipe_in_members(members)
        },
        JsonView::Array(items) => first_recipe_in_items(items),
        _ => None,
    }
}

/// The first recipe object in the first of `items` that holds one.
pub open spec fn first_recipe_in_items(items: Seq<JsonView>) -> Option<ObjectView>
    decreases items,
{
    if items.len() == 0 {
        None
    } else {
        match first_recipe(items[0]) {
            Some(found) => Some(found),
            None => first_recipe_in_items(items.drop_first()),
        }
    }
}

/// The first recipe object in the first value of `members` that holds one.
pub open spec fn first_recipe_in_members(members: ObjectView) -> Option<ObjectView>
    decreases members,
{
    if members.len() == 0 {
        None
    } else {
        match first_recipe(members[0].1) {
            Some(found) => Some(found),
            None => first_recipe_in_members(members.drop_first()),
        }
    }
}

/// Verifies that the object is typed as a recipe.
pub fn is_recipe_type(object: &JsonObject) -> (r: bool)
    ensures
        r == typed_as_recipe(object@),
{
    match object.get(LdFields::TYPE) {
        Some(Json::String(tag)) => {
            let wanted = RECIPE_TYPE.to_owned();
            *tag == wanted
        },
        Some(Json::Array(tags)) => {
            proof {
                lemma_array_view(*tags);
            }
            let wanted = RECIPE_TYPE.to_owned();
            let mut i: usize = 0;
            while i < tags.len()
                invariant
                    i <= tags@.len(),
                    wanted@ == RECIPE_TYPE@,
                    lookup(object@, LdFields::TYPE@) == Some(JsonView::Array(items_view(tags@))),
                    forall|k: int|
                        0 <= k < i ==> #[trigger] items_view(tags@)[k] != JsonView::String(
                            RECIPE_TYPE@,
                        ),
                decreases tags@.len() - i,
            {
                match &tags[i] {
                    Json::String(tag) => {
                        if *tag == wanted {
                            assert(items_view(tags@)[i as int] == JsonView::String(RECIPE_TYPE@));
                            return true;
                        }
                    },
                    _ => {},
                }
                i += 1;
            }
            false
        },
        _ => false,
    }
}

/// Tries to find a recipe in `value`, searching it depth first.
pub fn find_recipe_in_value(value: Json) -> (r: Option<JsonObject>)
    ensures
        r.deep_view() == first_recipe(value@),
    decreases value@,
{
    match value {
        Json::Object(object) => {
            proof {
                lemma_object_view(object);
            }
            if is_recipe_type(&object) {
                return Some(object);
            }
            let ghost all = members_view(object.members@);
            assert(all.skip(0) =~= all);
            for member in it: object.members
                invariant
                    all == members_view(it.seq()),
                    value@ == JsonView::Object(all),
                    !typed_as_recipe(all),
                    first_recipe_in_members(all) == first_recipe_in_members(all.skip(it.index())),
            {
                assert(all.skip(it.index()).drop_first() =~= all.skip(it.index() + 1));
                match find_recipe_in_value(member.1) {
                    Some(found) => {
                        return Some(found);
                    },
                    None => {},
                }
            }
            None
        },
        Json::Array(items) => {
            proof {
                lemma_array_view(items);
            }
            let ghost all = items_view(items@);
            assert(all.skip(0) =~= all);
            for item in it: items
                invariant
                    all == items_view(it.seq()),
                    value@ == JsonView::Array(all),
                    first_recipe_in_items(all) == first_recipe_in_items(all.skip(it.index())),
            {
                assert(all.skip(it.index()).drop_first() =~= all.skip(it.index() + 1));
                match find_recipe_in_value(item) {
                    Some(found) => {
                        return Some(found);
                    },
                    None => {},
                }
            }
            None
        },
        _ => None,
    }
}

/// The first recipe object in a text: none where the text is not JSON.
pub open spec fn recipe_in_text(text: Seq<char>) -> Option<ObjectView> {
    match parsed_json(text) {
        Some(tree) => first_recipe(tree),
        None => None,
    }
}

/// The first recipe object in the first of `candidates` that holds one.
pub open spec fn first_recipe_in_texts(candidates: Seq<Seq<char>>) -> Option<ObjectView>
    decreases candidates.len(),
{
    if candidates.len() == 0 {
        None
    } else {
        match recipe_in_text(candidates[0]) {
            Some(found) => Some(found),
            None => first_recipe_in_texts(candidates.drop_first()),
        }
    }
}

/// Looks for a recipe in each of the candidate texts in turn, and stops at
/// the first that holds one. A text that is not JSON is passed over.
pub fn find_recipe(candidate_texts: &Vec<String>) -> (r: Option<JsonObject>)
    ensures
        r.deep_view() == first_recipe_in_texts(texts(candidate_texts@)),
{
    let ghost all = texts(candidate_texts@);
    assert(all.skip(0) =~= all);
    let mut i: usize = 0;
    while i < candidate_texts.len()
        invariant
            i <= candidate_texts@.len(),
            all == texts(candidate_texts@),
            first_recipe_in_texts(all) == first_recipe_in_texts(all.skip(i as int)),
        decreases candidate_texts@.len() - i,
    {
        assert(all.skip(i as int).drop_first() =~= all.skip(i + 1));
        match parse_json(candidate_texts[i].as_str()) {
            Some(value) => match find_recipe_in_value(value) {
                Some(found) => {
                    return Some(found);
                },
                None => {},
            },
            None => {},
        }
        i += 1;
    }
    None
}

/// Whether some object in `v`, at any depth, is typed as a recipe.
pub open spec fn contains_recipe(v: JsonView) -> bool
    decreases v,
{
    match v {
        JsonView::Object(members) => typed_as_recipe(members) || exists|i: int|
            0 <= i < members.len() && contains_recipe(#[trigger] members[i].1),
        JsonView::Array(items) => exists|i: int|
            0 <= i < items.len() && contains_recipe(#[trigger] items[i]),
        _ => false,
    }
}

/// Whether `node` is `v` or lies in `v`, at any depth.
pub open spec fn occurs_in(node: JsonView, v: JsonView) -> bool
    decreases v,
{
    node == v || match v {
        JsonView::Object(members) => exists|i: int|
            0 <= i < members.len() && occurs_in(node, #[trigger] members[i].1),
        JsonView::Array(items) => exists|i: int|
            0 <= i < items.len() && occurs_in(node, #[trigger] items[i]),
        _ => false,
    }
}

/// The search is exhaustive and sound: it finds a recipe exactly where some
/// object of the tree is typed as a recipe, and what it finds is such an
/// object of the tree.
pub proof fn lemma_search_is_exhaustive(v: JsonView)
    ensures
        first_recipe(v) is Some <==> contains_recipe(v),
        first_recipe(v) matches Some(found) ==> typed_as_recipe(found) && occurs_in(
            JsonView::Object(found),
            v,
        ),
    decreases v,
{
    match v {
        JsonView::Object(members) => {
            if !typed_as_recipe(members) {
                lemma_search_in_members(members);
            }
        },
        JsonView::Array(items) => {
            lemma_search_in_items(items);
        },
        _ => {},
    }
}

/// [`lemma_search_is_exhaustive`], for the items of an array.
proof fn lemma_search_in_items(items: Seq<JsonView>)
    ensures
        first_recipe_in_items(items) is Some <==> exists|i: int|
            0 <= i < items.len() && contains_recipe(#[trigger] items[i]),
        first_recipe_in_items(items) matches Some(found) ==> typed_as_recipe(found) && exists|
            i: int,
        |
            0 <= i < items.len() && occurs_in(JsonView::Object(found), #[trigger] items[i]),
    decreases items,
{
    if items.len() > 0 {
        let rest = items.drop_first();
        lemma_search_is_exhaustive(items[0]);
        lemma_search_in_items(rest);
        assert forall|i: int| 0 <= i < rest.len() implies #[trigger] rest[i] == items[i + 1] by {}
        if first_recipe(items[0]) is None && exists|i: int|
            0 <= i < items.len() && contains_recipe(#[trigger] items[i]) {
            let i = choose|i: int| 0 <= i < items.len() && contains_recipe(#[trigger] items[i]);
            assert(contains_recipe(rest[i - 1]));
        }
    }
}

/// [`lemma_search_is_exhaustive`], for the members of an object.
proof fn lemma_search_in_members(members: ObjectView)
    ensures
        first_recipe_in_members(members) is Some <==> exists|i: int|
            0 <= i < members.len() && contains_recipe(#[trigger] members[i].1),
        first_recipe_in_members(members) matches Some(found) ==> typed_as_recipe(found)
            && exists|i: int|
            0 <= i < members.len() && occurs_in(JsonView::Object(found), #[trigger] members[i].1),
    decreases members,
{
    if members.len() > 0 {
        let rest = members.drop_first();
        lemma_search_is_exhaustive(members[0].1);
        lemma_search_in_members(rest);
        assert forall|i: int| 0 <= i < rest.len() implies #[trigger] rest[i] == members[i + 1] by {}
        if first_recipe(members[0].1) is None && exists|i: int|
            0 <= i < members.len() && contains_recipe(#[trigger] members[i].1) {
            let i = choose|i: int|
                0 <= i < members.len() && contains_recipe(#[trigger] members[i].1);
            assert(contains_recipe(rest[i - 1].1));
        }
    }
}

/// A recipe is found in the candidate texts exactly where one of them holds
/// one: where no text is JSON with an object typed as a recipe in it, there
/// is no result.
pub proof fn lemma_found_iff_some_text_matches(candidates: Seq<Seq<char>>)
    ensures
        first_recipe_in_texts(candidates) is Some <==> exists|i: int|
            0 <= i < candidates.len() && recipe_in_text(#[trigger] candidates[i]) is Some,
    decreases candidates.len(),
{
    if candidates.len() > 0 {
        let rest = candidates.drop_first();
        lemma_found_iff_some_text_matches(rest);
        assert forall|i: int| 0 <= i < rest.len() implies #[trigger] rest[i] == candidates[i
            + 1] by {}
        if recipe_in_text(candidates[0]) is None && exists|i: int|
            0 <= i < candidates.len() && recipe_in_text(#[trigger] candidates[i]) is Some {
            let i = choose|i: int|
                0 <= i < candidates.len() && recipe_in_text(#[trigger] candidates[i]) is Some;
            assert(recipe_in_text(rest[i - 1]) is Some);
        }
    }
}

/// The first text that holds a recipe decides: where the text at `first`
/// holds one and no text before it does, the result is the recipe of that
/// text, whatever the texts after it hold.
pub proof fn lemma_first_match_wins(candidates: Seq<Seq<char>>, first: int)
    requires
        0 <= first < candidates.len(),
        recipe_in_text(candidates[first]) is Some,
        forall|i: int| 0 <= i < first ==> recipe_in_text(#[trigger] candidates[i]) is None,
    ensures
        first_recipe_in_texts(candidates) == recipe_in_text(candidates[first]),
    decreases candidates.len(),
{
    if first > 0 {
        let rest = candidates.drop_first();
        assert forall|i: int| 0 <= i < rest.len() implies #[trigger] rest[i] == candidates[i
            + 1] by {}
        lemma_first_match_wins(rest, first - 1);
    }
}

} // verus!
