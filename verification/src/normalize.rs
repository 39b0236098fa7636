//! From a located recipe object to a [`Recipe`]: one rule for each field,
//! whatever shape the field has.

use vstd::prelude::*;
use crate::constants::{LdFields, AUTHOR_SEPARATOR, HOW_TO_SECTION_TYPE};
use crate::json::{
    items_view, lemma_array_view, lemma_object_view, lookup, strings_in, text_field, Json,
    JsonObject, JsonView, ObjectView,
};
use crate::model::{
    sections_view, HowToSection, HowToStep, Ingredient, Recipe, RecipeView, SectionView,
};
use crate::text::{join, joined, texts, trim, trimmed};

verus! {

/// Whether `v` is an object whose type tag is the text "HowToSection".
pub open spec fn is_how_to_section(v: JsonView) -> bool {
    v matches JsonView::Object(members) && lookup(members, LdFields::TYPE@) == Some(
        JsonView::String(HOW_TO_SECTION_TYPE@),
    )
}

/// The steps that a value holds: a string is one step, an object is one step
/// where its `text` is a string, an array holds the steps of its items.
/// Each step is trimmed.
pub open spec fn steps_of(v: JsonView) -> Seq<Seq<char>>
    decreases v,
{
    match v {
        JsonView::Array(items) => steps_of_all(items),
        JsonView::String(text) => seq![trimmed(text)],
        JsonView::Object(members) => match text_field(members, LdFields::TEXT@) {
            Some(text) => seq![trimmed(text)],
            None => Seq::empty(),
        },
        _ => Seq::empty(),
    }
}

/// The steps of each of `items`, one after the other.
pub open spec fn steps_of_all(items: Seq<JsonView>) -> Seq<Seq<char>>
    decreases items,
{
    if items.len() == 0 {
        Seq::empty()
    } else {
        steps_of_all(items.drop_last()) + steps_of(items.last())
    }
}

/// The section that an object describes: its `name` where that is a string,
/// and the steps of its `itemListElement`, or of the object itself where it
/// has no such member.
pub open spec fn section_of_object(members: ObjectView) -> SectionView {
    SectionView {
        name: text_field(members, LdFields::NAME@),
        steps: match lookup(members, LdFields::ITEM_LIST_ELEMENT@) {
            Some(list) => steps_of(list),
            None => steps_of(JsonView::Object(members)),
        },
    }
}

/// The section that a value describes: only an object describes one.
pub open spec fn section_of(v: JsonView) -> Option<SectionView> {
    match v {
        JsonView::Object(members) => Some(section_of_object(members)),
        _ => None,
    }
}

/// The sections that the objects among `items` describe, in order.
pub open spec fn sections_in(items: Seq<JsonView>) -> Seq<SectionView>
    decreases items.len(),
{
    if items.len() == 0 {
        Seq::empty()
    } else {
        match section_of(items.last()) {
            Some(section) => sections_in(items.drop_last()).push(section),
            None => sections_in(items.drop_last()),
        }
    }
}

/// Whether one of `items` is a HowToSection object.
pub open spec fn has_section(items: Seq<JsonView>) -> bool {
    exists|i: int| 0 <= i < items.len() && is_how_to_section(#[trigger] items[i])
}

/// The sections of a recipe's instructions. An array with a HowToSection
/// object among its items is a list of sections; a HowToSection object is
/// one section; anything else is one section without a name that holds the
/// steps of the value.
pub open spec fn sections_of(v: JsonView) -> Seq<SectionView> {
    if v is Array && has_section(v->Array_0) {
        sections_in(v->Array_0)
    } else if is_how_to_section(v) {
        seq![section_of_object(v->Object_0)]
    } else {
        seq![SectionView { name: None, steps: steps_of(v) }]
    }
}

/// The author that a value names: a string names itself, an object names its
/// `name` where that is a string, an array names what its items name, joined
/// by ", ", where it names anything.
pub open spec fn author_of(v: JsonView) -> Option<Seq<char>>
    decreases v,
{
    match v {
        JsonView::String(name) => Some(name),
        JsonView::Object(members) => text_field(members, LdFields::NAME@),
        JsonView::Array(items) => {
            let names = author_names(items);
            if names.len() == 0 {
                None
            } else {
                Some(joined(names, AUTHOR_SEPARATOR@))
            }
        },
        _ => None,
    }
}

/// The authors that `items` name, in order; an item that names none is left
/// out.
pub open spec fn author_names(items: Seq<JsonView>) -> Seq<Seq<char>>
    decreases items,
{
    if items.len() == 0 {
        Seq::empty()
    } else {
        match author_of(items.last()) {
            Some(name) => author_names(items.drop_last()).push(name),
            None => author_names(items.drop_last()),
        }
    }
}

/// The ingredients that a value lists: the strings of an array, or the one
/// string.
pub open spec fn ingredients_of(v: JsonView) -> Seq<Seq<char>> {
    match v {
        JsonView::Array(items) => strings_in(items),
        JsonView::String(text) => seq![text],
        _ => Seq::empty(),
    }
}

/// The recipe that an object describes. Each field is read by its own rule;
/// a member that is missing leaves its field empty.
pub open spec fn recipe_of(members: ObjectView) -> RecipeView {
    RecipeView {
        name: text_field(members, LdFields::NAME@),
        author: match lookup(members, LdFields::AUTHOR@) {
            Some(v) => author_of(v),
            None => None,
        },
        description: text_field(members, LdFields::DESCRIPTION@),
        ingredients: match lookup(members, LdFields::RECIPE_INGREDIENT@) {
            Some(v) => ingredients_of(v),
            None => Seq::empty(),
        },
        how_to_sections: match lookup(members, LdFields::RECIPE_INSTRUCTIONS@) {
            Some(v) => sections_of(v),
            None => Seq::empty(),
        },
    }
}

/// Determines if the value is a HowToSection object.
pub fn is_how_to_section_obj(value: &Json) -> (r: bool)
    ensures
        r == is_how_to_section(value@),
{
    match value {
        Json::Object(object) => {
            proof {
                lemma_object_view(*object);
            }
            match object.get(LdFields::TYPE) {
                Some(Json::String(tag)) => {
                    let wanted = HOW_TO_SECTION_TYPE.to_owned();
                    *tag == wanted
                },
                _ => false,
            }
        },
        _ => false,
    }
}

/// Extracts the steps of a value.
pub fn extract_step(value: &Json) -> (r: Vec<HowToStep>)
    ensures
        texts(r@) == steps_of(value@),
    decreases value,
{
    match value {
        Json::Array(items) => {
            let mut steps: Vec<HowToStep> = Vec::new();
            let mut i: usize = 0;
            proof {
                lemma_array_view(*items);
            }
            while i < items.len()
                invariant
                    i <= items@.len(),
                    value == Json::Array(*items),
                    texts(steps@) == steps_of_all(items_view(items@).take(i as int)),
                decreases items@.len() - i,
            {
                proof {
                    let views = items_view(items@);
                    assert(views.take(i + 1).drop_last() =~= views.take(i as int));
                    assert(decreases_to!(value => value->Array_0));
                }
                let mut more = extract_step(&items[i]);
                steps.append(&mut more);
                i += 1;
            }
            proof {
                assert(items_view(items@).take(items@.len() as int) =~= items_view(items@));
            }
            steps
        },
        Json::String(text) => vec![trim(text.as_str()).to_owned()],
        Json::Object(object) => {
            proof {
                lemma_object_view(*object);
            }
            match object.get(LdFields::TEXT) {
                Some(Json::String(text)) => vec![trim(text.as_str()).to_owned()],
                _ => Vec::new(),
            }
        },
        _ => Vec::new(),
    }
}

/// The text of the member `key` of `object`, where it is a string.
fn text_member(object: &JsonObject, key: &str) -> (r: Option<String>)
    ensures
        r.deep_view() == text_field(object@, key@),
{
    match object.get(key) {
        Some(Json::String(text)) => Some(text.clone()),
        _ => None,
    }
}

/// Extracts a [`HowToSection`]: `None` where the value is no object.
pub fn extract_section(value: &Json) -> (r: Option<HowToSection>)
    ensures
        r.deep_view() == section_of(value@),
{
    match value {
        Json::Object(object) => {
            proof {
                lemma_object_view(*object);
            }
            let name = text_member(object, LdFields::NAME);
            let steps = match object.get(LdFields::ITEM_LIST_ELEMENT) {
                Some(list) => extract_step(list),
                None => extract_step(value),
            };
            Some(HowToSection { name, steps })
        },
        _ => None,
    }
}

/// Whether one of `items` is a HowToSection object.
fn any_how_to_section(items: &Vec<Json>) -> (r: bool)
    ensures
        r == has_section(items_view(items@)),
{
    let mut i: usize = 0;
    while i < items.len()
        invariant
            i <= items@.len(),
            forall|k: int| 0 <= k < i ==> !is_how_to_section(#[trigger] items_view(items@)[k]),
        decreases items@.len() - i,
    {
        if is_how_to_section_obj(&items[i]) {
            assert(is_how_to_section(items_view(items@)[i as int]));
            return true;
        }
        i += 1;
    }
    false
}

/// The sections that the objects among `items` describe.
fn extract_sections(items: &Vec<Json>) -> (r: Vec<HowToSection>)
    ensures
        sections_view(r@) == sections_in(items_view(items@)),
{
    let mut sections: Vec<HowToSection> = Vec::new();
    let mut i: usize = 0;
    while i < items.len()
        invariant
            i <= items@.len(),
            sections_view(sections@) == sections_in(items_view(items@).take(i as int)),
        decreases items@.len() - i,
    {
        proof {
            let views = items_view(items@);
            assert(views.take(i + 1).drop_last() =~= views.take(i as int));
        }
        match extract_section(&items[i]) {
            Some(section) => {
                sections.push(section);
            },
            None => {},
        }
        i += 1;
    }
    proof {
        assert(items_view(items@).take(items@.len() as int) =~= items_view(items@));
    }
    sections
}

/// Extracts the instructions.
///
/// It deals with:
///   - `"recipeInstructions": "step text"`
///   - `"recipeInstructions": [ "step1", "step2" ]`
///   - `"recipeInstructions": [ { "text": "step1" }, { "text": "step2" } ]`
///   - `"recipeInstructions": [ { "@type": "HowToSection", "name": "...", "itemListElement": [...] }, ... ]`
///
/// For HowToSection objects, each section holds its own steps. For arrays of
/// steps or plain text, the result is a single section with all the steps.
pub fn extract_instructions(value: &Json) -> (r: Vec<HowToSection>)
    ensures
        sections_view(r@) == sections_of(value@),
{
    match value {
        Json::Array(items) => {
            proof {
                lemma_array_view(*items);
            }
            if any_how_to_section(items) {
                extract_sections(items)
            } else {
                single_section(value)
            }
        },
        _ => {
            if is_how_to_section_obj(value) {
                match extract_section(value) {
                    Some(section) => vec![section],
                    None => Vec::new(),
                }
            } else {
                single_section(value)
            }
        },
    }
}

/// One section without a name that holds the steps of `value`.
fn single_section(value: &Json) -> (r: Vec<HowToSection>)
    ensures
        sections_view(r@) == seq![SectionView { name: None, steps: steps_of(value@) }],
{
    vec![HowToSection { name: None, steps: extract_step(value) }]
}

/// Extracts the author.
///
/// It deals with:
///   - `"author": "first last"`
///   - `"author": { "name": "first last" }`
///   - `"author": [ "first last", "first last" ]`
///   - `"author": [ { "name": "first last" }, { "name": "first last" } ]`
///
/// An array of authors comes back as one string, the names separated by ", ".
pub fn extract_author(value: &Json) -> (r: Option<String>)
    ensures
        r.deep_view() == author_of(value@),
    decreases value,
{
    match value {
        Json::String(name) => Some(name.clone()),
        Json::Object(object) => {
            proof {
                lemma_object_view(*object);
            }
            text_member(object, LdFields::NAME)
        },
        Json::Array(items) => {
            proof {
                lemma_array_view(*items);
            }
            let mut names: Vec<String> = Vec::new();
            let mut i: usize = 0;
            while i < items.len()
                invariant
                    i <= items@.len(),
                    value == Json::Array(*items),
                    texts(names@) == author_names(items_view(items@).take(i as int)),
                decreases items@.len() - i,
            {
                proof {
                    let views = items_view(items@);
                    assert(views.take(i + 1).drop_last() =~= views.take(i as int));
                    assert(decreases_to!(value => value->Array_0));
                }
                match extract_author(&items[i]) {
                    Some(name) => {
                        names.push(name);
                    },
                    None => {},
                }
                i += 1;
            }
            proof {
                assert(items_view(items@).take(items@.len() as int) =~= items_view(items@));
            }
            if names.len() == 0 {
                None
            } else {
                Some(join(&names, AUTHOR_SEPARATOR))
            }
        },
        _ => None,
    }
}

/// Extracts the ingredients.
///
/// It deals with:
///   - `"recipeIngredient": "ingredient"`
///   - `"recipeIngredient": [ "ingredient1", "ingredient2" ]`
pub fn extract_ingredients(value: &Json) -> (r: Vec<Ingredient>)
    ensures
        texts(r@) == ingredients_of(value@),
{
    match value {
        Json::Array(items) => {
            proof {
                lemma_array_view(*items);
            }
            let mut ingredients: Vec<Ingredient> = Vec::new();
            let mut i: usize = 0;
            while i < items.len()
                invariant
                    i <= items@.len(),
                    texts(ingredients@) == strings_in(items_view(items@).take(i as int)),
                decreases items@.len() - i,
            {
                proof {
                    let views = items_view(items@);
                    assert(views.take(i + 1).drop_last() =~= views.take(i as int));
                }
                match &items[i] {
                    Json::String(text) => {
                        ingredients.push(text.clone());
                    },
                    _ => {},
                }
                i += 1;
            }
            proof {
                assert(items_view(items@).take(items@.len() as int) =~= items_view(items@));
            }
            ingredients
        },
        Json::String(text) => vec![text.clone()],
        _ => Vec::new(),
    }
}

/// Builds the [`Recipe`] that a recipe object describes. Never fails: a
/// member that is missing or has an unexpected shape leaves its field empty,
/// and the other fields are not affected.
pub fn extract_recipe(json: &JsonObject) -> (r: Recipe)
    ensures
        r@ == recipe_of(json@),
{
    let name = text_member(json, LdFields::NAME);
    let author = match json.get(LdFields::AUTHOR) {
        Some(value) => extract_author(value),
        None => None,
    };
    let description = text_member(json, LdFields::DESCRIPTION);
    let ingredients = match json.get(LdFields::RECIPE_INGREDIENT) {
        Some(value) => extract_ingredients(value),
        None => {
            let none: Vec<Ingredient> = Vec::new();
            assert(texts(none@) =~= Seq::empty());
            none
        },
    };
    let how_to_sections = match json.get(LdFields::RECIPE_INSTRUCTIONS) {
        Some(value) => extract_instructions(value),
        None => {
            let none: Vec<HowToSection> = Vec::new();
            assert(sections_view(none@) =~= Seq::empty());
            none
        },
    };
    Recipe { name, author, description, ingredients, how_to_sections }
}

/// Instructions that are not given as sections make exactly one section:
/// it has no name and holds all their steps, in order.
pub proof fn lemma_instructions_without_sections(v: JsonView)
    requires
        !(v is Array && has_section(v->Array_0)),
        !is_how_to_section(v),
    ensures
        sections_of(v) == seq![SectionView { name: None, steps: steps_of(v) }],
{
}

} // verus!
