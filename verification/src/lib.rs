//! # Recipe extraction from HTML documents
//!
//! [`parse_recipe`] extracts a [`Recipe`] from an HTML document, using the
//! structured data (JSON-LD) embedded in it. The document is expected to
//! follow the [schema.org recipe vocabulary](https://schema.org/Recipe).
//!
//! ## Example
//!
//! ```
//! use reget::parse_recipe;
//!
//! let html = r#"
//! <!DOCTYPE html>
//! <html lang="en">
//! <script type="application/ld+json">
//! {
//!   "@type": "Recipe",
//!   "name": "Delicious Cookies",
//!   "author": "Lorem Ipsum",
//!   "recipeIngredient": ["2 cups flour", "1 cup sugar"],
//!   "recipeInstructions": "Mix ingredients and bake."
//! }
//! </script>
//! </html>
//! "#;
//!
//! let recipe = parse_recipe(html).unwrap();
//! assert_eq!(recipe.name.as_deref(), Some("Delicious Cookies"));
//! ```
//!
//! ## What is proved
//!
//! Every function states its result over the mathematical view of its
//! arguments, and Verus proves it. What comes from outside is believed, not
//! proved: what `scraper` selects from a document
//! ([`html::selected_texts`]), what `serde_json` makes of a text
//! ([`decode::parsed_json`]) and how its values are taken apart, and that
//! `str::trim` removes white space ([`text::trimmed`]). From there on the
//! search for the recipe object, the reading of its fields and the rendering
//! are proved.

pub mod constants;
pub mod decode;
pub mod html;
pub mod json;
pub mod locate;
pub mod markdown;
pub mod model;
pub mod normalize;
pub mod text;

pub use markdown::MarkdownBuilder;
pub use model::{HowToSection, HowToStep, Ingredient, Recipe};

use vstd::prelude::*;
use crate::constants::JSON_LD_SELECTOR;
use crate::decode::parsed_json;
use crate::html::{fits_parser, json_ld_texts, select_texts};
use crate::json::{JsonObject, ObjectView};
use crate::locate::{
    contains_recipe, find_recipe, first_recipe_in_texts, lemma_found_iff_some_text_matches,
    lemma_search_is_exhaustive, recipe_in_text,
};
use crate::model::RecipeView;
use crate::normalize::{extract_recipe, recipe_of};

verus! {

/// The recipe object of a document: the first one in its JSON-LD texts.
pub open spec fn recipe_object_in_document(html: Seq<char>) -> Option<ObjectView> {
    first_recipe_in_texts(json_ld_texts(html))
}

/// The recipe of a document: what its recipe object describes.
pub open spec fn recipe_in_document(html: Seq<char>) -> Option<RecipeView> {
    match recipe_object_in_document(html) {
        Some(object) => Some(recipe_of(object)),
        None => None,
    }
}

/// Looks through the JSON-LD script elements of the document for an object
/// that is typed as a recipe.
///
/// The document has at most [`constants::MAX_DOCUMENT_BYTES`] bytes: the
/// HTML parser cannot hold a longer one.
pub fn extract_recipe_json(html: &str) -> (r: Option<JsonObject>)
    requires
        fits_parser(html),
    ensures
        r.deep_view() == recipe_object_in_document(html@),
{
    match select_texts(html, JSON_LD_SELECTOR) {
        Some(candidates) => find_recipe(&candidates),
        None => None,
    }
}

/// Parses the [`Recipe`] from the given HTML document. Returns `None` if the
/// document holds no recipe.
///
/// Only the first recipe of the document is extracted.
///
/// The document has at most [`constants::MAX_DOCUMENT_BYTES`] bytes: the
/// HTML parser cannot hold a longer one. A caller tests
/// `html.as_bytes().len()` against that limit before the call.
pub fn parse_recipe(html: &str) -> (r: Option<Recipe>)
    requires
        fits_parser(html),
    ensures
        r.deep_view() == recipe_in_document(html@),
{
    match extract_recipe_json(html) {
        Some(json) => Some(extract_recipe(&json)),
        None => None,
    }
}

/// A document yields no recipe where it has no JSON-LD text, or where none
/// of its JSON-LD texts is JSON that holds an object typed as a recipe.
pub proof fn lemma_no_recipe_node_no_recipe(html: Seq<char>)
    requires
        forall|i: int|
            0 <= i < json_ld_texts(html).len() ==> match parsed_json(
                #[trigger] json_ld_texts(html)[i],
            ) {
                Some(tree) => !contains_recipe(tree),
                None => true,
            },
    ensures
        recipe_in_document(html) is None,
{
    let candidates = json_ld_texts(html);
    lemma_found_iff_some_text_matches(candidates);
    assert forall|i: int| 0 <= i < candidates.len() implies recipe_in_text(
        #[trigger] candidates[i],
    ) is None by {
        match parsed_json(candidates[i]) {
            Some(tree) => {
                lemma_search_is_exhaustive(tree);
            },
            None => {},
        }
    }
}

/// Extraction is a function of the object: two recipes extracted from
/// objects that stand for the same tree are equal, field by field.
pub proof fn lemma_extraction_is_a_function(
    first: JsonObject,
    second: JsonObject,
    a: Recipe,
    b: Recipe,
)
    requires
        first@ == second@,
        a@ == recipe_of(first@),
        b@ == recipe_of(second@),
    ensures
        a@.name == b@.name,
        a@.author == b@.author,
        a@.description == b@.description,
        a@.ingredients == b@.ingredients,
        a@.how_to_sections == b@.how_to_sections,
{
}

} // verus!
