//! The JSON-LD names that the recipe rules look for.

use vstd::prelude::*;

verus! {

/// Keys of the JSON-LD fields used in the recipe schema.
pub struct LdFields;

impl LdFields {
    pub const TYPE: &'static str = "@type";
    pub const NAME: &'static str = "name";
    pub const TEXT: &'static str = "text";
    pub const AUTHOR: &'static str = "author";
    pub const DESCRIPTION: &'static str = "description";
    pub const RECIPE_INGREDIENT: &'static str = "recipeIngredient";
    pub const RECIPE_INSTRUCTIONS: &'static str = "recipeInstructions";
    pub const ITEM_LIST_ELEMENT: &'static str = "itemListElement";
}

/// The CSS selector of the script elements that carry JSON-LD.
pub const JSON_LD_SELECTOR: &'static str = "script[type=\"application/ld+json\"]";

/// The longest document, in bytes, that is handed to the HTML parser.
///
/// The parser keeps each text of a document in a buffer whose length is a
/// `u32` and whose capacity grows to the next power of two; beyond that it
/// panics. A text can leave the tokenizer three times as long as it entered
/// (a replacement character of three bytes for one byte). With this limit
/// every such text stays far below 2^31 bytes.
pub const MAX_DOCUMENT_BYTES: usize = 0x1000_0000;

/// The type tag of a recipe node.
pub const RECIPE_TYPE: &'static str = "Recipe";

/// The type tag of a named group of steps.
pub const HOW_TO_SECTION_TYPE: &'static str = "HowToSection";

/// What stands between the names of two authors.
pub const AUTHOR_SEPARATOR: &'static str = ", ";

/// The line that opens and closes the properties of a markdown document.
pub const PROPERTY_MARKER: &'static str = "---";

/// The heading of the ingredients, unless another is chosen.
pub const INGREDIENT_SECTION_NAME: &'static str = "Ingredients";

/// The title of a recipe without a name, unless another is chosen.
pub const DEFAULT_RECIPE_NAME: &'static str = "Recipe";

/// The heading of a section without a name, unless another is chosen.
pub const DEFAULT_SECTION_NAME: &'static str = "Instructions";

} // verus!
