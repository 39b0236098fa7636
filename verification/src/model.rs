//! The recipe that extraction produces.

use vstd::prelude::*;
use crate::text::texts;

verus! {

/// A single ingredient used in a recipe.
pub type Ingredient = String;

/// A single how-to-step of a recipe.
pub type HowToStep = String;

/// A collection of [how-to-steps](HowToStep) with an optional name.
#[derive(Debug, Clone, PartialEq, Eq)]
pub struct HowToSection {
    /// The name of the section, if available.
    pub name: Option<String>,
    /// A list of steps in the section.
    pub steps: Vec<HowToStep>,
}

/// A recipe extracted from an HTML document.
#[derive(Debug, Clone, PartialEq, Eq)]
pub struct Recipe {
    /// The name of the recipe.
    pub name: Option<String>,
    /// The author of the recipe.
    ///
    /// If the recipe specifies multiple authors, they are joined into a single
    /// string (e.g. "Author One, Author Two").
    pub author: Option<String>,
    /// The description of the recipe.
    pub description: Option<String>,
    /// A list of ingredients used by the recipe.
    pub ingredients: Vec<Ingredient>,
    /// A list of [how-to-sections](HowToSection) for the recipe.
    ///
    /// If the recipe does not use [how-to-sections](HowToSection) this
    /// contains a single section without a name.
    pub how_to_sections: Vec<HowToSection>,
}

/// What a [`HowToSection`] stands for.
pub struct SectionView {
    pub name: Option<Seq<char>>,
    pub steps: Seq<Seq<char>>,
}

/// What a [`Recipe`] stands for.
pub struct RecipeView {
    pub name: Option<Seq<char>>,
    pub author: Option<Seq<char>>,
    pub description: Option<Seq<char>>,
    pub ingredients: Seq<Seq<char>>,
    pub how_to_sections: Seq<SectionView>,
}

/// The views of a sequence of sections.
pub open spec fn sections_view(sections: Seq<HowToSection>) -> Seq<SectionView> {
    sections.map_values(|section: HowToSection| section@)
}

impl View for HowToSection {
    type V = SectionView;

    open spec fn view(&self) -> SectionView {
        SectionView { name: self.name.deep_view(), steps: texts(self.steps@) }
    }
}

impl DeepView for HowToSection {
    type V = SectionView;

    open spec fn deep_view(&self) -> SectionView {
        self@
    }
}

impl View for Recipe {
    type V = RecipeView;

    open spec fn view(&self) -> RecipeView {
        RecipeView {
            name: self.name.deep_view(),
            author: self.author.deep_view(),
            description: self.description.deep_view(),
            ingredients: texts(self.ingredients@),
            how_to_sections: sections_view(self.how_to_sections@),
        }
    }
}

impl DeepView for Recipe {
    type V = RecipeView;

    open spec fn deep_view(&self) -> RecipeView {
        self@
    }
}

impl RecipeView {
    /// The recipe of which nothing is known.
    pub open spec fn empty() -> RecipeView {
        RecipeView {
            name: None,
            author: None,
            description: None,
            ingredients: Seq::empty(),
            how_to_sections: Seq::empty(),
        }
    }
}

impl Default for HowToSection {
    fn default() -> (section: HowToSection)
        ensures
            section@ == (SectionView { name: None, steps: Seq::empty() }),
    {
        let section = HowToSection { name: None, steps: Vec::new() };
        assert(section@.steps =~= Seq::empty());
        section
    }
}

impl Default for Recipe {
    fn default() -> (recipe: Recipe)
        ensures
            recipe@ == RecipeView::empty(),
    {
        let recipe = Recipe {
            name: None,
            author: None,
            description: None,
            ingredients: Vec::new(),
            how_to_sections: Vec::new(),
        };
        assert(recipe@.ingredients =~= Seq::empty());
        assert(recipe@.how_to_sections =~= Seq::empty());
        recipe
    }
}

} // verus!
