//! Rendering a recipe as a markdown document.

use vstd::prelude::*;
use vstd::string::StringExecFns;
use crate::constants::{
    DEFAULT_RECIPE_NAME, DEFAULT_SECTION_NAME, INGREDIENT_SECTION_NAME, PROPERTY_MARKER,
};
use crate::model::{sections_view, HowToSection, Recipe, RecipeView, SectionView};
use crate::text::texts;

verus! {

/// A builder to convert the contents of a recipe to a markdown string.
///
/// The document starts with the url and the author, if there are any,
/// between two lines of `---`. Then come the name of the recipe as a level-1
/// heading, the description, the ingredients as a list under a level-2
/// heading, and each section under a level-2 heading of its own, each step a
/// paragraph.
pub struct MarkdownBuilder<'a> {
    /// The recipe that is being converted.
    recipe: &'a Recipe,
    /// The URL where the recipe stems from.
    url: Option<&'a str>,
    /// The name being used for the ingredient section.
    ingredient_section_name: &'a str,
    /// The name being used if the recipe does not have a name.
    default_recipe_name: &'a str,
    /// The name being used if a how-to-section does not have a name.
    default_section_name: &'a str,
}

/// What a [`MarkdownBuilder`] is set to.
pub struct MarkdownOptions {
    pub recipe: RecipeView,
    pub url: Option<Seq<char>>,
    pub ingredient_section_name: Seq<char>,
    pub default_recipe_name: Seq<char>,
    pub default_section_name: Seq<char>,
}

impl MarkdownOptions {
    /// The options that a builder starts with.
    pub open spec fn defaults(recipe: RecipeView) -> MarkdownOptions {
        MarkdownOptions {
            recipe,
            url: None,
            ingredient_section_name: INGREDIENT_SECTION_NAME@,
            default_recipe_name: DEFAULT_RECIPE_NAME@,
            default_section_name: DEFAULT_SECTION_NAME@,
        }
    }
}

/// `text` as a line of its own.
pub open spec fn line(text: Seq<char>) -> Seq<char> {
    text + "\n"@
}

/// `text`, or `default` where there is none.
pub open spec fn text_or(text: Option<Seq<char>>, default: Seq<char>) -> Seq<char> {
    match text {
        Some(text) => text,
        None => default,
    }
}

/// The properties at the head of the document: nothing where there is
/// neither a url nor an author.
pub open spec fn front_matter(url: Option<Seq<char>>, author: Option<Seq<char>>) -> Seq<char> {
    if url is None && author is None {
        Seq::empty()
    } else {
        line(PROPERTY_MARKER@) + (match url {
            Some(url) => line("url: "@ + url),
            None => Seq::empty(),
        }) + (match author {
            Some(author) => line("author: "@ + author),
            None => Seq::empty(),
        }) + line(PROPERTY_MARKER@) + line(Seq::empty())
    }
}

/// The level-1 heading.
pub open spec fn title(name: Option<Seq<char>>, default_name: Seq<char>) -> Seq<char> {
    line("# "@ + text_or(name, default_name))
}

/// The description as a paragraph: nothing where there is none.
pub open spec fn description_block(description: Option<Seq<char>>) -> Seq<char> {
    match description {
        Some(description) => line(Seq::empty()) + line(description),
        None => Seq::empty(),
    }
}

/// One bulleted line for each ingredient.
pub open spec fn ingredient_lines(ingredients: Seq<Seq<char>>) -> Seq<char>
    decreases ingredients.len(),
{
    if ingredients.len() == 0 {
        Seq::empty()
    } else {
        ingredient_lines(ingredients.drop_last()) + line("- "@ + ingredients.last())
    }
}

/// The ingredients under their heading: nothing where there are none.
pub open spec fn ingredients_block(ingredients: Seq<Seq<char>>, heading: Seq<char>) -> Seq<char> {
    if ingredients.len() == 0 {
        Seq::empty()
    } else {
        line(Seq::empty()) + line("## "@ + heading) + line(Seq::empty()) + ingredient_lines(
            ingredients,
        )
    }
}

/// Each step as a paragraph of its own.
pub open spec fn step_paragraphs(steps: Seq<Seq<char>>) -> Seq<char>
    decreases steps.len(),
{
    if steps.len() == 0 {
        Seq::empty()
    } else {
        step_paragraphs(steps.drop_last()) + line(Seq::empty()) + line(steps.last())
    }
}

/// A section: its heading, then its steps.
pub open spec fn section_block(section: SectionView, default_name: Seq<char>) -> Seq<char> {
    line(Seq::empty()) + line("## "@ + text_or(section.name, default_name)) + step_paragraphs(
        section.steps,
    )
}

/// The sections, one after the other.
pub open spec fn section_blocks(sections: Seq<SectionView>, default_name: Seq<char>) -> Seq<char>
    decreases sections.len(),
{
    if sections.len() == 0 {
        Seq::empty()
    } else {
        section_blocks(sections.drop_last(), default_name) + section_block(
            sections.last(),
            default_name,
        )
    }
}

/// The markdown document of a recipe under the given options.
pub open spec fn markdown_of(options: MarkdownOptions) -> Seq<char> {
    front_matter(options.url, options.recipe.author) + title(
        options.recipe.name,
        options.default_recipe_name,
    ) + description_block(options.recipe.description) + ingredients_block(
        options.recipe.ingredients,
        options.ingredient_section_name,
    ) + section_blocks(options.recipe.how_to_sections, options.default_section_name)
}

impl<'a> View for MarkdownBuilder<'a> {
    type V = MarkdownOptions;

    closed spec fn view(&self) -> MarkdownOptions {
        MarkdownOptions {
            recipe: self.recipe@,
            url: self.url.deep_view(),
            ingredient_section_name: self.ingredient_section_name@,
            default_recipe_name: self.default_recipe_name@,
            default_section_name: self.default_section_name@,
        }
    }
}

/// Writes `text` and ends the line.
fn put_line(out: &mut String, text: &str)
    ensures
        final(out)@ == old(out)@ + line(text@),
{
    out.append(text);
    out.append("\n");
}

/// Writes an empty line.
fn put_empty_line(out: &mut String)
    ensures
        final(out)@ == old(out)@ + line(Seq::empty()),
{
    put_line(out, "");
    assert(""@ =~= Seq::empty()) by {
        reveal_strlit("");
    }
}

/// Writes `prefix` and `text` as one line.
fn put_prefixed_line(out: &mut String, prefix: &str, text: &str)
    ensures
        final(out)@ == old(out)@ + line(prefix@ + text@),
{
    out.append(prefix);
    out.append(text);
    out.append("\n");
}

impl<'a> MarkdownBuilder<'a> {
    /// Constructs a new MarkdownBuilder for a [`Recipe`].
    pub fn from(recipe: &'a Recipe) -> (builder: Self)
        ensures
            builder@ == MarkdownOptions::defaults(recipe@),
    {
        MarkdownBuilder {
            recipe,
            url: None,
            ingredient_section_name: INGREDIENT_SECTION_NAME,
            default_recipe_name: DEFAULT_RECIPE_NAME,
            default_section_name: DEFAULT_SECTION_NAME,
        }
    }

    /// Adds a URL to be used when creating the markdown.
    pub fn with_url(self, url: &'a str) -> (builder: Self)
        ensures
            builder@ == (MarkdownOptions { url: Some(url@), ..self@ }),
    {
        MarkdownBuilder { url: Some(url), ..self }
    }

    /// Uses the name for the ingredient section, default is *Ingredients*.
    pub fn with_ingredient_section(self, name: &'a str) -> (builder: Self)
        ensures
            builder@ == (MarkdownOptions { ingredient_section_name: name@, ..self@ }),
    {
        MarkdownBuilder { ingredient_section_name: name, ..self }
    }

    /// Uses the name if the recipe does not have a name, default is *Recipe*.
    pub fn with_default_name(self, name: &'a str) -> (builder: Self)
        ensures
            builder@ == (MarkdownOptions { default_recipe_name: name@, ..self@ }),
    {
        MarkdownBuilder { default_recipe_name: name, ..self }
    }

    /// Uses the name for any section that does not have a name, default is
    /// *Instructions*.
    pub fn with_default_section(self, name: &'a str) -> (builder: Self)
        ensures
            builder@ == (MarkdownOptions { default_section_name: name@, ..self@ }),
    {
        MarkdownBuilder { default_section_name: name, ..self }
    }

    /// Performs the conversion.
    pub fn convert(self) -> (markdown: String)
        ensures
            markdown@ == markdown_of(self@),
    {
        let mut out = String::new();
        self.put_url_author(&mut out);
        self.put_name(&mut out);
        self.put_description(&mut out);
        self.put_ingredients(&mut out);
        self.put_sections(&mut out);
        out
    }

    /// Writes URL and author, if there are any.
    fn put_url_author(&self, out: &mut String)
        ensures
            final(out)@ == old(out)@ + front_matter(self@.url, self@.recipe.author),
    {
        if self.url.is_some() || self.recipe.author.is_some() {
            put_line(out, PROPERTY_MARKER);
            match self.url {
                Some(url) => {
                    put_prefixed_line(out, "url: ", url);
                },
                None => {},
            }
            match &self.recipe.author {
                Some(author) => {
                    put_prefixed_line(out, "author: ", author.as_str());
                },
                None => {},
            }
            put_line(out, PROPERTY_MARKER);
            put_empty_line(out);
        }
    }

    /// Writes the recipe name or the default name.
    fn put_name(&self, out: &mut String)
        ensures
            final(out)@ == old(out)@ + title(self@.recipe.name, self@.default_recipe_name),
    {
        match &self.recipe.name {
            Some(name) => put_prefixed_line(out, "# ", name.as_str()),
            None => put_prefixed_line(out, "# ", self.default_recipe_name),
        }
    }

    /// Writes the description, if there is one.
    fn put_description(&self, out: &mut String)
        ensures
            final(out)@ == old(out)@ + description_block(self@.recipe.description),
    {
        match &self.recipe.description {
            Some(description) => {
                put_empty_line(out);
                put_line(out, description.as_str());
            },
            None => {},
        }
    }

    /// Writes the ingredients section, if there are any ingredients.
    fn put_ingredients(&self, out: &mut String)
        ensures
            final(out)@ == old(out)@ + ingredients_block(
                self@.recipe.ingredients,
                self@.ingredient_section_name,
            ),
    {
        let ingredients = &self.recipe.ingredients;
        if ingredients.len() > 0 {
            put_empty_line(out);
            put_prefixed_line(out, "## ", self.ingredient_section_name);
            put_empty_line(out);
            let ghost head = out@;
            let mut i: usize = 0;
            while i < ingredients.len()
                invariant
                    i <= ingredients@.len(),
                    out@ == head + ingredient_lines(texts(ingredients@).take(i as int)),
                decreases ingredients@.len() - i,
            {
                assert(texts(ingredients@).take(i + 1).drop_last() =~= texts(ingredients@).take(
                    i as int,
                ));
                put_prefixed_line(out, "- ", ingredients[i].as_str());
                i += 1;
            }
            assert(texts(ingredients@).take(ingredients@.len() as int) =~= texts(ingredients@));
        }
    }

    /// Writes the sections, if there are any.
    fn put_sections(&self, out: &mut String)
        ensures
            final(out)@ == old(out)@ + section_blocks(
                self@.recipe.how_to_sections,
                self@.default_section_name,
            ),
    {
        let sections = &self.recipe.how_to_sections;
        let mut i: usize = 0;
        while i < sections.len()
            invariant
                i <= sections@.len(),
                out@ == old(out)@ + section_blocks(
                    sections_view(sections@).take(i as int),
                    self.default_section_name@,
                ),
            decreases sections@.len() - i,
        {
            assert(sections_view(sections@).take(i + 1).drop_last() =~= sections_view(
                sections@,
            ).take(i as int));
            put_section(out, &sections[i], self.default_section_name);
            i += 1;
        }
        assert(sections_view(sections@).take(sections@.len() as int) =~= sections_view(
            sections@,
        ));
    }
}

/// Writes one section: its heading, then each step as a paragraph.
fn put_section(out: &mut String, section: &HowToSection, default_name: &str)
    ensures
        final(out)@ == old(out)@ + section_block(section@, default_name@),
{
    put_empty_line(out);
    match &section.name {
        Some(name) => put_prefixed_line(out, "## ", name.as_str()),
        None => put_prefixed_line(out, "## ", default_name),
    }
    let ghost head = out@;
    let mut i: usize = 0;
    while i < section.steps.len()
        invariant
            i <= section.steps@.len(),
            out@ == head + step_paragraphs(texts(section.steps@).take(i as int)),
        decreases section.steps@.len() - i,
    {
        assert(texts(section.steps@).take(i + 1).drop_last() =~= texts(section.steps@).take(
            i as int,
        ));
        put_empty_line(out);
        put_line(out, section.steps[i].as_str());
        i += 1;
    }
    assert(texts(section.steps@).take(section.steps@.len() as int) =~= texts(section.steps@));
}

impl Recipe {
    /// A builder that renders this recipe as markdown.
    pub fn to_markdown(&self) -> (builder: MarkdownBuilder<'_>)
        ensures
            builder@ == MarkdownOptions::defaults(self@),
    {
        MarkdownBuilder::from(self)
    }
}

} // verus!
