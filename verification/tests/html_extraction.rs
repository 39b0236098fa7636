use reget::constants::MAX_DOCUMENT_BYTES;
use reget::{parse_recipe, HowToSection, Recipe};

const BASIC_1: &str = r#"<!DOCTYPE html>
<html lang="en">
<head>
<title>recipe_name</title>
<script type="application/ld+json">
{
  "@context": "https://schema.org",
  "@type": "Recipe",
  "name": "recipe_name",
  "author": "author_name",
  "description": "description",
  "recipeIngredient": ["ingredient_1", "ingredient_2"],
  "recipeInstructions": "instruction_1"
}
</script>
</head>
<body><h1>recipe_name</h1></body>
</html>
"#;

const BASIC_2: &str = r#"<!DOCTYPE html>
<html lang="en">
<head>
<script type="application/ld+json">
{
  "@context": "https://schema.org",
  "@type": "Recipe",
  "name": "recipe_name",
  "author": { "@type": "Person", "name": "author_name" },
  "description": "description",
  "recipeIngredient": ["ingredient_1", "ingredient_2"],
  "recipeInstructions": ["instruction_1", "instruction_2"]
}
</script>
</head>
<body></body>
</html>
"#;

const BASIC_3: &str = r#"<!DOCTYPE html>
<html lang="en">
<head>
<script type="text/javascript">var recipe = { "@type": "Recipe" };</script>
<script type="application/ld+json">
{
  "@context": "https://schema.org",
  "@graph": [
    { "@type": "WebSite", "name": "site_name" },
    {
      "@type": ["Recipe", "NewsArticle"],
      "name": "recipe_name",
      "author": [{ "@type": "Person", "name": "author_name" }],
      "description": "description",
      "recipeIngredient": ["ingredient_1", "ingredient_2"],
      "recipeInstructions": [
        { "@type": "HowToStep", "text": " instruction_1 " },
        { "@type": "HowToStep", "text": "instruction_2\n" }
      ]
    }
  ]
}
</script>
</head>
<body></body>
</html>
"#;

const BASIC_4: &str = r#"<!DOCTYPE html>
<html lang="en">
<body>
<script type="application/ld+json">{ not json }</script>
<script type="application/ld+json">
{
  "@context": "https://schema.org",
  "@type": "Recipe",
  "name": "recipe_name",
  "author": "author_name",
  "description": "description",
  "recipeIngredient": ["ingredient_1", "ingredient_2"],
  "recipeInstructions": [
    {
      "@type": "HowToSection",
      "itemListElement": [
        { "@type": "HowToStep", "text": "instruction_1" },
        { "@type": "HowToStep", "text": "instruction_2" }
      ]
    },
    {
      "@type": "HowToSection",
      "name": "section_2",
      "itemListElement": [
        { "@type": "HowToStep", "text": "instruction_3" },
        { "@type": "HowToStep", "text": "instruction_4" }
      ]
    }
  ]
}
</script>
</body>
</html>
"#;

const BASIC_5: &str = r#"<!DOCTYPE html>
<html lang="en">
<head>
<script type="application/ld+json">
{ "@context": "https://schema.org", "@type": "Organization", "name": "publisher_name" }
</script>
<script type="application/ld+json">
[
  {
    "@context": "https://schema.org",
    "@type": "Recipe",
    "name": "recipe_name",
    "author": "author_name",
    "description": "description",
    "recipeIngredient": ["ingredient_1", "ingredient_2"],
    "recipeInstructions": [
      {
        "@type": "HowToSection",
        "name": "section_1",
        "itemListElement": ["instruction_1", "instruction_2"]
      },
      {
        "@type": "HowToSection",
        "name": "section_2",
        "itemListElement": ["instruction_3", "instruction_4"]
      }
    ]
  }
]
</script>
</head>
<body></body>
</html>
"#;

#[test]
fn basic_1() {
    let recipe = parse_recipe(BASIC_1).unwrap();
    assert_eq!(
        recipe,
        Recipe {
            name: Some("recipe_name".into()),
            author: Some("author_name".into()),
            description: Some("description".into()),
            ingredients: vec!["ingredient_1".into(), "ingredient_2".into()],
            how_to_sections: vec![HowToSection {
                name: None,
                steps: vec!["instruction_1".into()],
            }]
        }
    )
}

#[test]
fn basic_2() {
    let recipe = parse_recipe(BASIC_2).unwrap();
    assert_eq!(
        recipe,
        Recipe {
            name: Some("recipe_name".into()),
            author: Some("author_name".into()),
            description: Some("description".into()),
            ingredients: vec!["ingredient_1".into(), "ingredient_2".into()],
            how_to_sections: vec![HowToSection {
                name: None,
                steps: vec!["instruction_1".into(), "instruction_2".into()],
            }]
        }
    )
}

#[test]
fn basic_3() {
    let recipe = parse_recipe(BASIC_3).unwrap();
    assert_eq!(
        recipe,
        Recipe {
            name: Some("recipe_name".into()),
            author: Some("author_name".into()),
            description: Some("description".into()),
            ingredients: vec!["ingredient_1".into(), "ingredient_2".into()],
            how_to_sections: vec![HowToSection {
                name: None,
                steps: vec!["instruction_1".into(), "instruction_2".into()],
            }]
        }
    )
}

#[test]
fn basic_4() {
    let recipe = parse_recipe(BASIC_4).unwrap();
    assert_eq!(
        recipe,
        Recipe {
            name: Some("recipe_name".into()),
            author: Some("author_name".into()),
            description: Some("description".into()),
            ingredients: vec!["ingredient_1".into(), "ingredient_2".into()],
            how_to_sections: vec![
                HowToSection {
                    name: None,
                    steps: vec!["instruction_1".into(), "instruction_2".into()],
                },
                HowToSection {
                    name: Some("section_2".into()),
                    steps: vec!["instruction_3".into(), "instruction_4".into()],
                }
            ]
        }
    )
}

#[test]
fn basic_5() {
    let recipe = parse_recipe(BASIC_5).unwrap();
    assert_eq!(
        recipe,
        Recipe {
            name: Some("recipe_name".into()),
            author: Some("author_name".into()),
            description: Some("description".into()),
            ingredients: vec!["ingredient_1".into(), "ingredient_2".into()],
            how_to_sections: vec![
                HowToSection {
                    name: Some("section_1".into()),
                    steps: vec!["instruction_1".into(), "instruction_2".into()],
                },
                HowToSection {
                    name: Some("section_2".into()),
                    steps: vec!["instruction_3".into(), "instruction_4".into()],
                }
            ]
        }
    )
}

#[test]
fn cookies_document_parses_to_its_recipe() {
    let html = r#"
<!DOCTYPE html>
<html lang="en">
<script type="application/ld+json">
{
  "@type": "Recipe",
  "name": "Delicious Cookies",
  "author": "Lorem Ipsum",
  "recipeIngredient": ["2 cups flour", "1 cup sugar"],
  "recipeInstructions": "Mix ingredients and bake."
}
</script>
</html>
"#;
    let recipe = parse_recipe(html).unwrap();
    assert_eq!(recipe.name, Some("Delicious Cookies".to_string()));
    assert_eq!(recipe.author, Some("Lorem Ipsum".to_string()));
    assert_eq!(recipe.description, None);
    assert_eq!(recipe.ingredients, vec!["2 cups flour", "1 cup sugar"]);
    assert_eq!(
        recipe.how_to_sections,
        vec![HowToSection { name: None, steps: vec!["Mix ingredients and bake.".to_string()] }]
    );
}

#[test]
fn document_without_json_ld_has_no_recipe() {
    assert_eq!(parse_recipe(""), None);
    assert_eq!(parse_recipe("<html><body><p>Recipe</p></body></html>"), None);
    let other_script = r#"<script type="text/javascript">{"@type": "Recipe", "name": "x"}</script>"#;
    assert_eq!(parse_recipe(other_script), None);
}

#[test]
fn document_without_recipe_node_has_no_recipe() {
    let html = r#"<html><head>
<script type="application/ld+json">{"@type": "WebSite", "name": "Recipe"}</script>
<script type="application/ld+json">[{"@type": ["Article", "recipe"]}, "Recipe", {"type": "Recipe"}]</script>
<script type="application/ld+json">{"@type": "Recipe", </script>
</head></html>"#;
    assert_eq!(parse_recipe(html), None);
}

#[test]
fn first_matching_block_is_used() {
    let html = r#"<html><head>
<script type="application/ld+json">{"@type": "Recipe", "name": "first"}</script>
<script type="application/ld+json">{"@type": "Recipe", "name": "second"}</script>
</head></html>"#;
    let recipe = parse_recipe(html).unwrap();
    assert_eq!(recipe.name, Some("first".to_string()));
}

#[test]
fn block_that_is_not_json_is_passed_over() {
    let html = r#"<html><head>
<script type="application/ld+json">this is not json</script>
<script type="application/ld+json">{"@type": "WebPage"}</script>
<script type="application/ld+json">{"@type": "Recipe", "name": "third"}</script>
</head></html>"#;
    let recipe = parse_recipe(html).unwrap();
    assert_eq!(recipe.name, Some("third".to_string()));
    assert_eq!(recipe.how_to_sections, Vec::<HowToSection>::new());
    assert_eq!(recipe.ingredients, Vec::<String>::new());
}

#[test]
fn parsing_twice_gives_equal_recipes() {
    assert_eq!(parse_recipe(BASIC_4), parse_recipe(BASIC_4));
    assert_eq!(parse_recipe(BASIC_3).unwrap(), parse_recipe(BASIC_3).unwrap().clone());
}

#[test]
fn document_limit_leaves_room_for_threefold_growth() {
    assert_eq!(MAX_DOCUMENT_BYTES, 268_435_456);
    assert!((MAX_DOCUMENT_BYTES as u64) * 3 < (1u64 << 31));
    assert!(BASIC_1.len() <= MAX_DOCUMENT_BYTES);
}

#[test]
fn long_document_within_the_limit_is_parsed() {
    let padding = " ".repeat(2 * 1024 * 1024);
    let zeros = "\0".repeat(1024 * 1024);
    let html = format!(
        "<html><head><script type=\"application/ld+json\">{zeros}</script>\
         <script type=\"application/ld+json\">{padding}{{\"@type\": \"Recipe\", \"name\": \"long\"}}{padding}</script>\
         </head><body>{zeros}</body></html>"
    );
    assert!(html.len() <= MAX_DOCUMENT_BYTES);
    let recipe = parse_recipe(&html).unwrap();
    assert_eq!(recipe.name, Some("long".to_string()));
}
