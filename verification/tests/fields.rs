use reget::decode::parse_json;
use reget::json::{Json, JsonObject};
use reget::normalize::{extract_author, extract_ingredients, extract_recipe};
use reget::Recipe;

fn json(text: &str) -> Json {
    parse_json(text).unwrap()
}

fn object(text: &str) -> JsonObject {
    match json(text) {
        Json::Object(object) => object,
        other => panic!("not an object: {:?}", other),
    }
}

#[test]
fn extract_simple_name() {
    let json = json(r#"{"name": "Recipe Name"}"#);
    let recipe = extract_recipe(json.as_object().unwrap());
    assert_eq!(recipe.name, Some("Recipe Name".to_string()));
}

#[test]
fn extract_missing_name() {
    let json = json(r#"{"description": "Recipe Name"}"#);
    let recipe = extract_recipe(json.as_object().unwrap());
    assert_eq!(recipe.name, None);
}

#[test]
fn extract_non_string_name() {
    let json = json(r#"{"name": 123}"#);
    let recipe = extract_recipe(json.as_object().unwrap());
    assert_eq!(recipe.name, None);
}

#[test]
fn extract_string_author() {
    let value = Json::String("John Doe".to_string());
    let result = extract_author(&value);
    assert_eq!(result, Some("John Doe".to_string()));
}

#[test]
fn extract_object_author() {
    let value = json(r#"{"name": "Jane Smith"}"#);
    let result = extract_author(&value);
    assert_eq!(result, Some("Jane Smith".to_string()));
}

#[test]
fn extract_object_author_no_name() {
    let value = json(r#"{"email": "test@example.com"}"#);
    let result = extract_author(&value);
    assert_eq!(result, None);
}

#[test]
fn extract_array_authors() {
    let value = json(r#"["John Doe", "Jane Smith"]"#);
    let result = extract_author(&value);
    assert_eq!(result, Some("John Doe, Jane Smith".to_string()));
}

#[test]
fn extract_array_object_authors() {
    let value = json(
        r#"[
            {"name": "John Doe"},
            {"name": "Jane Smith"}
        ]"#,
    );
    let result = extract_author(&value);
    assert_eq!(result, Some("John Doe, Jane Smith".to_string()));
}

#[test]
fn extract_mixed_array_authors() {
    let value = json(
        r#"[
            "John Doe",
            {"name": "Jane Smith"},
            {"email": "invalid@example.com"}
        ]"#,
    );
    let result = extract_author(&value);
    assert_eq!(result, Some("John Doe, Jane Smith".to_string()));
}

#[test]
fn extract_empty_array_authors() {
    let value = json("[]");
    let result = extract_author(&value);
    assert_eq!(result, None);
}

#[test]
fn extract_invalid_type() {
    let value = Json::Number;
    let result = extract_author(&value);
    assert_eq!(result, None);
    assert_eq!(extract_author(&json("123")), None);
}

#[test]
fn extract_simple_description() {
    let json = json(r#"{"description": "A description"}"#);
    let recipe = extract_recipe(json.as_object().unwrap());
    assert_eq!(recipe.description, Some("A description".to_string()));
}

#[test]
fn extract_missing_description() {
    let json = json(r#"{"name": "Cake"}"#);
    let recipe = extract_recipe(json.as_object().unwrap());
    assert_eq!(recipe.description, None);
}

#[test]
fn extract_non_string_description() {
    let json = json(r#"{"description": 456}"#);
    let recipe = extract_recipe(json.as_object().unwrap());
    assert_eq!(recipe.description, None);
}

#[test]
fn extract_empty_description() {
    let json = json(r#"{"description": ""}"#);
    let recipe = extract_recipe(json.as_object().unwrap());
    assert_eq!(recipe.description, Some("".to_string()));
}

#[test]
fn extract_string_ingredient() {
    let value = Json::String("1 cup flour".to_string());
    let result = extract_ingredients(&value);
    assert_eq!(result, vec!["1 cup flour"]);
}

#[test]
fn extract_array_ingredients() {
    let value = json(r#"["1 cup flour", "2 eggs", "1 cup milk"]"#);
    let result = extract_ingredients(&value);
    assert_eq!(result, vec!["1 cup flour", "2 eggs", "1 cup milk"]);
}

#[test]
fn extract_mixed_array_ingredients() {
    let value = json(r#"["1 cup flour", 123, "2 eggs"]"#);
    let result = extract_ingredients(&value);
    assert_eq!(result, vec!["1 cup flour", "2 eggs"]);
}

#[test]
fn extract_empty_array_ingredients() {
    let value = json("[]");
    let result = extract_ingredients(&value);
    assert_eq!(result, Vec::<String>::new());
}

#[test]
fn extract_invalid_type_ingredients() {
    let value = Json::Number;
    let result = extract_ingredients(&value);
    assert_eq!(result, Vec::<String>::new());
}

#[test]
fn extract_object_ingredients() {
    let value = json(r#"{"ingredient": "flour"}"#);
    let result = extract_ingredients(&value);
    assert_eq!(result, Vec::<String>::new());
}

#[test]
fn extract_array_with_objects() {
    let value = json(
        r#"[
            "1 cup flour",
            {"name": "eggs"},
            "2 tbsp sugar"
        ]"#,
    );
    let result = extract_ingredients(&value);
    assert_eq!(result, vec!["1 cup flour", "2 tbsp sugar"]);
}

#[test]
fn author_is_not_trimmed_and_nested_arrays_join() {
    assert_eq!(extract_author(&json(r#"" John ""#)), Some(" John ".to_string()));
    let nested = json(r#"[["A", "B"], {"name": "C"}, [], [{"name": 1}], null, true, "D"]"#);
    assert_eq!(extract_author(&nested), Some("A, B, C, D".to_string()));
    assert_eq!(extract_author(&json(r#"[{"email": "x"}, 1, [], null]"#)), None);
    assert_eq!(extract_author(&json(r#"{"name": ["A"]}"#)), None);
    assert_eq!(extract_author(&json("null")), None);
    assert_eq!(extract_author(&json("false")), None);
}

#[test]
fn single_author_in_array_has_no_separator() {
    assert_eq!(extract_author(&json(r#"["Only"]"#)), Some("Only".to_string()));
    assert_eq!(extract_author(&json(r#"["", ""]"#)), Some(", ".to_string()));
}

#[test]
fn ingredients_keep_duplicates_and_are_not_trimmed() {
    let value = json(r#"[" salt ", " salt ", ["nested"], null, "pepper"]"#);
    assert_eq!(extract_ingredients(&value), vec![" salt ", " salt ", "pepper"]);
    assert_eq!(extract_ingredients(&json("null")), Vec::<String>::new());
    assert_eq!(extract_ingredients(&json("true")), Vec::<String>::new());
}

#[test]
fn missing_members_leave_fields_empty() {
    let recipe = extract_recipe(&object("{}"));
    assert_eq!(recipe, Recipe::default());
    assert_eq!(
        recipe,
        Recipe {
            name: None,
            author: None,
            description: None,
            ingredients: vec![],
            how_to_sections: vec![]
        }
    );
}

#[test]
fn fields_are_independent() {
    let recipe = extract_recipe(&object(
        r#"{
            "name": ["not", "a", "string"],
            "author": 7,
            "description": " kept as it is ",
            "recipeIngredient": {"no": "list"},
            "recipeInstructions": 5
        }"#,
    ));
    assert_eq!(recipe.name, None);
    assert_eq!(recipe.author, None);
    assert_eq!(recipe.description, Some(" kept as it is ".to_string()));
    assert_eq!(recipe.ingredients, Vec::<String>::new());
    assert_eq!(recipe.how_to_sections.len(), 1);
    assert_eq!(recipe.how_to_sections[0].name, None);
    assert_eq!(recipe.how_to_sections[0].steps, Vec::<String>::new());
}

#[test]
fn normalizing_twice_gives_equal_recipes() {
    let source = object(
        r#"{
            "@type": "Recipe",
            "name": "Soup",
            "author": [{"name": "A"}, "B"],
            "recipeIngredient": ["water", 1, "salt"],
            "recipeInstructions": [{"@type": "HowToSection", "name": "Boil", "itemListElement": [" heat "]}]
        }"#,
    );
    let first = extract_recipe(&source);
    let second = extract_recipe(&source);
    assert_eq!(first.name, second.name);
    assert_eq!(first.author, second.author);
    assert_eq!(first.description, second.description);
    assert_eq!(first.ingredients, second.ingredients);
    assert_eq!(first.how_to_sections, second.how_to_sections);
    assert_eq!(first.author, Some("A, B".to_string()));
    assert_eq!(first.how_to_sections[0].steps, vec!["heat"]);
}

#[test]
fn object_lookup_takes_the_first_member_of_a_key() {
    let object = JsonObject {
        members: vec![
            ("name".to_string(), Json::String("first".to_string())),
            ("name".to_string(), Json::String("second".to_string())),
        ],
    };
    assert_eq!(object.get("name"), Some(&Json::String("first".to_string())));
    assert_eq!(object.get("Name"), None);
    assert_eq!(extract_recipe(&object).name, Some("first".to_string()));
}

#[test]
fn author_shapes() {
    assert_eq!(extract_author(&json(r#""John Doe""#)), Some("John Doe".to_string()));
    assert_eq!(extract_author(&json(r#"{"name":"Jane Smith"}"#)), Some("Jane Smith".to_string()));
    assert_eq!(extract_author(&json(r#"{"email":"x"}"#)), None);
    assert_eq!(
        extract_author(&json(r#"["John Doe", {"name":"Jane Smith"}, {"email":"x"}]"#)),
        Some("John Doe, Jane Smith".to_string())
    );
    assert_eq!(extract_author(&json("[]")), None);
}

#[test]
fn ingredient_shapes() {
    assert_eq!(extract_ingredients(&json(r#""1 cup flour""#)), vec!["1 cup flour"]);
    assert_eq!(
        extract_ingredients(&json(r#"["1 cup flour", 123, "2 eggs"]"#)),
        vec!["1 cup flour", "2 eggs"]
    );
    assert_eq!(extract_ingredients(&json("[]")), Vec::<String>::new());
    assert_eq!(extract_ingredients(&json("12")), Vec::<String>::new());
}
