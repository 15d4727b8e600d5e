use anylist_rs::protobuf::anylist::{Double, PbIngredient, PbRecipe, PbRecipeDataResponse};
use anylist_rs::recipes::{
    build_delete_recipe_operation, build_save_recipe_operation, find_recipe_by_id,
    find_recipe_by_name, new_recipe, pb_ingredients, recipes_from_response,
    recipes_from_user_data, Ingredient,
};
use anylist_rs::AnyListError;

fn response() -> PbRecipeDataResponse {
    PbRecipeDataResponse {
        recipes: vec![
            PbRecipe {
                identifier: "r1".to_string(),
                name: Some("Soup".to_string()),
                ingredients: vec![
                    PbIngredient {
                        name: Some("Water".to_string()),
                        quantity: Some("1 l".to_string()),
                        note: None,
                        raw_ingredient: Some("1 l water".to_string()),
                    },
                    PbIngredient { quantity: Some("2".to_string()), ..Default::default() },
                ],
                preparation_steps: vec!["Boil".to_string()],
                note: Some("hot".to_string()),
                servings: Some("4".to_string()),
                prep_time: Some(60),
                cook_time: Some(600),
                rating: Some(5),
                photo_urls: vec!["http://x/p.jpg".to_string()],
                ..Default::default()
            },
            PbRecipe { identifier: "r2".to_string(), ..Default::default() },
            PbRecipe { identifier: "r3".to_string(), name: Some("Soup".to_string()), ..Default::default() },
        ],
        ..Default::default()
    }
}

#[test]
fn recipes_are_the_named_ones() {
    let recipes = recipes_from_response(response());
    assert_eq!(recipes.len(), 2);
    let soup = &recipes[0];
    assert_eq!(soup.id, "r1");
    assert_eq!(soup.name, "Soup");
    assert_eq!(soup.ingredients.len(), 1);
    assert_eq!(soup.ingredients[0].name, "Water");
    assert_eq!(soup.ingredients[0].quantity, Some("1 l".to_string()));
    assert_eq!(soup.ingredients[0].raw_ingredient, Some("1 l water".to_string()));
    assert_eq!(soup.preparation_steps, vec!["Boil".to_string()]);
    assert_eq!(soup.note, Some("hot".to_string()));
    assert_eq!(soup.servings, Some("4".to_string()));
    assert_eq!((soup.prep_time, soup.cook_time, soup.rating), (Some(60), Some(600), Some(5)));
    assert_eq!(soup.photo_urls, vec!["http://x/p.jpg".to_string()]);
    assert_eq!(recipes[1].id, "r3");
    assert!(recipes_from_user_data(None).is_empty());
    assert_eq!(recipes_from_user_data(Some(&response())).len(), 2);
}

#[test]
fn find_recipe_takes_the_first_match() {
    let recipes = recipes_from_response(response());
    assert_eq!(find_recipe_by_id(recipes.clone(), "r3").unwrap().id, "r3");
    assert_eq!(find_recipe_by_name(recipes.clone(), "Soup").unwrap().id, "r1");
    match find_recipe_by_id(recipes.clone(), "r2") {
        Err(AnyListError::NotFound(msg)) => assert_eq!(msg, "Recipe with ID r2 not found"),
        other => panic!("unexpected: {:?}", other),
    }
    match find_recipe_by_name(recipes, "Stew") {
        Err(AnyListError::NotFound(msg)) => assert_eq!(msg, "Recipe with name 'Stew' not found"),
        other => panic!("unexpected: {:?}", other),
    }
}

fn ingredients() -> Vec<Ingredient> {
    vec![
        Ingredient {
            name: "Flour".to_string(),
            quantity: Some("2 cups".to_string()),
            note: None,
            raw_ingredient: None,
        },
        Ingredient {
            name: "Salt".to_string(),
            quantity: None,
            note: Some("a pinch".to_string()),
            raw_ingredient: Some("salt".to_string()),
        },
    ]
}

#[test]
fn ingredients_are_sent_one_for_one() {
    let sent = pb_ingredients(&ingredients());
    assert_eq!(
        sent,
        vec![
            PbIngredient {
                raw_ingredient: None,
                name: Some("Flour".to_string()),
                quantity: Some("2 cups".to_string()),
                note: None,
            },
            PbIngredient {
                raw_ingredient: Some("salt".to_string()),
                name: Some("Salt".to_string()),
                quantity: None,
                note: Some("a pinch".to_string()),
            },
        ]
    );
}

#[test]
fn save_recipe_operation() {
    let changed = Double::from_bits(10.0f64.to_bits());
    let created = Double::from_bits(11.0f64.to_bits());
    let list = build_save_recipe_operation(
        "r1",
        "Bread",
        pb_ingredients(&ingredients()),
        vec!["Mix".to_string(), "Bake".to_string()],
        changed,
        created,
        "op",
        "me",
    );
    assert_eq!(list.operations.len(), 1);
    let op = &list.operations[0];
    let meta = op.metadata.as_ref().unwrap();
    assert_eq!(meta.handler_id, Some("save-recipe".to_string()));
    assert_eq!(meta.operation_id, Some("op".to_string()));
    assert_eq!(meta.user_id, Some("me".to_string()));
    assert_eq!(meta.operation_class, Some(0));
    assert_eq!(op.is_new_recipe_from_web_import, Some(false));
    assert!(op.recipe_ids.is_empty());
    let recipe = op.recipe.as_ref().unwrap();
    assert_eq!(recipe.identifier, "r1");
    assert_eq!(recipe.name, Some("Bread".to_string()));
    assert_eq!(recipe.timestamp, Some(changed));
    assert_eq!(recipe.creation_timestamp, Some(created));
    assert_eq!(recipe.scale_factor.map(|s| f64::from_bits(s.to_bits())), Some(1.0));
    assert_eq!(recipe.ingredients.len(), 2);
    assert_eq!(recipe.preparation_steps, vec!["Mix".to_string(), "Bake".to_string()]);
    assert_eq!(recipe.rating, None);
}

#[test]
fn delete_recipe_operation() {
    let list = build_delete_recipe_operation("r1", "op", "me");
    let op = &list.operations[0];
    assert_eq!(op.metadata.as_ref().unwrap().handler_id, Some("remove-recipe".to_string()));
    assert_eq!(op.recipe_ids, vec!["r1".to_string()]);
    assert_eq!(op.recipe, None);
}

#[test]
fn a_new_recipe_holds_what_was_given() {
    let recipe = new_recipe("r1", "Bread", ingredients(), vec!["Mix".to_string()]);
    assert_eq!(recipe.id, "r1");
    assert_eq!(recipe.name, "Bread");
    assert_eq!(recipe.ingredients.len(), 2);
    assert_eq!(recipe.preparation_steps, vec!["Mix".to_string()]);
    assert_eq!(recipe.note, None);
    assert!(recipe.photo_urls.is_empty());
}
