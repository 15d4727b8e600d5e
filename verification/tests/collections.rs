use anylist_rs::collections::{
    build_add_recipe_to_collection_operation, build_create_recipe_collection_operation,
    build_delete_recipe_collection_operation, build_remove_recipe_from_collection_operation,
    find_collection, new_recipe_collection, recipe_collections_from_response, RecipeCollection,
};
use anylist_rs::protobuf::anylist::{Double, PbRecipeCollection, PbRecipeDataResponse};
use anylist_rs::AnyListError;

fn stamp() -> Double {
    Double::from_bits(1700000000.5f64.to_bits())
}

fn collection(ids: &[&str]) -> RecipeCollection {
    RecipeCollection {
        id: "c1".to_string(),
        name: "Dinner".to_string(),
        recipe_ids: ids.iter().map(|s| s.to_string()).collect(),
    }
}

#[test]
fn collections_are_the_named_ones() {
    let response = PbRecipeDataResponse {
        recipe_collections: vec![
            PbRecipeCollection {
                identifier: "c1".to_string(),
                name: Some("Dinner".to_string()),
                recipe_ids: vec!["r1".to_string()],
                ..Default::default()
            },
            PbRecipeCollection { identifier: "c2".to_string(), ..Default::default() },
        ],
        ..Default::default()
    };
    let collections = recipe_collections_from_response(Some(&response));
    assert_eq!(collections.len(), 1);
    assert_eq!(collections[0].id, "c1");
    assert_eq!(collections[0].name, "Dinner");
    assert_eq!(collections[0].recipe_ids, vec!["r1".to_string()]);
    assert!(recipe_collections_from_response(None).is_empty());
}

#[test]
fn find_collection_by_id() {
    let collections = vec![collection(&[]), RecipeCollection { id: "c2".to_string(), ..collection(&["x"]) }];
    assert_eq!(find_collection(&collections, "c2").unwrap().recipe_ids.len(), 1);
    match find_collection(&collections, "c3") {
        Err(AnyListError::NotFound(msg)) => assert_eq!(msg, "Collection with ID c3 not found"),
        other => panic!("unexpected: {:?}", other),
    }
}

#[test]
fn create_collection_operation() {
    let list = build_create_recipe_collection_operation("Dinner", "c1", stamp(), "op", "me");
    assert_eq!(list.operations.len(), 1);
    let op = &list.operations[0];
    let meta = op.metadata.as_ref().unwrap();
    assert_eq!(meta.operation_id, Some("op".to_string()));
    assert_eq!(meta.handler_id, Some("new-recipe-collection".to_string()));
    assert_eq!(meta.user_id, Some("me".to_string()));
    assert_eq!(meta.operation_class, Some(0));
    assert_eq!(op.is_new_recipe_from_web_import, Some(false));
    assert!(op.recipe_collection_ids.is_empty());
    let sent = op.recipe_collection.as_ref().unwrap();
    assert_eq!(sent.identifier, "c1");
    assert_eq!(sent.name, Some("Dinner".to_string()));
    assert_eq!(sent.timestamp, Some(stamp()));
    assert!(sent.recipe_ids.is_empty());
    let settings = sent.collection_settings.as_ref().unwrap();
    assert_eq!(settings.recipes_sort_order, Some(0));
    assert_eq!(settings.show_only_recipes_with_no_collection, Some(false));

    let created = new_recipe_collection("c1", "Dinner");
    assert_eq!(created.id, "c1");
    assert!(created.recipe_ids.is_empty());
}

#[test]
fn delete_collection_operation() {
    let list = build_delete_recipe_collection_operation("c1", "op", "me");
    let op = &list.operations[0];
    assert_eq!(op.metadata.as_ref().unwrap().handler_id, Some("remove-recipe-collection".to_string()));
    assert_eq!(op.recipe_collection_ids, vec!["c1".to_string()]);
    assert_eq!(op.recipe_collection, None);
    assert_eq!(op.is_new_recipe_from_web_import, Some(false));
}

#[test]
fn adding_a_recipe_adds_it_once() {
    let list = build_add_recipe_to_collection_operation(&collection(&["a"]), "b", stamp(), "op", "me");
    let op = &list.operations[0];
    assert_eq!(op.metadata.as_ref().unwrap().handler_id, Some("add-recipes-to-collection".to_string()));
    let sent = op.recipe_collection.as_ref().unwrap();
    assert_eq!(sent.identifier, "c1");
    assert_eq!(sent.name, Some("Dinner".to_string()));
    assert_eq!(sent.recipe_ids, vec!["a".to_string(), "b".to_string()]);

    let list = build_add_recipe_to_collection_operation(&collection(&["a", "b"]), "a", stamp(), "op", "me");
    assert_eq!(
        list.operations[0].recipe_collection.as_ref().unwrap().recipe_ids,
        vec!["a".to_string(), "b".to_string()]
    );
}

#[test]
fn removing_a_recipe_removes_every_occurrence() {
    let list =
        build_remove_recipe_from_collection_operation(&collection(&["a", "b", "a"]), "a", stamp(), "op", "me");
    let op = &list.operations[0];
    assert_eq!(
        op.metadata.as_ref().unwrap().handler_id,
        Some("remove-recipes-from-collection".to_string())
    );
    assert_eq!(op.recipe_collection.as_ref().unwrap().recipe_ids, vec!["b".to_string()]);

    let list = build_remove_recipe_from_collection_operation(&collection(&["b"]), "a", stamp(), "op", "me");
    assert_eq!(list.operations[0].recipe_collection.as_ref().unwrap().recipe_ids, vec!["b".to_string()]);
}
