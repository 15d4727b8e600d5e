use anylist_rs::lists::ListItem;
use anylist_rs::protobuf::anylist::Double;
use anylist_rs::requests::{
    add_item, add_item_with_details, create_category, create_list, create_meal_plan_event,
    create_recipe, create_recipe_collection, create_store, delete_list, delete_store,
    delete_store_filter_with_store, remove_store_from_items, rename_list, set_item_checked,
};
use anylist_rs::stores::StoreFilter;

fn stamp() -> Double {
    Double::from_bits(1700000000.0f64.to_bits())
}

fn is_id(id: &str) -> bool {
    id.len() == 32 && id.chars().all(|c| c.is_ascii_digit() || ('a'..='f').contains(&c))
}

#[test]
fn creating_a_list_draws_two_ids() {
    let (request, list) = create_list("Groceries", "me", stamp());
    assert!(is_id(&list.id));
    assert_eq!(list.name, "Groceries");
    assert!(list.items.is_empty());
    assert!(list.shared_users.is_empty());
    let op = &request.operations[0];
    let meta = op.metadata.as_ref().unwrap();
    let operation_id = meta.operation_id.clone().unwrap();
    assert!(is_id(&operation_id));
    assert_ne!(operation_id, list.id);
    assert_eq!(meta.handler_id, Some("new-shopping-list".to_string()));
    assert_eq!(meta.user_id, Some("me".to_string()));
    assert_eq!(op.list_id, Some(list.id.clone()));
    let sent = op.list.as_ref().unwrap();
    assert_eq!(sent.identifier, list.id);
    assert_eq!(sent.name, Some("Groceries".to_string()));
    assert_eq!(sent.timestamp, Some(stamp()));
}

#[test]
fn deleting_and_renaming_a_list() {
    let request = delete_list("l1", "me");
    let op = &request.operations[0];
    assert!(is_id(op.metadata.as_ref().unwrap().operation_id.as_ref().unwrap()));
    assert_eq!(op.metadata.as_ref().unwrap().handler_id, Some("delete-list".to_string()));
    assert_eq!(op.list_id, Some("l1".to_string()));

    let request = rename_list("l1", "Old", "New", "me", stamp());
    let op = &request.operations[0];
    assert_eq!(op.original_value, Some("Old".to_string()));
    assert_eq!(op.list.as_ref().unwrap().name, Some("New".to_string()));
}

#[test]
fn adding_an_item_hands_back_the_item_sent() {
    let (request, item) = add_item_with_details("l1", "Apples", Some("2"), None, Some("Produce"), "me", stamp());
    assert!(is_id(&item.id));
    assert_eq!(item.list_id, "l1");
    assert_eq!(item.details, "");
    let op = &request.operations[0];
    assert_eq!(op.list_item_id, Some(item.id.clone()));
    let sent = op.list_item.as_ref().unwrap();
    assert_eq!(sent.identifier, item.id);
    assert_eq!(sent.quantity, Some("2".to_string()));
    assert_eq!(sent.details, None);
    assert_eq!(sent.category, Some("Produce".to_string()));

    let (request, item) = add_item("l1", "Milk", "me", stamp());
    assert_eq!(item.name, "Milk");
    assert_eq!(item.quantity, None);
    let sent = request.operations[0].list_item.as_ref().unwrap();
    assert_eq!(sent.name, Some("Milk".to_string()));
    assert_eq!(sent.quantity, None);
}

#[test]
fn checking_an_item_off() {
    let item = ListItem {
        id: "i1".to_string(),
        list_id: "l1".to_string(),
        name: "Milk".to_string(),
        details: String::new(),
        is_checked: false,
        quantity: None,
        category: None,
        user_id: None,
    };
    let request = set_item_checked(&item, "l1", "i1", true, "me", stamp());
    let op = &request.operations[0];
    assert_eq!(op.updated_value, Some("true".to_string()));
    assert_eq!(op.original_value, Some("false".to_string()));
    assert_eq!(op.list_item.as_ref().unwrap().details, Some(String::new()));
}

#[test]
fn creating_objects_hands_them_back_under_fresh_ids() {
    let (request, category) = create_category("l1", "g1", "Dairy", "me");
    assert!(is_id(&category.id));
    assert_eq!(
        request.operations[0].updated_category.as_ref().unwrap().identifier,
        Some(category.id.clone())
    );

    let (request, store) = create_store("l1", "Costco", "me");
    assert!(is_id(&store.id));
    assert_eq!(request.operations[0].updated_store.as_ref().unwrap().identifier, store.id);

    let (request, collection) = create_recipe_collection("Dinner", "me", stamp());
    assert!(is_id(&collection.id));
    assert_eq!(request.operations[0].recipe_collection.as_ref().unwrap().identifier, collection.id);

    let (request, recipe) = create_recipe("Bread", vec![], vec!["Bake".to_string()], "me", stamp(), stamp());
    assert!(is_id(&recipe.id));
    assert_eq!(recipe.preparation_steps, vec!["Bake".to_string()]);
    let sent = request.operations[0].recipe.as_ref().unwrap();
    assert_eq!(sent.identifier, recipe.id);
    assert_eq!(sent.preparation_steps, vec!["Bake".to_string()]);

    let (request, event) = create_meal_plan_event("cal", "2024-03-15", None, Some("Dinner"), None, "me");
    assert!(is_id(&event.id));
    assert_eq!(request.operations[0].updated_event.as_ref().unwrap().identifier, event.id);
}

#[test]
fn the_steps_of_deleting_a_store() {
    let request = remove_store_from_items("l1", "s1", "me");
    assert_eq!(request.operations[0].updated_value, Some("s1".to_string()));

    let filter = StoreFilter {
        id: "f1".to_string(),
        name: "Weekend".to_string(),
        store_ids: vec!["s1".to_string()],
    };
    let request = delete_store_filter_with_store(&filter, "l1", "s1", "me").unwrap();
    assert_eq!(
        request.operations[0].metadata.as_ref().unwrap().handler_id,
        Some("delete-store-filter".to_string())
    );
    assert!(delete_store_filter_with_store(&filter, "l1", "s2", "me").is_none());

    let request = delete_store("l1", "s1", "me");
    let op = &request.operations[0];
    assert_eq!(op.metadata.as_ref().unwrap().handler_id, Some("delete-store".to_string()));
    let store = op.updated_store.as_ref().unwrap();
    assert_eq!(store.identifier, "s1");
    assert_eq!(store.name, None);
}
