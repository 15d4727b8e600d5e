use anylist_rs::items::{
    build_add_item_with_details_operation, build_delete_item_operation,
    build_set_item_checked_operation, build_update_item_operation, crossed_off_item_ids,
    find_item, new_list_item,
};
use anylist_rs::lists::{List, ListItem};
use anylist_rs::protobuf::anylist::{Double, ListItem as PbListItem, PbListOperation, PbOperationMetadata};
use anylist_rs::AnyListError;

fn stamp() -> Double {
    Double::from_bits(42.25f64.to_bits())
}

fn meta(handler: &str) -> Option<PbOperationMetadata> {
    Some(PbOperationMetadata {
        operation_id: Some("op".to_string()),
        handler_id: Some(handler.to_string()),
        user_id: Some("me".to_string()),
        operation_class: Some(0),
    })
}

fn sent_item(checked: bool) -> PbListItem {
    PbListItem {
        identifier: "i1".to_string(),
        server_mod_time: Some(stamp()),
        list_id: Some("l1".to_string()),
        name: Some("Apples".to_string()),
        quantity: Some("2 lbs".to_string()),
        details: Some("Organic".to_string()),
        checked: Some(checked),
        category: Some("Produce".to_string()),
        user_id: Some("me".to_string()),
        manual_sort_index: Some(0),
        ..Default::default()
    }
}

#[test]
fn add_item_with_details_operation() {
    let list = build_add_item_with_details_operation(
        "l1",
        "Apples",
        Some("2 lbs"),
        Some("Organic"),
        Some("Produce"),
        "i1",
        stamp(),
        "op",
        "me",
    );
    let expected = PbListOperation {
        metadata: meta("add-shopping-list-item"),
        list_id: Some("l1".to_string()),
        list_item_id: Some("i1".to_string()),
        list_item: Some(sent_item(false)),
        ..Default::default()
    };
    assert_eq!(list.operations, vec![expected]);
}

#[test]
fn update_item_operation_without_details() {
    let list = build_update_item_operation("l1", "Apples", None, None, None, "i1", stamp(), "op", "me");
    let op = &list.operations[0];
    assert_eq!(op.metadata, meta("update-list-item"));
    let item = op.list_item.as_ref().unwrap();
    assert_eq!(item.quantity, None);
    assert_eq!(item.details, None);
    assert_eq!(item.category, None);
    assert_eq!(item.checked, Some(false));
    assert_eq!(item.name, Some("Apples".to_string()));
}

#[test]
fn delete_item_operation() {
    let list = build_delete_item_operation("l1", "i1", "op", "me");
    let expected = PbListOperation {
        metadata: meta("remove-shopping-list-item"),
        list_id: Some("l1".to_string()),
        list_item_id: Some("i1".to_string()),
        ..Default::default()
    };
    assert_eq!(list.operations, vec![expected]);
}

fn item(id: &str, checked: bool) -> ListItem {
    ListItem {
        id: id.to_string(),
        list_id: "l1".to_string(),
        name: "Apples".to_string(),
        details: "Organic".to_string(),
        is_checked: checked,
        quantity: Some("2 lbs".to_string()),
        category: Some("Produce".to_string()),
        user_id: None,
    }
}

#[test]
fn set_item_checked_operation() {
    let list = build_set_item_checked_operation(&item("i1", false), "l1", "i1", true, stamp(), "op", "me");
    let expected = PbListOperation {
        metadata: meta("set-list-item-checked"),
        list_id: Some("l1".to_string()),
        list_item_id: Some("i1".to_string()),
        updated_value: Some("true".to_string()),
        original_value: Some("false".to_string()),
        list_item: Some(sent_item(true)),
        ..Default::default()
    };
    assert_eq!(list.operations, vec![expected]);

    let list = build_set_item_checked_operation(&item("i1", true), "l1", "i1", false, stamp(), "op", "me");
    let op = &list.operations[0];
    assert_eq!(op.updated_value, Some("false".to_string()));
    assert_eq!(op.original_value, Some("true".to_string()));
    assert_eq!(op.list_item.as_ref().unwrap().checked, Some(false));
}

fn list() -> List {
    List {
        id: "l1".to_string(),
        name: "Groceries".to_string(),
        items: vec![item("a", true), item("b", false), item("c", true), item("a", false)],
        shared_users: vec![],
    }
}

#[test]
fn find_item_takes_the_first_match() {
    let list = list();
    assert!(find_item(&list, "a").unwrap().is_checked);
    assert_eq!(find_item(&list, "b").unwrap().id, "b");
    match find_item(&list, "z") {
        Err(AnyListError::NotFound(msg)) => assert_eq!(msg, "Item with ID z not found"),
        other => panic!("unexpected: {:?}", other),
    }
}

#[test]
fn crossed_off_items_in_order() {
    assert_eq!(crossed_off_item_ids(&list()), vec!["a".to_string(), "c".to_string()]);
    let empty = List { items: vec![], ..list() };
    assert!(crossed_off_item_ids(&empty).is_empty());
}

#[test]
fn a_new_item_is_unchecked() {
    let item = new_list_item("l1", "Apples", Some("2"), None, Some("Produce"), "i1", "me");
    assert_eq!(item.id, "i1");
    assert_eq!(item.list_id, "l1");
    assert_eq!(item.name, "Apples");
    assert_eq!(item.details, "");
    assert!(!item.is_checked);
    assert_eq!(item.quantity, Some("2".to_string()));
    assert_eq!(item.category, Some("Produce".to_string()));
    assert_eq!(item.user_id, Some("me".to_string()));
    let item = new_list_item("l1", "Apples", None, Some("ripe"), None, "i1", "me");
    assert_eq!(item.details, "ripe");
}
