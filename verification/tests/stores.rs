use anylist_rs::protobuf::anylist::{
    PbListResponse, PbOperationMetadata, PbStore, PbStoreFilter, ShoppingListsResponse,
};
use anylist_rs::stores::{
    build_create_store_operation, build_filter_operation_without_store,
    build_update_store_operation, new_store, store_filters_for_list, stores_for_list, StoreFilter,
};
use anylist_rs::AnyListError;

fn response() -> ShoppingListsResponse {
    ShoppingListsResponse {
        list_responses: vec![
            PbListResponse { list_id: None, ..Default::default() },
            PbListResponse {
                list_id: Some("l1".to_string()),
                stores: vec![
                    PbStore {
                        identifier: "s1".to_string(),
                        name: Some("Costco".to_string()),
                        sort_index: Some(3),
                        ..Default::default()
                    },
                    PbStore { identifier: "s2".to_string(), ..Default::default() },
                    PbStore {
                        identifier: "s3".to_string(),
                        name: Some("Aldi".to_string()),
                        ..Default::default()
                    },
                ],
                store_filters: vec![
                    PbStoreFilter {
                        identifier: "f1".to_string(),
                        name: Some("Weekend".to_string()),
                        store_ids: vec!["s1".to_string(), "s3".to_string()],
                        ..Default::default()
                    },
                    PbStoreFilter { identifier: "f2".to_string(), ..Default::default() },
                ],
                ..Default::default()
            },
            PbListResponse {
                list_id: Some("l1".to_string()),
                stores: vec![PbStore {
                    identifier: "late".to_string(),
                    name: Some("Late".to_string()),
                    ..Default::default()
                }],
                ..Default::default()
            },
        ],
        ..Default::default()
    }
}

#[test]
fn stores_of_a_list() {
    let r = response();
    let stores = stores_for_list(Some(&r), "l1").unwrap();
    assert_eq!(stores.len(), 2);
    assert_eq!((stores[0].id.as_str(), stores[0].name.as_str(), stores[0].sort_index), ("s1", "Costco", 3));
    assert_eq!((stores[1].id.as_str(), stores[1].name.as_str(), stores[1].sort_index), ("s3", "Aldi", 0));
}

#[test]
fn stores_of_an_unknown_list() {
    let r = response();
    for outcome in [stores_for_list(Some(&r), "l2"), stores_for_list(None, "l2")] {
        match outcome {
            Err(AnyListError::NotFound(msg)) => assert_eq!(msg, "List with ID l2 not found"),
            other => panic!("unexpected: {:?}", other),
        }
    }
}

#[test]
fn store_filters_of_a_list() {
    let r = response();
    let filters = store_filters_for_list(Some(&r), "l1").unwrap();
    assert_eq!(filters.len(), 1);
    assert_eq!(filters[0].id, "f1");
    assert_eq!(filters[0].name, "Weekend");
    assert_eq!(filters[0].store_ids, vec!["s1".to_string(), "s3".to_string()]);
    match store_filters_for_list(Some(&r), "nope") {
        Err(AnyListError::NotFound(msg)) => assert_eq!(msg, "List with ID nope not found"),
        other => panic!("unexpected: {:?}", other),
    }
}

fn meta(operation_id: &str, handler: &str, user: &str, class: i32) -> Option<PbOperationMetadata> {
    Some(PbOperationMetadata {
        operation_id: Some(operation_id.to_string()),
        handler_id: Some(handler.to_string()),
        user_id: Some(user.to_string()),
        operation_class: Some(class),
    })
}

#[test]
fn create_and_update_store_operations() {
    let created = build_create_store_operation("l1", "Costco", "s9", "op", "me");
    let op = &created.operations[0];
    assert_eq!(op.metadata, meta("op", "new-store", "me", 1));
    assert_eq!(op.list_id, Some("l1".to_string()));
    let store = op.updated_store.as_ref().unwrap();
    assert_eq!(store.identifier, "s9");
    assert_eq!(store.name, Some("Costco".to_string()));
    assert_eq!(store.list_id, Some("l1".to_string()));
    assert_eq!(store.sort_index, Some(0));
    assert_eq!(store.logical_timestamp, None);
    assert_eq!(op.updated_value, None);

    let updated = build_update_store_operation("l1", "s9", "Aldi", "op2", "me");
    let op = &updated.operations[0];
    assert_eq!(op.metadata, meta("op2", "set-store-name", "me", 1));
    assert_eq!(op.updated_value, Some("Aldi".to_string()));
    let store = op.updated_store.as_ref().unwrap();
    assert_eq!(store.name, Some("Aldi".to_string()));
    assert_eq!(store.logical_timestamp, Some(1));

    let store = new_store("s9", "Costco");
    assert_eq!((store.id.as_str(), store.name.as_str(), store.sort_index), ("s9", "Costco", 0));
}

fn filter(ids: &[&str]) -> StoreFilter {
    StoreFilter {
        id: "f1".to_string(),
        name: "Weekend".to_string(),
        store_ids: ids.iter().map(|s| s.to_string()).collect(),
    }
}

#[test]
fn a_filter_without_the_store_is_left_alone() {
    assert_eq!(build_filter_operation_without_store(&filter(&["a", "b"]), "l", "s", "op", "me"), None);
    assert_eq!(build_filter_operation_without_store(&filter(&[]), "l", "s", "op", "me"), None);
}

#[test]
fn a_filter_with_other_stores_is_updated() {
    let list = build_filter_operation_without_store(&filter(&["s", "a", "s", "b"]), "l", "s", "op", "me")
        .unwrap();
    let op = &list.operations[0];
    assert_eq!(op.metadata, meta("op", "update-store-filter", "me", 0));
    let sent = op.updated_store_filter.as_ref().unwrap();
    assert_eq!(sent.identifier, "f1");
    assert_eq!(sent.name, Some("Weekend".to_string()));
    assert_eq!(sent.store_ids, vec!["a".to_string(), "b".to_string()]);
}

#[test]
fn a_filter_of_the_store_alone_is_deleted() {
    let list = build_filter_operation_without_store(&filter(&["s", "s"]), "l", "s", "op", "me").unwrap();
    let op = &list.operations[0];
    assert_eq!(op.metadata, meta("op", "delete-store-filter", "me", 0));
    assert!(op.updated_store_filter.as_ref().unwrap().store_ids.is_empty());
}
