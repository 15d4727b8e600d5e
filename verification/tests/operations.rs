use anylist_rs::operations::{
    build_add_item_operation, build_create_list_operation, build_delete_list_operation,
    build_delete_store_filter_operation, build_delete_store_operation,
    build_remove_store_from_items_operation, build_rename_list_operation,
    build_update_store_filter_operation, AddItemParams, CategoryAssignment, CreateListParams,
    DeleteListParams, DeleteStoreFilterParams, DeleteStoreParams, RemoveStoreFromItemsParams,
    RenameListParams, UpdateStoreFilterParams,
};
use anylist_rs::protobuf::anylist::{
    Double, PbListItemCategoryAssignment, PbListOperation, PbOperationMetadata,
};

// Fixed test values for deterministic testing
fn test_create_list_params() -> CreateListParams {
    CreateListParams {
        list_id: "test-list-abc123".to_string(),
        operation_id: "test-op-xyz789".to_string(),
        user_id: "test-user-456".to_string(),
        timestamp: Double::from_bits(1700000000.0f64.to_bits()),
        name: "Groceries".to_string(),
    }
}

fn metadata(operation_id: &str, handler_id: &str, user_id: &str, class: Option<i32>) -> Option<PbOperationMetadata> {
    Some(PbOperationMetadata {
        operation_id: Some(operation_id.to_string()),
        handler_id: Some(handler_id.to_string()),
        user_id: Some(user_id.to_string()),
        operation_class: class,
    })
}

#[test]
fn test_create_list_operation_snapshot() {
    let params = test_create_list_params();
    let operation_list = build_create_list_operation(params);

    assert_eq!(operation_list.operations.len(), 1);
    let op = &operation_list.operations[0];
    assert_eq!(op.metadata, metadata("test-op-xyz789", "new-shopping-list", "test-user-456", Some(0)));
    assert_eq!(op.list_id, Some("test-list-abc123".to_string()));
    let list = op.list.as_ref().unwrap();
    assert_eq!(list.identifier, "test-list-abc123");
    assert_eq!(list.timestamp.map(|t| f64::from_bits(t.to_bits())), Some(1700000000.0));
    assert_eq!(list.name, Some("Groceries".to_string()));
    assert!(list.items.is_empty());
    assert_eq!(list.creator, Some("test-user-456".to_string()));
    assert_eq!(list.password, None);
    assert_eq!(list.logical_clock_time, Some(1));
    assert_eq!(list.built_in_alexa_list_type, None);
    assert_eq!(list.allows_multiple_list_category_groups, Some(true));
    assert_eq!(list.list_item_sort_order, Some(0));
    assert_eq!(list.new_list_item_position, Some(0));
    let expected = PbListOperation {
        metadata: op.metadata.clone(),
        list_id: op.list_id.clone(),
        list: op.list.clone(),
        ..Default::default()
    };
    assert_eq!(*op, expected);
}

#[test]
fn test_delete_list_operation_snapshot() {
    let params = DeleteListParams {
        list_id: "test-list-abc123".to_string(),
        operation_id: "test-op-delete-1".to_string(),
        user_id: "test-user-456".to_string(),
    };

    let operation_list = build_delete_list_operation(params);
    assert_eq!(operation_list.operations.len(), 1);
    let expected = PbListOperation {
        metadata: metadata("test-op-delete-1", "delete-list", "test-user-456", Some(0)),
        list_id: Some("test-list-abc123".to_string()),
        ..Default::default()
    };
    assert_eq!(operation_list.operations[0], expected);
}

#[test]
fn test_rename_list_operation_snapshot() {
    let params = RenameListParams {
        list_id: "test-list-abc123".to_string(),
        operation_id: "test-op-rename-1".to_string(),
        user_id: "test-user-456".to_string(),
        timestamp: Double::from_bits(1700000000.0f64.to_bits()),
        old_name: "Old Name".to_string(),
        new_name: "New Name".to_string(),
    };

    let operation_list = build_rename_list_operation(params);
    assert_eq!(operation_list.operations.len(), 1);
    let op = &operation_list.operations[0];
    assert_eq!(op.metadata, metadata("test-op-rename-1", "rename-list", "test-user-456", Some(0)));
    assert_eq!(op.list_id, Some("test-list-abc123".to_string()));
    assert_eq!(op.original_value, Some("Old Name".to_string()));
    assert_eq!(op.updated_value, None);
    let list = op.list.as_ref().unwrap();
    assert_eq!(list.identifier, "test-list-abc123");
    assert_eq!(list.name, Some("New Name".to_string()));
    assert_eq!(list.timestamp.map(|t| f64::from_bits(t.to_bits())), Some(1700000000.0));
    assert_eq!(list.creator, Some("test-user-456".to_string()));
    assert_eq!(list.logical_clock_time, None);
    assert_eq!(list.allows_multiple_list_category_groups, Some(true));
}

#[test]
fn test_remove_store_uses_updated_value_field() {
    // Critical test: ensure we use updated_value not original_value
    let params = RemoveStoreFromItemsParams {
        list_id: "list-1".to_string(),
        store_id: "store-abc".to_string(),
        operation_id: "op-1".to_string(),
        user_id: "user-1".to_string(),
    };

    let operation_list = build_remove_store_from_items_operation(params);
    let op = &operation_list.operations[0];

    // Assert correct field is used
    assert_eq!(op.updated_value, Some("store-abc".to_string()));
    assert_eq!(op.original_value, None);

    assert_eq!(op.metadata, metadata("op-1", "remove-store-id-from-all-items", "user-1", Some(0)));
    assert_eq!(op.list_id, Some("list-1".to_string()));
}

#[test]
fn test_update_store_filter_operation_snapshot() {
    let params = UpdateStoreFilterParams {
        filter_id: "filter-123".to_string(),
        list_id: "list-1".to_string(),
        filter_name: "Weekend Stores".to_string(),
        store_ids: vec!["store-a".to_string(), "store-b".to_string()],
        operation_id: "op-update-filter-1".to_string(),
        user_id: "user-1".to_string(),
    };

    let operation_list = build_update_store_filter_operation(params);
    assert_eq!(operation_list.operations.len(), 1);
    let op = &operation_list.operations[0];
    assert_eq!(op.metadata, metadata("op-update-filter-1", "update-store-filter", "user-1", Some(0)));
    assert_eq!(op.list_id, Some("list-1".to_string()));
    let filter = op.updated_store_filter.as_ref().unwrap();
    assert_eq!(filter.identifier, "filter-123");
    assert_eq!(filter.list_id, Some("list-1".to_string()));
    assert_eq!(filter.name, Some("Weekend Stores".to_string()));
    assert_eq!(filter.store_ids, vec!["store-a".to_string(), "store-b".to_string()]);
    assert_eq!(filter.logical_timestamp, None);
    assert_eq!(filter.sort_index, None);
    assert_eq!(op.original_store_filter, None);
}

#[test]
fn test_delete_store_filter_operation_snapshot() {
    let params = DeleteStoreFilterParams {
        filter_id: "filter-123".to_string(),
        list_id: "list-1".to_string(),
        filter_name: "Old Filter".to_string(),
        operation_id: "op-delete-filter-1".to_string(),
        user_id: "user-1".to_string(),
    };

    let operation_list = build_delete_store_filter_operation(params);
    assert_eq!(operation_list.operations.len(), 1);
    let op = &operation_list.operations[0];
    assert_eq!(op.metadata, metadata("op-delete-filter-1", "delete-store-filter", "user-1", Some(0)));
    let filter = op.updated_store_filter.as_ref().unwrap();
    assert_eq!(filter.identifier, "filter-123");
    assert_eq!(filter.name, Some("Old Filter".to_string()));
    assert!(filter.store_ids.is_empty());
}

#[test]
fn test_delete_store_uses_updated_store_field() {
    // Critical test: ensure we use updated_store with full PbStore object
    let params = DeleteStoreParams {
        store_id: "store-123".to_string(),
        store_name: Some("Costco".to_string()),
        list_id: "list-1".to_string(),
        operation_id: "op-delete-store-1".to_string(),
        user_id: "user-1".to_string(),
    };

    let operation_list = build_delete_store_operation(params);
    let op = &operation_list.operations[0];

    // Assert correct field is used
    assert!(op.updated_store.is_some());
    let store = op.updated_store.as_ref().unwrap();
    assert_eq!(store.identifier, "store-123");
    assert_eq!(store.name, Some("Costco".to_string()));
}

#[test]
fn test_delete_store_without_name() {
    // Test deletion without store name (as used in actual client)
    let params = DeleteStoreParams {
        store_id: "store-456".to_string(),
        store_name: None,
        list_id: "list-2".to_string(),
        operation_id: "op-delete-store-2".to_string(),
        user_id: "user-2".to_string(),
    };

    let operation_list = build_delete_store_operation(params);
    let op = &operation_list.operations[0];

    assert!(op.updated_store.is_some());
    let store = op.updated_store.as_ref().unwrap();
    assert_eq!(store.identifier, "store-456");
    assert_eq!(store.name, None);
}

#[test]
fn test_webapp_add_shopping_list_item_2025_10_28() {
    let params = AddItemParams {
        item_id: "d83d31d5d48d4b7591b05c7efb725a46".to_string(),
        list_id: "58ec2be417b247d7a9edc2d9d66889ab".to_string(),
        operation_id: "0da34b3d00f54ce1bd6fd501ddf62f99".to_string(),
        user_id: "cda21b0078644a01b640c84d3d74187e".to_string(),
        name: "nice new things".to_string(),
        category: Some("other".to_string()),
        category_match_id: Some("other".to_string()),
        category_assignment: Some(CategoryAssignment {
            identifier: "47868d70669a5a078f8bc4e40dc07cab".to_string(),
            category_group_id: "65564675a0de5a5fa6a69272df260fcc".to_string(),
            category_id: "f962e619ab90479894c9dcc291a7f103".to_string(),
        }),
    };

    let operation_list = build_add_item_operation(params);
    assert_eq!(operation_list.operations.len(), 1);
    let op = &operation_list.operations[0];
    assert_eq!(
        op.metadata,
        metadata(
            "0da34b3d00f54ce1bd6fd501ddf62f99",
            "add-shopping-list-item",
            "cda21b0078644a01b640c84d3d74187e",
            None
        )
    );
    assert_eq!(op.list_id, Some("58ec2be417b247d7a9edc2d9d66889ab".to_string()));
    assert_eq!(op.list_item_id, Some("d83d31d5d48d4b7591b05c7efb725a46".to_string()));
    let item = op.list_item.as_ref().unwrap();
    assert_eq!(item.identifier, "d83d31d5d48d4b7591b05c7efb725a46");
    assert_eq!(item.list_id, Some("58ec2be417b247d7a9edc2d9d66889ab".to_string()));
    assert_eq!(item.name, Some("nice new things".to_string()));
    assert_eq!(item.category, Some("other".to_string()));
    assert_eq!(item.category_match_id, Some("other".to_string()));
    assert_eq!(item.user_id, Some("cda21b0078644a01b640c84d3d74187e".to_string()));
    assert_eq!(item.server_mod_time, None);
    assert_eq!(item.checked, None);
    assert_eq!(item.manual_sort_index, None);
    assert_eq!(
        item.category_assignments,
        vec![PbListItemCategoryAssignment {
            identifier: Some("47868d70669a5a078f8bc4e40dc07cab".to_string()),
            category_group_id: Some("65564675a0de5a5fa6a69272df260fcc".to_string()),
            category_id: Some("f962e619ab90479894c9dcc291a7f103".to_string()),
        }]
    );
}

#[test]
fn add_item_without_assignment_has_none() {
    let params = AddItemParams {
        item_id: "i".to_string(),
        list_id: "l".to_string(),
        operation_id: "o".to_string(),
        user_id: "u".to_string(),
        name: "n".to_string(),
        category: None,
        category_match_id: None,
        category_assignment: None,
    };
    let operation_list = build_add_item_operation(params);
    let item = operation_list.operations[0].list_item.as_ref().unwrap();
    assert!(item.category_assignments.is_empty());
    assert_eq!(item.category, None);
}
