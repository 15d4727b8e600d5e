use anylist_rs::categories::{
    build_create_category_operation, build_delete_category_operation,
    build_rename_category_operation, new_category,
};
use anylist_rs::protobuf::anylist::{PbListCategory, PbListOperation, PbOperationMetadata};

fn meta(handler: &str) -> Option<PbOperationMetadata> {
    Some(PbOperationMetadata {
        operation_id: Some("op".to_string()),
        handler_id: Some(handler.to_string()),
        user_id: Some("me".to_string()),
        operation_class: Some(3),
    })
}

fn category(name: &str) -> PbListCategory {
    PbListCategory {
        identifier: Some("c1".to_string()),
        logical_timestamp: Some(1),
        category_group_id: Some("g1".to_string()),
        list_id: Some("l1".to_string()),
        name: Some(name.to_string()),
        icon: None,
        system_category: None,
        sort_index: Some(0),
    }
}

#[test]
fn create_category_operation() {
    let list = build_create_category_operation("l1", "g1", "Dairy", "c1", "op", "me");
    let expected = PbListOperation {
        metadata: meta("create-category"),
        list_id: Some("l1".to_string()),
        updated_category: Some(category("Dairy")),
        ..Default::default()
    };
    assert_eq!(list.operations, vec![expected]);
    let created = new_category("c1", "Dairy");
    assert_eq!((created.id.as_str(), created.name.as_str()), ("c1", "Dairy"));
    assert_eq!(created.icon, None);
    assert_eq!(created.sort_index, 0);
}

#[test]
fn delete_category_operation() {
    let list = build_delete_category_operation("l1", "c1", "op", "me");
    let expected = PbListOperation {
        metadata: meta("remove-category"),
        list_id: Some("l1".to_string()),
        original_value: Some("c1".to_string()),
        ..Default::default()
    };
    assert_eq!(list.operations, vec![expected]);
}

#[test]
fn rename_category_operation() {
    let list = build_rename_category_operation("l1", "g1", "c1", "Milk products", "op", "me");
    let expected = PbListOperation {
        metadata: meta("set-category-name"),
        list_id: Some("l1".to_string()),
        updated_value: Some("Milk products".to_string()),
        updated_category: Some(category("Milk products")),
        ..Default::default()
    };
    assert_eq!(list.operations, vec![expected]);
}
