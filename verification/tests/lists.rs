use anylist_rs::lists::{
    find_list_by_id, find_list_by_name, lists_from_response, lists_from_user_data,
    transform_api_list_item, transform_shared_users, List,
};
use anylist_rs::protobuf::anylist::{
    ListItem as PbListItem, PbEmailUserIdPair, ShoppingList, ShoppingListsResponse,
};
use anylist_rs::AnyListError;

fn pb_item(id: &str, name: Option<&str>, list_id: Option<&str>) -> PbListItem {
    PbListItem {
        identifier: id.to_string(),
        name: name.map(|n| n.to_string()),
        list_id: list_id.map(|l| l.to_string()),
        ..Default::default()
    }
}

#[test]
fn list_items_need_a_name_and_a_list() {
    let items = vec![
        pb_item("1", Some("Milk"), Some("l")),
        pb_item("2", None, Some("l")),
        pb_item("3", Some("Eggs"), None),
        PbListItem {
            details: Some("free range".to_string()),
            checked: Some(true),
            quantity: Some("12".to_string()),
            category: Some("dairy".to_string()),
            user_id: Some("u".to_string()),
            ..pb_item("4", Some("Eggs"), Some("l"))
        },
    ];
    let result = transform_api_list_item(items);
    assert_eq!(result.len(), 2);
    assert_eq!(result[0].id, "1");
    assert_eq!(result[0].list_id, "l");
    assert_eq!(result[0].name, "Milk");
    assert_eq!(result[0].details, "");
    assert!(!result[0].is_checked);
    assert_eq!(result[0].quantity, None);
    assert_eq!(result[1].id, "4");
    assert_eq!(result[1].details, "free range");
    assert!(result[1].is_checked);
    assert_eq!(result[1].quantity, Some("12".to_string()));
    assert_eq!(result[1].category, Some("dairy".to_string()));
    assert_eq!(result[1].user_id, Some("u".to_string()));
    assert!(transform_api_list_item(Vec::new()).is_empty());
}

#[test]
fn shared_users_are_kept_one_for_one() {
    let users = vec![
        PbEmailUserIdPair {
            email: Some("a@example.com".to_string()),
            user_id: Some("u1".to_string()),
            full_name: None,
        },
        PbEmailUserIdPair::default(),
    ];
    let result = transform_shared_users(users);
    assert_eq!(result.len(), 2);
    assert_eq!(result[0].user_id, "u1");
    assert_eq!(result[0].email, Some("a@example.com".to_string()));
    assert_eq!(result[0].full_name, None);
    assert_eq!(result[1].user_id, "");
    assert_eq!(result[1].email, None);
}

fn response() -> ShoppingListsResponse {
    ShoppingListsResponse {
        new_lists: vec![
            ShoppingList {
                identifier: "l1".to_string(),
                name: Some("Groceries".to_string()),
                items: vec![pb_item("1", Some("Milk"), Some("l1")), pb_item("2", None, None)],
                shared_users: vec![PbEmailUserIdPair {
                    user_id: Some("u1".to_string()),
                    ..Default::default()
                }],
                ..Default::default()
            },
            ShoppingList { identifier: "l2".to_string(), ..Default::default() },
            ShoppingList {
                identifier: "l3".to_string(),
                name: Some("Groceries".to_string()),
                ..Default::default()
            },
        ],
        modified_lists: vec![ShoppingList {
            identifier: "l4".to_string(),
            name: Some("Ignored".to_string()),
            ..Default::default()
        }],
        ..Default::default()
    }
}

#[test]
fn lists_are_the_named_new_lists() {
    let lists = lists_from_response(response());
    assert_eq!(lists.len(), 2);
    assert_eq!(lists[0].id, "l1");
    assert_eq!(lists[0].name, "Groceries");
    assert_eq!(lists[0].items.len(), 1);
    assert_eq!(lists[0].shared_users.len(), 1);
    assert_eq!(lists[0].shared_users[0].user_id, "u1");
    assert_eq!(lists[1].id, "l3");
    assert!(lists[1].items.is_empty());
    assert!(lists_from_user_data(None).is_empty());
    assert_eq!(lists_from_user_data(Some(&response())).len(), 2);
}

#[test]
fn find_list_takes_the_first_match() {
    let lists: Vec<List> = lists_from_response(response());
    assert_eq!(find_list_by_id(lists.clone(), "l3").unwrap().id, "l3");
    assert_eq!(find_list_by_name(lists.clone(), "Groceries").unwrap().id, "l1");
    match find_list_by_id(lists.clone(), "l2") {
        Err(AnyListError::NotFound(msg)) => assert_eq!(msg, "List with ID l2 not found"),
        other => panic!("unexpected: {:?}", other),
    }
    match find_list_by_name(lists, "Other") {
        Err(AnyListError::NotFound(msg)) => assert_eq!(msg, "List with name 'Other' not found"),
        other => panic!("unexpected: {:?}", other),
    }
}

#[test]
fn test_parse_list_with_shared_users() {
    let response = ShoppingListsResponse {
        new_lists: vec![
            ShoppingList {
                identifier: "private".to_string(),
                name: Some("Private".to_string()),
                ..Default::default()
            },
            ShoppingList {
                identifier: "shared".to_string(),
                name: Some("Shared".to_string()),
                shared_users: vec![
                    PbEmailUserIdPair {
                        email: Some("owner@example.com".to_string()),
                        user_id: Some("cda21b0078644a01b640c84d3d74187e".to_string()),
                        full_name: Some("Owner".to_string()),
                    },
                    PbEmailUserIdPair {
                        email: Some("guest@example.com".to_string()),
                        user_id: Some("58ec2be417b247d7a9edc2d9d66889ab".to_string()),
                        full_name: None,
                    },
                ],
                ..Default::default()
            },
        ],
        ..Default::default()
    };

    let lists = lists_from_response(response);

    // Verify lists were parsed
    assert!(!lists.is_empty(), "Should have at least one list");

    // Find list with shared users
    let list_with_users = lists.iter().find(|l| !l.shared_users.is_empty());

    assert!(
        list_with_users.is_some(),
        "Expected at least one list with shared users"
    );

    let list = list_with_users.unwrap();

    // Verify shared_users structure
    assert!(!list.shared_users.is_empty(), "shared_users should not be empty");

    let user = &list.shared_users[0];
    assert!(!user.user_id.is_empty(), "user_id should be populated");

    // Verify optional fields exist
    assert!(
        user.email.is_some() || user.full_name.is_some(),
        "Either email or full_name should be populated"
    );

    assert_eq!(list.name, "Shared");
    assert_eq!(list.shared_users.len(), 2);
    assert_eq!(list.shared_users[1].full_name, None);
}
