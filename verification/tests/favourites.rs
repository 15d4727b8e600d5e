use anylist_rs::favourites::{
    all_favourites, default_favourites_list, favourites_lists_from_batch_response,
    favourites_lists_from_user_data, find_favourites_for_list, transform_favourite_items,
    FavouriteItem, FavouritesList,
};
use anylist_rs::protobuf::anylist::{
    ListItem as PbListItem, StarterList, StarterListBatchResponse, StarterListResponse,
    StarterListsResponseV2,
};
use anylist_rs::AnyListError;

#[test]
fn test_transform_favourite_items_handles_empty() {
    let items: Vec<PbListItem> = vec![];
    let result = transform_favourite_items(&items, "test-list");
    assert!(result.is_empty());
}

#[test]
fn test_transform_favourite_items_filters_nameless() {
    let items = vec![
        PbListItem {
            identifier: "id1".to_string(),
            name: Some("Milk".to_string()),
            ..Default::default()
        },
        PbListItem {
            identifier: "id2".to_string(),
            name: None, // Should be filtered out
            ..Default::default()
        },
    ];

    let result = transform_favourite_items(&items, "test-list");
    assert_eq!(result.len(), 1);
    assert_eq!(result[0].name, "Milk");
}

#[test]
fn test_transform_favourite_items_preserves_fields() {
    let items = vec![PbListItem {
        identifier: "item-123".to_string(),
        name: Some("Organic Apples".to_string()),
        quantity: Some("2 lbs".to_string()),
        details: Some("Honeycrisp preferred".to_string()),
        category: Some("Produce".to_string()),
        ..Default::default()
    }];

    let result = transform_favourite_items(&items, "list-456");

    assert_eq!(result.len(), 1);
    let item = &result[0];
    assert_eq!(item.id, "item-123");
    assert_eq!(item.list_id, "list-456");
    assert_eq!(item.name, "Organic Apples");
    assert_eq!(item.quantity, Some("2 lbs".to_string()));
    assert_eq!(item.details, Some("Honeycrisp preferred".to_string()));
    assert_eq!(item.category, Some("Produce".to_string()));
}

fn named_item(id: &str, name: &str) -> PbListItem {
    PbListItem {
        identifier: id.to_string(),
        name: Some(name.to_string()),
        ..Default::default()
    }
}

fn starter_list(id: &str, name: Option<&str>, list_id: Option<&str>, items: Vec<PbListItem>) -> StarterListResponse {
    StarterListResponse {
        starter_list: Some(StarterList {
            identifier: id.to_string(),
            name: name.map(|n| n.to_string()),
            list_id: list_id.map(|l| l.to_string()),
            items,
            ..Default::default()
        }),
    }
}

fn sample_batch() -> StarterListBatchResponse {
    StarterListBatchResponse {
        list_responses: vec![
            starter_list("fav-1", Some("Weekly"), Some("list-1"), vec![named_item("a", "Milk")]),
            StarterListResponse { starter_list: None },
            starter_list(
                "fav-2",
                None,
                None,
                vec![named_item("b", "Eggs"), PbListItem::default(), named_item("c", "Tea")],
            ),
        ],
        ..Default::default()
    }
}

#[test]
fn favourites_lists_skip_responses_without_a_list() {
    let lists = favourites_lists_from_batch_response(&sample_batch());
    assert_eq!(lists.len(), 2);
    assert_eq!(lists[0].id, "fav-1");
    assert_eq!(lists[0].name, "Weekly");
    assert_eq!(lists[0].shopping_list_id, Some("list-1".to_string()));
    assert_eq!(lists[0].items.len(), 1);
    assert_eq!(lists[0].items[0].list_id, "fav-1");
    assert_eq!(lists[1].id, "fav-2");
    assert_eq!(lists[1].name, "");
    assert_eq!(lists[1].shopping_list_id, None);
    let names: Vec<&str> = lists[1].items.iter().map(|i| i.name.as_str()).collect();
    assert_eq!(names, vec!["Eggs", "Tea"]);
}

#[test]
fn favourites_lists_of_user_data() {
    assert!(favourites_lists_from_user_data(None).is_empty());
    let without_batch = StarterListsResponseV2::default();
    assert!(favourites_lists_from_user_data(Some(&without_batch)).is_empty());
    let with_batch = StarterListsResponseV2 {
        favorite_item_lists_response: Some(sample_batch()),
        ..Default::default()
    };
    assert_eq!(favourites_lists_from_user_data(Some(&with_batch)).len(), 2);
}

#[test]
fn all_favourites_come_list_after_list() {
    let lists = favourites_lists_from_batch_response(&sample_batch());
    let items: Vec<FavouriteItem> = all_favourites(&lists);
    let ids: Vec<&str> = items.iter().map(|i| i.id.as_str()).collect();
    assert_eq!(ids, vec!["a", "b", "c"]);
    assert!(all_favourites(&Vec::new()).is_empty());
}

#[test]
fn favourites_for_a_shopping_list() {
    let lists = favourites_lists_from_batch_response(&sample_batch());
    let found: FavouritesList = find_favourites_for_list(lists.clone(), "list-1").unwrap();
    assert_eq!(found.id, "fav-1");
    match find_favourites_for_list(lists, "list-9") {
        Err(AnyListError::NotFound(msg)) => {
            assert_eq!(msg, "No favourites list for shopping list list-9")
        }
        other => panic!("unexpected: {:?}", other),
    }
}

#[test]
fn the_default_favourites_list_is_the_first() {
    let lists = favourites_lists_from_batch_response(&sample_batch());
    assert_eq!(default_favourites_list(&lists).unwrap().id, "fav-1");
    match default_favourites_list(&Vec::new()) {
        Err(AnyListError::NotFound(msg)) => assert_eq!(msg, "No favourites list found"),
        other => panic!("unexpected: {:?}", other),
    }
}
