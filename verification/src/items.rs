//! Items of a shopping list: the operations that add, change, check off and delete
//! them, and the look-ups those operations start from.

use crate::error::AnyListError;
use crate::lists::{List, ListItem, ListItemView};
use crate::protobuf::anylist::pb_operation_metadata::OperationClass;
use crate::protobuf::anylist::{
    Double, ListItem as PbListItem, ListItemView as PbListItemView, PbListOperation,
    PbListOperationList, PbListOperationListView, PbListOperationView, PbOperationMetadata,
    PbOperationMetadataView,
};
use crate::sequences::{
    filter_map, first_equal_from, lemma_filter_map_ends, lemma_filter_map_step, position_of,
};
use crate::text::{bool_text, bool_text_of, clone_opt, owned_opt, str_eq};
use vstd::prelude::*;
use vstd::string::StringExecFns;

verus! {

/// The request that adds an item with its details: the new, unchecked item.
pub open spec fn add_item_with_details_operation(
    list_id: Seq<char>,
    name: Seq<char>,
    quantity: Option<Seq<char>>,
    details: Option<Seq<char>>,
    category: Option<Seq<char>>,
    item_id: Seq<char>,
    timestamp: Double,
    operation_id: Seq<char>,
    user_id: Seq<char>,
) -> PbListOperationListView {
    PbListOperationListView {
        operations: seq![
            PbListOperationView {
                metadata: Some(
                    PbOperationMetadataView {
                        operation_id: Some(operation_id),
                        handler_id: Some("add-shopping-list-item"@),
                        user_id: Some(user_id),
                        operation_class: Some(OperationClass::UndefinedOperation.number()),
                    },
                ),
                list_id: Some(list_id),
                list_item_id: Some(item_id),
                list_item: Some(
                    PbListItemView {
                        identifier: item_id,
                        server_mod_time: Some(timestamp),
                        list_id: Some(list_id),
                        name: Some(name),
                        quantity: quantity,
                        details: details,
                        checked: Some(false),
                        category: category,
                        user_id: Some(user_id),
                        manual_sort_index: Some(0),
                        ..PbListItemView::blank()
                    },
                ),
                ..PbListOperationView::blank()
            },
        ],
    }
}

/// Build the operation that adds an item with quantity, details and category.
pub fn build_add_item_with_details_operation(
    list_id: &str,
    name: &str,
    quantity: Option<&str>,
    details: Option<&str>,
    category: Option<&str>,
    item_id: &str,
    timestamp: Double,
    operation_id: &str,
    user_id: &str,
) -> (list: PbListOperationList)
    ensures
        list.deep_view() == add_item_with_details_operation(
            list_id@,
            name@,
            quantity.deep_view(),
            details.deep_view(),
            category.deep_view(),
            item_id@,
            timestamp,
            operation_id@,
            user_id@,
        ),
{
    let list = PbListOperationList {
        operations: vec![
            PbListOperation {
                metadata: Some(
                    PbOperationMetadata {
                        operation_id: Some(operation_id.to_owned()),
                        handler_id: Some("add-shopping-list-item".to_owned()),
                        user_id: Some(user_id.to_owned()),
                        operation_class: Some(OperationClass::UndefinedOperation.to_i32()),
                    },
                ),
                list_id: Some(list_id.to_owned()),
                list_item_id: Some(item_id.to_owned()),
                list_item: Some(
                    PbListItem {
                        identifier: item_id.to_owned(),
                        server_mod_time: Some(timestamp),
                        list_id: Some(list_id.to_owned()),
                        name: Some(name.to_owned()),
                        quantity: owned_opt(quantity),
                        details: owned_opt(details),
                        checked: Some(false),
                        category: owned_opt(category),
                        user_id: Some(user_id.to_owned()),
                        manual_sort_index: Some(0),
                        ..PbListItem::default()
                    },
                ),
                ..PbListOperation::default()
            },
        ],
    };
    list
}

/// The request that updates an item: the item as it shall be, unchecked.
pub open spec fn update_item_operation(
    list_id: Seq<char>,
    name: Seq<char>,
    quantity: Option<Seq<char>>,
    details: Option<Seq<char>>,
    category: Option<Seq<char>>,
    item_id: Seq<char>,
    timestamp: Double,
    operation_id: Seq<char>,
    user_id: Seq<char>,
) -> PbListOperationListView {
    PbListOperationListView {
        operations: seq![
            PbListOperationView {
                metadata: Some(
                    PbOperationMetadataView {
                        operation_id: Some(operation_id),
                        handler_id: Some("update-list-item"@),
                        user_id: Some(user_id),
                        operation_class: Some(OperationClass::UndefinedOperation.number()),
                    },
                ),
                list_id: Some(list_id),
                list_item_id: Some(item_id),
                list_item: Some(
                    PbListItemView {
                        identifier: item_id,
                        server_mod_time: Some(timestamp),
                        list_id: Some(list_id),
                        name: Some(name),
                        quantity: quantity,
                        details: details,
                        checked: Some(false),
                        category: category,
                        user_id: Some(user_id),
                        manual_sort_index: Some(0),
                        ..PbListItemView::blank()
                    },
                ),
                ..PbListOperationView::blank()
            },
        ],
    }
}

/// Build the operation that replaces an item by a new version of it.
pub fn build_update_item_operation(
    list_id: &str,
    name: &str,
    quantity: Option<&str>,
    details: Option<&str>,
    category: Option<&str>,
    item_id: &str,
    timestamp: Double,
    operation_id: &str,
    user_id: &str,
) -> (list: PbListOperationList)
    ensures
        list.deep_view() == update_item_operation(
            list_id@,
            name@,
            quantity.deep_view(),
            details.deep_view(),
            category.deep_view(),
            item_id@,
            timestamp,
            operation_id@,
            user_id@,
        ),
{
    let list = PbListOperationList {
        operations: vec![
            PbListOperation {
                metadata: Some(
                    PbOperationMetadata {
                        operation_id: Some(operation_id.to_owned()),
                        handler_id: Some("update-list-item".to_owned()),
                        user_id: Some(user_id.to_owned()),
                        operation_class: Some(OperationClass::UndefinedOperation.to_i32()),
                    },
                ),
                list_id: Some(list_id.to_owned()),
                list_item_id: Some(item_id.to_owned()),
                list_item: Some(
                    PbListItem {
                        identifier: item_id.to_owned(),
                        server_mod_time: Some(timestamp),
                        list_id: Some(list_id.to_owned()),
                        name: Some(name.to_owned()),
                        quantity: owned_opt(quantity),
                        details: owned_opt(details),
                        checked: Some(false),
                        category: owned_opt(category),
                        user_id: Some(user_id.to_owned()),
                        manual_sort_index: Some(0),
                        ..PbListItem::default()
                    },
                ),
                ..PbListOperation::default()
            },
        ],
    };
    list
}

/// The request that deletes an item: the IDs of list and item.
pub open spec fn delete_item_operation(
    list_id: Seq<char>,
    item_id: Seq<char>,
    operation_id: Seq<char>,
    user_id: Seq<char>,
) -> PbListOperationListView {
    PbListOperationListView {
        operations: seq![
            PbListOperationView {
                metadata: Some(
                    PbOperationMetadataView {
                        operation_id: Some(operation_id),
                        handler_id: Some("remove-shopping-list-item"@),
                        user_id: Some(user_id),
                        operation_class: Some(OperationClass::UndefinedOperation.number()),
                    },
                ),
                list_id: Some(list_id),
                list_item_id: Some(item_id),
                ..PbListOperationView::blank()
            },
        ],
    }
}

/// Build the operation that deletes an item from a list.
pub fn build_delete_item_operation(
    list_id: &str,
    item_id: &str,
    operation_id: &str,
    user_id: &str,
) -> (list: PbListOperationList)
    ensures
        list.deep_view() == delete_item_operation(list_id@, item_id@, operation_id@, user_id@),
{
    let list = PbListOperationList {
        operations: vec![
            PbListOperation {
                metadata: Some(
                    PbOperationMetadata {
                        operation_id: Some(operation_id.to_owned()),
                        handler_id: Some("remove-shopping-list-item".to_owned()),
                        user_id: Some(user_id.to_owned()),
                        operation_class: Some(OperationClass::UndefinedOperation.to_i32()),
                    },
                ),
                list_id: Some(list_id.to_owned()),
                list_item_id: Some(item_id.to_owned()),
                ..PbListOperation::default()
            },
        ],
    };
    list
}

/// The request that sets the check mark of an item: the new and the old mark as words, and
/// the item with the new mark.
pub open spec fn set_item_checked_operation(
    item: ListItemView,
    list_id: Seq<char>,
    item_id: Seq<char>,
    checked: bool,
    timestamp: Double,
    operation_id: Seq<char>,
    user_id: Seq<char>,
) -> PbListOperationListView {
    PbListOperationListView {
        operations: seq![
            PbListOperationView {
                metadata: Some(
                    PbOperationMetadataView {
                        operation_id: Some(operation_id),
                        handler_id: Some("set-list-item-checked"@),
                        user_id: Some(user_id),
                        operation_class: Some(OperationClass::UndefinedOperation.number()),
                    },
                ),
                list_id: Some(list_id),
                list_item_id: Some(item_id),
                updated_value: Some(bool_text_of(checked)),
                original_value: Some(bool_text_of(!checked)),
                list_item: Some(
                    PbListItemView {
                        identifier: item_id,
                        server_mod_time: Some(timestamp),
                        list_id: Some(list_id),
                        name: Some(item.name),
                        quantity: item.quantity,
                        details: Some(item.details),
                        checked: Some(checked),
                        category: item.category,
                        user_id: Some(user_id),
                        manual_sort_index: Some(0),
                        ..PbListItemView::blank()
                    },
                ),
                ..PbListOperationView::blank()
            },
        ],
    }
}

/// Build the operation that checks an item off, or takes the check mark back. The
/// item is sent whole, with what it held before.
pub fn build_set_item_checked_operation(
    item: &ListItem,
    list_id: &str,
    item_id: &str,
    checked: bool,
    timestamp: Double,
    operation_id: &str,
    user_id: &str,
) -> (list: PbListOperationList)
    ensures
        list.deep_view() == set_item_checked_operation(
            item.deep_view(),
            list_id@,
            item_id@,
            checked,
            timestamp,
            operation_id@,
            user_id@,
        ),
{
    let list = PbListOperationList {
        operations: vec![
            PbListOperation {
                metadata: Some(
                    PbOperationMetadata {
                        operation_id: Some(operation_id.to_owned()),
                        handler_id: Some("set-list-item-checked".to_owned()),
                        user_id: Some(user_id.to_owned()),
                        operation_class: Some(OperationClass::UndefinedOperation.to_i32()),
                    },
                ),
                list_id: Some(list_id.to_owned()),
                list_item_id: Some(item_id.to_owned()),
                updated_value: Some(bool_text(checked)),
                original_value: Some(bool_text(!checked)),
                list_item: Some(
                    PbListItem {
                        identifier: item_id.to_owned(),
                        server_mod_time: Some(timestamp),
                        list_id: Some(list_id.to_owned()),
                        name: Some(item.name.clone()),
                        quantity: clone_opt(&item.quantity),
                        details: Some(item.details.clone()),
                        checked: Some(checked),
                        category: clone_opt(&item.category),
                        user_id: Some(user_id.to_owned()),
                        manual_sort_index: Some(0),
                        ..PbListItem::default()
                    },
                ),
                ..PbListOperation::default()
            },
        ],
    };
    list
}

/// Position of the first item with the given ID, if there is one.
pub open spec fn item_with_id(items: Seq<ListItemView>, id: Seq<char>) -> Option<int> {
    position_of(items.map_values(|item: ListItemView| item.id), id)
}

/// The words that report an item not found by its ID.
pub open spec fn item_not_found(id: Seq<char>) -> Seq<char> {
    "Item with ID "@ + id + " not found"@
}

/// Pick the item of a list with the given ID: the first one, if several have it.
pub fn find_item<'a>(list: &'a List, item_id: &str) -> (found: Result<&'a ListItem, AnyListError>)
    ensures
        match item_with_id(list.deep_view().items, item_id@) {
            Some(i) => found matches Ok(item) && item.deep_view() == list.deep_view().items[i],
            None => found matches Err(AnyListError::NotFound(msg)) && msg@ == item_not_found(
                item_id@,
            ),
        },
{
    let ghost all = list.items.deep_view();
    let ghost ids = all.map_values(|item: ListItemView| item.id);
    let mut i: usize = 0;
    while i < list.items.len()
        invariant
            i <= list.items.len(),
            all == list.items.deep_view(),
            all == list.deep_view().items,
            ids == all.map_values(|item: ListItemView| item.id),
            first_equal_from(ids, item_id@, 0) == first_equal_from(ids, item_id@, i as int),
        decreases list.items.len() - i,
    {
        let item = &list.items[i];
        if str_eq(item.id.as_str(), item_id) {
            return Ok(item);
        }
        i += 1;
    }
    Err(AnyListError::NotFound("Item with ID ".to_owned().concat(item_id).concat(" not found")))
}

/// The ID of an item if it is checked off.
pub open spec fn crossed_off_id(item: ListItemView) -> Option<Seq<char>> {
    if item.is_checked {
        Some(item.id)
    } else {
        None
    }
}

/// The IDs of the items of a list that are checked off, in their order: the items
/// that deleting all crossed-off items deletes.
pub fn crossed_off_item_ids(list: &List) -> (ids: Vec<String>)
    ensures
        ids.deep_view() == filter_map(
            list.deep_view().items,
            |item: ListItemView| crossed_off_id(item),
        ),
{
    let ghost f = |item: ListItemView| crossed_off_id(item);
    let ghost all = list.items.deep_view();
    let mut ids: Vec<String> = Vec::new();
    let mut i: usize = 0;
    while i < list.items.len()
        invariant
            i <= list.items.len(),
            all == list.items.deep_view(),
            all == list.deep_view().items,
            f == |item: ListItemView| crossed_off_id(item),
            ids.deep_view() == filter_map(all.take(i as int), f),
        decreases list.items.len() - i,
    {
        let item = &list.items[i];
        proof {
            lemma_filter_map_step(all, f, i as int);
        }
        if item.is_checked {
            ids.push(item.id.clone());
        }
        i += 1;
    }
    proof {
        lemma_filter_map_ends(all, f);
    }
    ids
}

/// The item that `build_add_item_with_details_operation` asks the service to
/// create, as the application sees it: unchecked, with missing details read as
/// empty.
pub fn new_list_item(
    list_id: &str,
    name: &str,
    quantity: Option<&str>,
    details: Option<&str>,
    category: Option<&str>,
    item_id: &str,
    user_id: &str,
) -> (item: ListItem)
    ensures
        item.deep_view() == (ListItemView {
            id: item_id@,
            list_id: list_id@,
            name: name@,
            details: match details {
                Some(details) => details@,
                None => Seq::empty(),
            },
            is_checked: false,
            quantity: quantity.deep_view(),
            category: category.deep_view(),
            user_id: Some(user_id@),
        }),
{
    let details = match details {
        Some(details) => details.to_owned(),
        None => String::new(),
    };
    ListItem {
        id: item_id.to_owned(),
        list_id: list_id.to_owned(),
        name: name.to_owned(),
        details,
        is_checked: false,
        quantity: owned_opt(quantity),
        category: owned_opt(category),
        user_id: Some(user_id.to_owned()),
    }
}

} // verus!
