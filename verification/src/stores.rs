//! Stores and store filters of a shopping list: how they are read out of the
//! service's responses, and the operations that change them.

use crate::error::AnyListError;
use crate::operations::{
    build_delete_store_filter_operation, build_update_store_filter_operation,
    delete_store_filter_operation, update_store_filter_operation, DeleteStoreFilterParams,
    DeleteStoreFilterParamsView, UpdateStoreFilterParams, UpdateStoreFilterParamsView,
};
use crate::protobuf::anylist::pb_operation_metadata::OperationClass;
use crate::protobuf::anylist::{
    PbListOperation, PbListOperationList, PbListOperationListView, PbListOperationView,
    PbListResponse, PbListResponseView, PbOperationMetadata, PbOperationMetadataView, PbStore,
    PbStoreFilterView, PbStoreView, ShoppingListsResponse,
    ShoppingListsResponseView,
};
use crate::sequences::{
    clone_strings, contains_str, filter_map, first_equal_from, lemma_filter_map_ends,
    lemma_filter_map_step, position_of, without, without_str,
};
use crate::text::str_eq;
use vstd::prelude::*;
use vstd::string::StringExecFns;

verus! {

/// Represents a store associated with a list.
#[derive(Debug, Clone)]
pub struct Store {
    pub id: String,
    pub name: String,
    pub sort_index: i32,
}

/// The mathematical value of a [`Store`].
#[verifier::ext_equal]
pub ghost struct StoreView {
    pub id: Seq<char>,
    pub name: Seq<char>,
    pub sort_index: i32,
}

impl DeepView for Store {
    type V = StoreView;

    open spec fn deep_view(&self) -> StoreView {
        StoreView {
            id: self.id.deep_view(),
            name: self.name.deep_view(),
            sort_index: self.sort_index.deep_view(),
        }
    }
}

/// Represents a store filter: a named selection of stores of a list.
#[derive(Debug, Clone)]
pub struct StoreFilter {
    pub id: String,
    pub name: String,
    pub store_ids: Vec<String>,
}

/// The mathematical value of a [`StoreFilter`].
#[verifier::ext_equal]
pub ghost struct StoreFilterView {
    pub id: Seq<char>,
    pub name: Seq<char>,
    pub store_ids: Seq<Seq<char>>,
}

impl DeepView for StoreFilter {
    type V = StoreFilterView;

    open spec fn deep_view(&self) -> StoreFilterView {
        StoreFilterView {
            id: self.id.deep_view(),
            name: self.name.deep_view(),
            store_ids: self.store_ids.deep_view(),
        }
    }
}

/// The request that creates a store: the new store, first among the stores of its list.
pub open spec fn create_store_operation(
    list_id: Seq<char>,
    name: Seq<char>,
    store_id: Seq<char>,
    operation_id: Seq<char>,
    user_id: Seq<char>,
) -> PbListOperationListView {
    PbListOperationListView {
        operations: seq![
            PbListOperationView {
                metadata: Some(
                    PbOperationMetadataView {
                        operation_id: Some(operation_id),
                        handler_id: Some("new-store"@),
                        user_id: Some(user_id),
                        operation_class: Some(OperationClass::StoreOperation.number()),
                    },
                ),
                list_id: Some(list_id),
                updated_store: Some(
                    PbStoreView {
                        identifier: store_id,
                        list_id: Some(list_id),
                        name: Some(name),
                        sort_index: Some(0),
                        ..PbStoreView::blank()
                    },
                ),
                ..PbListOperationView::blank()
            },
        ],
    }
}

/// Build the operation that creates a store for a list.
pub fn build_create_store_operation(
    list_id: &str,
    name: &str,
    store_id: &str,
    operation_id: &str,
    user_id: &str,
) -> (list: PbListOperationList)
    ensures
        list.deep_view() == create_store_operation(
            list_id@,
            name@,
            store_id@,
            operation_id@,
            user_id@,
        ),
{
    let list = PbListOperationList {
        operations: vec![
            PbListOperation {
                metadata: Some(
                    PbOperationMetadata {
                        operation_id: Some(operation_id.to_owned()),
                        handler_id: Some("new-store".to_owned()),
                        user_id: Some(user_id.to_owned()),
                        operation_class: Some(OperationClass::StoreOperation.to_i32()),
                    },
                ),
                list_id: Some(list_id.to_owned()),
                updated_store: Some(
                    PbStore {
                        identifier: store_id.to_owned(),
                        list_id: Some(list_id.to_owned()),
                        name: Some(name.to_owned()),
                        sort_index: Some(0),
                        ..PbStore::default()
                    },
                ),
                ..PbListOperation::default()
            },
        ],
    };
    list
}

/// The request that renames a store: the new name as the updated value, and the store under
/// its new name.
pub open spec fn update_store_operation(
    list_id: Seq<char>,
    store_id: Seq<char>,
    new_name: Seq<char>,
    operation_id: Seq<char>,
    user_id: Seq<char>,
) -> PbListOperationListView {
    PbListOperationListView {
        operations: seq![
            PbListOperationView {
                metadata: Some(
                    PbOperationMetadataView {
                        operation_id: Some(operation_id),
                        handler_id: Some("set-store-name"@),
                        user_id: Some(user_id),
                        operation_class: Some(OperationClass::StoreOperation.number()),
                    },
                ),
                list_id: Some(list_id),
                updated_value: Some(new_name),
                updated_store: Some(
                    PbStoreView {
                        identifier: store_id,
                        logical_timestamp: Some(1),
                        list_id: Some(list_id),
                        name: Some(new_name),
                        sort_index: Some(0),
                        ..PbStoreView::blank()
                    },
                ),
                ..PbListOperationView::blank()
            },
        ],
    }
}

/// Build the operation that changes a store's name.
pub fn build_update_store_operation(
    list_id: &str,
    store_id: &str,
    new_name: &str,
    operation_id: &str,
    user_id: &str,
) -> (list: PbListOperationList)
    ensures
        list.deep_view() == update_store_operation(
            list_id@,
            store_id@,
            new_name@,
            operation_id@,
            user_id@,
        ),
{
    let list = PbListOperationList {
        operations: vec![
            PbListOperation {
                metadata: Some(
                    PbOperationMetadata {
                        operation_id: Some(operation_id.to_owned()),
                        handler_id: Some("set-store-name".to_owned()),
                        user_id: Some(user_id.to_owned()),
                        operation_class: Some(OperationClass::StoreOperation.to_i32()),
                    },
                ),
                list_id: Some(list_id.to_owned()),
                updated_value: Some(new_name.to_owned()),
                updated_store: Some(
                    PbStore {
                        identifier: store_id.to_owned(),
                        logical_timestamp: Some(1),
                        list_id: Some(list_id.to_owned()),
                        name: Some(new_name.to_owned()),
                        sort_index: Some(0),
                        ..PbStore::default()
                    },
                ),
                ..PbListOperation::default()
            },
        ],
    };
    list
}

/// The store that a protobuf store stands for, if it has a name; a missing sort
/// index reads as zero.
pub open spec fn store_of(store: PbStoreView) -> Option<StoreView> {
    match store.name {
        Some(name) => Some(
            StoreView {
                id: store.identifier,
                name,
                sort_index: match store.sort_index {
                    Some(index) => index,
                    None => 0,
                },
            },
        ),
        None => None,
    }
}

/// The store filter that a protobuf store filter stands for, if it has a name.
pub open spec fn store_filter_of(filter: PbStoreFilterView) -> Option<StoreFilterView> {
    match filter.name {
        Some(name) => Some(
            StoreFilterView { id: filter.identifier, name, store_ids: filter.store_ids },
        ),
        None => None,
    }
}

/// Position of the first per-list response for the given list, if there is one.
pub open spec fn list_response_for(
    responses: Seq<PbListResponseView>,
    list_id: Seq<char>,
) -> Option<
    int,
> {
    position_of(responses.map_values(|r: PbListResponseView| r.list_id), Some(list_id))
}

/// The stores of a list in a response, if the response speaks of the list.
pub open spec fn stores_of(
    response: Option<ShoppingListsResponseView>,
    list_id: Seq<char>,
) -> Option<
    Seq<StoreView>,
> {
    match response {
        Some(r) => match list_response_for(r.list_responses, list_id) {
            Some(i) => Some(
                filter_map(r.list_responses[i].stores, |store: PbStoreView| store_of(store)),
            ),
            None => None,
        },
        None => None,
    }
}

/// The store filters of a list in a response, if the response speaks of the list.
pub open spec fn store_filters_of(
    response: Option<ShoppingListsResponseView>,
    list_id: Seq<char>,
) -> Option<Seq<StoreFilterView>> {
    match response {
        Some(r) => match list_response_for(r.list_responses, list_id) {
            Some(i) => Some(
                filter_map(
                    r.list_responses[i].store_filters,
                    |filter: PbStoreFilterView| store_filter_of(filter),
                ),
            ),
            None => None,
        },
        None => None,
    }
}

/// The words that report a list that a response does not speak of.
pub open spec fn list_not_found(list_id: Seq<char>) -> Seq<char> {
    "List with ID "@ + list_id + " not found"@
}

/// Find the per-list response for the given list: the first one, if several are for
/// it.
fn find_list_response<'a>(responses: &'a Vec<PbListResponse>, list_id: &str) -> (found: Option<
    &'a PbListResponse,
>)
    ensures
        match list_response_for(responses.deep_view(), list_id@) {
            Some(i) => found matches Some(r) && r.deep_view() == responses.deep_view()[i],
            None => found is None,
        },
{
    let ghost all = responses.deep_view();
    let ghost ids = all.map_values(|r: PbListResponseView| r.list_id);
    let mut i: usize = 0;
    while i < responses.len()
        invariant
            i <= responses.len(),
            all == responses.deep_view(),
            ids == all.map_values(|r: PbListResponseView| r.list_id),
            first_equal_from(ids, Some(list_id@), 0) == first_equal_from(
                ids,
                Some(list_id@),
                i as int,
            ),
        decreases responses.len() - i,
    {
        let response = &responses[i];
        let matches = match &response.list_id {
            Some(id) => str_eq(id.as_str(), list_id),
            None => false,
        };
        if matches {
            return Some(response);
        }
        i += 1;
    }
    None
}

/// The words that report a list that a response does not speak of.
fn list_not_found_error(list_id: &str) -> (error: AnyListError)
    ensures
        error matches AnyListError::NotFound(msg) && msg@ == list_not_found(list_id@),
{
    AnyListError::NotFound("List with ID ".to_owned().concat(list_id).concat(" not found"))
}

/// Read the stores of a list out of a response; stores without a name are left out.
/// Fails when the response does not speak of the list.
pub fn stores_for_list(response: Option<&ShoppingListsResponse>, list_id: &str) -> (stores: Result<
    Vec<Store>,
    AnyListError,
>)
    ensures
        match stores_of(response.deep_view(), list_id@) {
            Some(expected) => stores matches Ok(found) && found.deep_view() == expected,
            None => stores matches Err(AnyListError::NotFound(msg)) && msg@ == list_not_found(
                list_id@,
            ),
        },
{
    let found = match response {
        Some(r) => find_list_response(&r.list_responses, list_id),
        None => None,
    };
    let list_response = match found {
        Some(list_response) => list_response,
        None => {
            return Err(list_not_found_error(list_id));
        },
    };
    let ghost f = |store: PbStoreView| store_of(store);
    let ghost all = list_response.stores.deep_view();
    let mut stores: Vec<Store> = Vec::new();
    let mut i: usize = 0;
    while i < list_response.stores.len()
        invariant
            i <= list_response.stores.len(),
            all == list_response.stores.deep_view(),
            f == |store: PbStoreView| store_of(store),
            stores.deep_view() == filter_map(all.take(i as int), f),
        decreases list_response.stores.len() - i,
    {
        let store = &list_response.stores[i];
        proof {
            lemma_filter_map_step(all, f, i as int);
        }
        if let Some(name) = &store.name {
            let sort_index = match store.sort_index {
                Some(index) => index,
                None => 0,
            };
            let converted = Store { id: store.identifier.clone(), name: name.clone(), sort_index };
            stores.push(converted);
        }
        i += 1;
    }
    proof {
        lemma_filter_map_ends(all, f);
    }
    Ok(stores)
}

/// Read the store filters of a list out of a response; filters without a name are
/// left out. Fails when the response does not speak of the list.
pub fn store_filters_for_list(response: Option<&ShoppingListsResponse>, list_id: &str) -> (filters:
    Result<Vec<StoreFilter>, AnyListError>)
    ensures
        match store_filters_of(response.deep_view(), list_id@) {
            Some(expected) => filters matches Ok(found) && found.deep_view() == expected,
            None => filters matches Err(AnyListError::NotFound(msg)) && msg@ == list_not_found(
                list_id@,
            ),
        },
{
    let found = match response {
        Some(r) => find_list_response(&r.list_responses, list_id),
        None => None,
    };
    let list_response = match found {
        Some(list_response) => list_response,
        None => {
            return Err(list_not_found_error(list_id));
        },
    };
    let ghost f = |filter: PbStoreFilterView| store_filter_of(filter);
    let ghost all = list_response.store_filters.deep_view();
    let mut filters: Vec<StoreFilter> = Vec::new();
    let mut i: usize = 0;
    while i < list_response.store_filters.len()
        invariant
            i <= list_response.store_filters.len(),
            all == list_response.store_filters.deep_view(),
            f == |filter: PbStoreFilterView| store_filter_of(filter),
            filters.deep_view() == filter_map(all.take(i as int), f),
        decreases list_response.store_filters.len() - i,
    {
        let filter = &list_response.store_filters[i];
        proof {
            lemma_filter_map_step(all, f, i as int);
        }
        if let Some(name) = &filter.name {
            let converted = StoreFilter {
                id: filter.identifier.clone(),
                name: name.clone(),
                store_ids: clone_strings(&filter.store_ids),
            };
            filters.push(converted);
        }
        i += 1;
    }
    proof {
        lemma_filter_map_ends(all, f);
    }
    Ok(filters)
}

/// What deleting a store asks of a filter: nothing if the filter does not select
/// the store; else the filter is deleted if the store was its only one, and updated
/// to its other stores if not.
pub open spec fn filter_operation_without_store(
    filter: StoreFilterView,
    list_id: Seq<char>,
    store_id: Seq<char>,
    operation_id: Seq<char>,
    user_id: Seq<char>,
) -> Option<PbListOperationListView> {
    if !filter.store_ids.contains(store_id) {
        None
    } else if without(filter.store_ids, store_id).len() == 0 {
        Some(
            delete_store_filter_operation(
                DeleteStoreFilterParamsView {
                    filter_id: filter.id,
                    list_id,
                    filter_name: filter.name,
                    operation_id,
                    user_id,
                },
            ),
        )
    } else {
        Some(
            update_store_filter_operation(
                UpdateStoreFilterParamsView {
                    filter_id: filter.id,
                    list_id,
                    filter_name: filter.name,
                    store_ids: without(filter.store_ids, store_id),
                    operation_id,
                    user_id,
                },
            ),
        )
    }
}

/// Build the operation, if any, that takes a store out of a store filter.
pub fn build_filter_operation_without_store(
    filter: &StoreFilter,
    list_id: &str,
    store_id: &str,
    operation_id: &str,
    user_id: &str,
) -> (operation: Option<PbListOperationList>)
    ensures
        operation.deep_view() == filter_operation_without_store(
            filter.deep_view(),
            list_id@,
            store_id@,
            operation_id@,
            user_id@,
        ),
{
    if !contains_str(&filter.store_ids, store_id) {
        return None;
    }
    let updated_store_ids = without_str(&filter.store_ids, store_id);
    if updated_store_ids.len() == 0 {
        let params = DeleteStoreFilterParams {
            filter_id: filter.id.clone(),
            list_id: list_id.to_owned(),
            filter_name: filter.name.clone(),
            operation_id: operation_id.to_owned(),
            user_id: user_id.to_owned(),
        };
        Some(build_delete_store_filter_operation(params))
    } else {
        let params = UpdateStoreFilterParams {
            filter_id: filter.id.clone(),
            list_id: list_id.to_owned(),
            filter_name: filter.name.clone(),
            store_ids: updated_store_ids,
            operation_id: operation_id.to_owned(),
            user_id: user_id.to_owned(),
        };
        Some(build_update_store_filter_operation(params))
    }
}

/// The store that `build_create_store_operation` asks the service to create, as
/// the application sees it.
pub fn new_store(store_id: &str, name: &str) -> (store: Store)
    ensures
        store.deep_view() == (StoreView { id: store_id@, name: name@, sort_index: 0 }),
{
    Store { id: store_id.to_owned(), name: name.to_owned(), sort_index: 0 }
}

} // verus!
