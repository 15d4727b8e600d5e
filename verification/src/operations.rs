//! Pure builders of the edit operations sent to the service. Each takes the values
//! that make up one request and returns the message to encode; none has side effects.

use crate::protobuf::anylist::pb_operation_metadata::OperationClass;
use crate::protobuf::anylist::{
    Double, ListItem, ListItemView, PbListItemCategoryAssignment,
    PbListItemCategoryAssignmentView, PbListOperation, PbListOperationList,
    PbListOperationListView, PbListOperationView, PbOperationMetadata, PbOperationMetadataView,
    PbStore, PbStoreFilter, PbStoreFilterView, PbStoreView, ShoppingList, ShoppingListView,
};
use crate::text::clone_opt;
use vstd::prelude::*;

verus! {

// List operations

/// Parameters for creating a shopping list operation.
#[derive(Debug, Clone)]
pub struct CreateListParams {
    pub list_id: String,
    pub operation_id: String,
    pub user_id: String,
    pub timestamp: Double,
    pub name: String,
}

/// The mathematical value of a [`CreateListParams`].
#[verifier::ext_equal]
pub ghost struct CreateListParamsView {
    pub list_id: Seq<char>,
    pub operation_id: Seq<char>,
    pub user_id: Seq<char>,
    pub timestamp: Double,
    pub name: Seq<char>,
}

impl DeepView for CreateListParams {
    type V = CreateListParamsView;

    open spec fn deep_view(&self) -> CreateListParamsView {
        CreateListParamsView {
            list_id: self.list_id.deep_view(),
            operation_id: self.operation_id.deep_view(),
            user_id: self.user_id.deep_view(),
            timestamp: self.timestamp.deep_view(),
            name: self.name.deep_view(),
        }
    }
}

/// The request that creates a list: one operation carrying the new, empty list.
pub open spec fn create_list_operation(p: CreateListParamsView) -> PbListOperationListView {
    PbListOperationListView {
        operations: seq![
            PbListOperationView {
                metadata: Some(
                    PbOperationMetadataView {
                        operation_id: Some(p.operation_id),
                        handler_id: Some("new-shopping-list"@),
                        user_id: Some(p.user_id),
                        operation_class: Some(OperationClass::UndefinedOperation.number()),
                    },
                ),
                list_id: Some(p.list_id),
                list: Some(
                    ShoppingListView {
                        identifier: p.list_id,
                        timestamp: Some(p.timestamp),
                        name: Some(p.name),
                        creator: Some(p.user_id),
                        logical_clock_time: Some(1),
                        allows_multiple_list_category_groups: Some(true),
                        list_item_sort_order: Some(0),
                        new_list_item_position: Some(0),
                        ..ShoppingListView::blank()
                    },
                ),
                ..PbListOperationView::blank()
            },
        ],
    }
}

/// Build a create-list operation.
pub fn build_create_list_operation(params: CreateListParams) -> (list: PbListOperationList)
    ensures
        list.deep_view() == create_list_operation(params.deep_view()),
{
    let list = PbListOperationList {
        operations: vec![
            PbListOperation {
                metadata: Some(
                    PbOperationMetadata {
                        operation_id: Some(params.operation_id.clone()),
                        handler_id: Some("new-shopping-list".to_owned()),
                        user_id: Some(params.user_id.clone()),
                        operation_class: Some(OperationClass::UndefinedOperation.to_i32()),
                    },
                ),
                list_id: Some(params.list_id.clone()),
                list: Some(
                    ShoppingList {
                        identifier: params.list_id.clone(),
                        timestamp: Some(params.timestamp),
                        name: Some(params.name.clone()),
                        creator: Some(params.user_id.clone()),
                        logical_clock_time: Some(1),
                        allows_multiple_list_category_groups: Some(true),
                        list_item_sort_order: Some(0),
                        new_list_item_position: Some(0),
                        ..ShoppingList::default()
                    },
                ),
                ..PbListOperation::default()
            },
        ],
    };
    list
}

/// Parameters for deleting a list.
#[derive(Debug, Clone)]
pub struct DeleteListParams {
    pub list_id: String,
    pub operation_id: String,
    pub user_id: String,
}

/// The mathematical value of a [`DeleteListParams`].
#[verifier::ext_equal]
pub ghost struct DeleteListParamsView {
    pub list_id: Seq<char>,
    pub operation_id: Seq<char>,
    pub user_id: Seq<char>,
}

impl DeepView for DeleteListParams {
    type V = DeleteListParamsView;

    open spec fn deep_view(&self) -> DeleteListParamsView {
        DeleteListParamsView {
            list_id: self.list_id.deep_view(),
            operation_id: self.operation_id.deep_view(),
            user_id: self.user_id.deep_view(),
        }
    }
}

/// The request that deletes a list: one operation naming the list.
pub open spec fn delete_list_operation(p: DeleteListParamsView) -> PbListOperationListView {
    PbListOperationListView {
        operations: seq![
            PbListOperationView {
                metadata: Some(
                    PbOperationMetadataView {
                        operation_id: Some(p.operation_id),
                        handler_id: Some("delete-list"@),
                        user_id: Some(p.user_id),
                        operation_class: Some(OperationClass::UndefinedOperation.number()),
                    },
                ),
                list_id: Some(p.list_id),
                ..PbListOperationView::blank()
            },
        ],
    }
}

/// Build a delete-list operation.
pub fn build_delete_list_operation(params: DeleteListParams) -> (list: PbListOperationList)
    ensures
        list.deep_view() == delete_list_operation(params.deep_view()),
{
    let list = PbListOperationList {
        operations: vec![
            PbListOperation {
                metadata: Some(
                    PbOperationMetadata {
                        operation_id: Some(params.operation_id.clone()),
                        handler_id: Some("delete-list".to_owned()),
                        user_id: Some(params.user_id.clone()),
                        operation_class: Some(OperationClass::UndefinedOperation.to_i32()),
                    },
                ),
                list_id: Some(params.list_id.clone()),
                ..PbListOperation::default()
            },
        ],
    };
    list
}

/// Parameters for renaming a list.
#[derive(Debug, Clone)]
pub struct RenameListParams {
    pub list_id: String,
    pub operation_id: String,
    pub user_id: String,
    pub timestamp: Double,
    pub old_name: String,
    pub new_name: String,
}

/// The mathematical value of a [`RenameListParams`].
#[verifier::ext_equal]
pub ghost struct RenameListParamsView {
    pub list_id: Seq<char>,
    pub operation_id: Seq<char>,
    pub user_id: Seq<char>,
    pub timestamp: Double,
    pub old_name: Seq<char>,
    pub new_name: Seq<char>,
}

impl DeepView for RenameListParams {
    type V = RenameListParamsView;

    open spec fn deep_view(&self) -> RenameListParamsView {
        RenameListParamsView {
            list_id: self.list_id.deep_view(),
            operation_id: self.operation_id.deep_view(),
            user_id: self.user_id.deep_view(),
            timestamp: self.timestamp.deep_view(),
            old_name: self.old_name.deep_view(),
            new_name: self.new_name.deep_view(),
        }
    }
}

/// The request that renames a list: one operation carrying the old name and the list under
/// its new name.
pub open spec fn rename_list_operation(p: RenameListParamsView) -> PbListOperationListView {
    PbListOperationListView {
        operations: seq![
            PbListOperationView {
                metadata: Some(
                    PbOperationMetadataView {
                        operation_id: Some(p.operation_id),
                        handler_id: Some("rename-list"@),
                        user_id: Some(p.user_id),
                        operation_class: Some(OperationClass::UndefinedOperation.number()),
                    },
                ),
                list_id: Some(p.list_id),
                original_value: Some(p.old_name),
                list: Some(
                    ShoppingListView {
                        identifier: p.list_id,
                        timestamp: Some(p.timestamp),
                        name: Some(p.new_name),
                        creator: Some(p.user_id),
                        logical_clock_time: None,
                        allows_multiple_list_category_groups: Some(true),
                        list_item_sort_order: Some(0),
                        new_list_item_position: Some(0),
                        ..ShoppingListView::blank()
                    },
                ),
                ..PbListOperationView::blank()
            },
        ],
    }
}

/// Build a rename-list operation.
pub fn build_rename_list_operation(params: RenameListParams) -> (list: PbListOperationList)
    ensures
        list.deep_view() == rename_list_operation(params.deep_view()),
{
    let list = PbListOperationList {
        operations: vec![
            PbListOperation {
                metadata: Some(
                    PbOperationMetadata {
                        operation_id: Some(params.operation_id.clone()),
                        handler_id: Some("rename-list".to_owned()),
                        user_id: Some(params.user_id.clone()),
                        operation_class: Some(OperationClass::UndefinedOperation.to_i32()),
                    },
                ),
                list_id: Some(params.list_id.clone()),
                original_value: Some(params.old_name.clone()),
                list: Some(
                    ShoppingList {
                        identifier: params.list_id.clone(),
                        timestamp: Some(params.timestamp),
                        name: Some(params.new_name.clone()),
                        creator: Some(params.user_id.clone()),
                        logical_clock_time: None,
                        allows_multiple_list_category_groups: Some(true),
                        list_item_sort_order: Some(0),
                        new_list_item_position: Some(0),
                        ..ShoppingList::default()
                    },
                ),
                ..PbListOperation::default()
            },
        ],
    };
    list
}

// Store operations

/// Parameters for removing a store from items.
#[derive(Debug, Clone)]
pub struct RemoveStoreFromItemsParams {
    pub list_id: String,
    pub store_id: String,
    pub operation_id: String,
    pub user_id: String,
}

/// The mathematical value of a [`RemoveStoreFromItemsParams`].
#[verifier::ext_equal]
pub ghost struct RemoveStoreFromItemsParamsView {
    pub list_id: Seq<char>,
    pub store_id: Seq<char>,
    pub operation_id: Seq<char>,
    pub user_id: Seq<char>,
}

impl DeepView for RemoveStoreFromItemsParams {
    type V = RemoveStoreFromItemsParamsView;

    open spec fn deep_view(&self) -> RemoveStoreFromItemsParamsView {
        RemoveStoreFromItemsParamsView {
            list_id: self.list_id.deep_view(),
            store_id: self.store_id.deep_view(),
            operation_id: self.operation_id.deep_view(),
            user_id: self.user_id.deep_view(),
        }
    }
}

/// The request that takes a store off every item of a list: the store travels as the updated value.
pub open spec fn remove_store_from_items_operation(
    p: RemoveStoreFromItemsParamsView,
) -> PbListOperationListView {
    PbListOperationListView {
        operations: seq![
            PbListOperationView {
                metadata: Some(
                    PbOperationMetadataView {
                        operation_id: Some(p.operation_id),
                        handler_id: Some("remove-store-id-from-all-items"@),
                        user_id: Some(p.user_id),
                        operation_class: Some(OperationClass::UndefinedOperation.number()),
                    },
                ),
                list_id: Some(p.list_id),
                updated_value: Some(p.store_id),
                ..PbListOperationView::blank()
            },
        ],
    }
}

/// Build a remove-store-from-items operation.
pub fn build_remove_store_from_items_operation(
    params: RemoveStoreFromItemsParams,
) -> (list: PbListOperationList)
    ensures
        list.deep_view() == remove_store_from_items_operation(params.deep_view()),
{
    let list = PbListOperationList {
        operations: vec![
            PbListOperation {
                metadata: Some(
                    PbOperationMetadata {
                        operation_id: Some(params.operation_id.clone()),
                        handler_id: Some("remove-store-id-from-all-items".to_owned()),
                        user_id: Some(params.user_id.clone()),
                        operation_class: Some(OperationClass::UndefinedOperation.to_i32()),
                    },
                ),
                list_id: Some(params.list_id.clone()),
                updated_value: Some(params.store_id.clone()),
                ..PbListOperation::default()
            },
        ],
    };
    list
}

/// Parameters for updating a store filter.
#[derive(Debug, Clone)]
pub struct UpdateStoreFilterParams {
    pub filter_id: String,
    pub list_id: String,
    pub filter_name: String,
    pub store_ids: Vec<String>,
    pub operation_id: String,
    pub user_id: String,
}

/// The mathematical value of an [`UpdateStoreFilterParams`].
#[verifier::ext_equal]
pub ghost struct UpdateStoreFilterParamsView {
    pub filter_id: Seq<char>,
    pub list_id: Seq<char>,
    pub filter_name: Seq<char>,
    pub store_ids: Seq<Seq<char>>,
    pub operation_id: Seq<char>,
    pub user_id: Seq<char>,
}

impl DeepView for UpdateStoreFilterParams {
    type V = UpdateStoreFilterParamsView;

    open spec fn deep_view(&self) -> UpdateStoreFilterParamsView {
        UpdateStoreFilterParamsView {
            filter_id: self.filter_id.deep_view(),
            list_id: self.list_id.deep_view(),
            filter_name: self.filter_name.deep_view(),
            store_ids: self.store_ids.deep_view(),
            operation_id: self.operation_id.deep_view(),
            user_id: self.user_id.deep_view(),
        }
    }
}

/// The request that updates a store filter: the filter with its new stores.
pub open spec fn update_store_filter_operation(
    p: UpdateStoreFilterParamsView,
) -> PbListOperationListView {
    PbListOperationListView {
        operations: seq![
            PbListOperationView {
                metadata: Some(
                    PbOperationMetadataView {
                        operation_id: Some(p.operation_id),
                        handler_id: Some("update-store-filter"@),
                        user_id: Some(p.user_id),
                        operation_class: Some(OperationClass::UndefinedOperation.number()),
                    },
                ),
                list_id: Some(p.list_id),
                updated_store_filter: Some(
                    PbStoreFilterView {
                        identifier: p.filter_id,
                        list_id: Some(p.list_id),
                        name: Some(p.filter_name),
                        store_ids: p.store_ids,
                        ..PbStoreFilterView::blank()
                    },
                ),
                ..PbListOperationView::blank()
            },
        ],
    }
}

/// Build an update-store-filter operation.
pub fn build_update_store_filter_operation(
    params: UpdateStoreFilterParams,
) -> (list: PbListOperationList)
    ensures
        list.deep_view() == update_store_filter_operation(params.deep_view()),
{
    let list = PbListOperationList {
        operations: vec![
            PbListOperation {
                metadata: Some(
                    PbOperationMetadata {
                        operation_id: Some(params.operation_id.clone()),
                        handler_id: Some("update-store-filter".to_owned()),
                        user_id: Some(params.user_id.clone()),
                        operation_class: Some(OperationClass::UndefinedOperation.to_i32()),
                    },
                ),
                list_id: Some(params.list_id.clone()),
                updated_store_filter: Some(
                    PbStoreFilter {
                        identifier: params.filter_id.clone(),
                        list_id: Some(params.list_id.clone()),
                        name: Some(params.filter_name.clone()),
                        store_ids: params.store_ids,
                        ..PbStoreFilter::default()
                    },
                ),
                ..PbListOperation::default()
            },
        ],
    };
    list
}

/// Parameters for deleting a store filter.
#[derive(Debug, Clone)]
pub struct DeleteStoreFilterParams {
    pub filter_id: String,
    pub list_id: String,
    pub filter_name: String,
    pub operation_id: String,
    pub user_id: String,
}

/// The mathematical value of a [`DeleteStoreFilterParams`].
#[verifier::ext_equal]
pub ghost struct DeleteStoreFilterParamsView {
    pub filter_id: Seq<char>,
    pub list_id: Seq<char>,
    pub filter_name: Seq<char>,
    pub operation_id: Seq<char>,
    pub user_id: Seq<char>,
}

impl DeepView for DeleteStoreFilterParams {
    type V = DeleteStoreFilterParamsView;

    open spec fn deep_view(&self) -> DeleteStoreFilterParamsView {
        DeleteStoreFilterParamsView {
            filter_id: self.filter_id.deep_view(),
            list_id: self.list_id.deep_view(),
            filter_name: self.filter_name.deep_view(),
            operation_id: self.operation_id.deep_view(),
            user_id: self.user_id.deep_view(),
        }
    }
}

/// The request that deletes a store filter: the filter, holding no stores.
pub open spec fn delete_store_filter_operation(
    p: DeleteStoreFilterParamsView,
) -> PbListOperationListView {
    PbListOperationListView {
        operations: seq![
            PbListOperationView {
                metadata: Some(
                    PbOperationMetadataView {
                        operation_id: Some(p.operation_id),
                        handler_id: Some("delete-store-filter"@),
                        user_id: Some(p.user_id),
                        operation_class: Some(OperationClass::UndefinedOperation.number()),
                    },
                ),
                list_id: Some(p.list_id),
                updated_store_filter: Some(
                    PbStoreFilterView {
                        identifier: p.filter_id,
                        list_id: Some(p.list_id),
                        name: Some(p.filter_name),
                        store_ids: Seq::empty(),
                        ..PbStoreFilterView::blank()
                    },
                ),
                ..PbListOperationView::blank()
            },
        ],
    }
}

/// Build a delete-store-filter operation.
pub fn build_delete_store_filter_operation(
    params: DeleteStoreFilterParams,
) -> (list: PbListOperationList)
    ensures
        list.deep_view() == delete_store_filter_operation(params.deep_view()),
{
    let list = PbListOperationList {
        operations: vec![
            PbListOperation {
                metadata: Some(
                    PbOperationMetadata {
                        operation_id: Some(params.operation_id.clone()),
                        handler_id: Some("delete-store-filter".to_owned()),
                        user_id: Some(params.user_id.clone()),
                        operation_class: Some(OperationClass::UndefinedOperation.to_i32()),
                    },
                ),
                list_id: Some(params.list_id.clone()),
                updated_store_filter: Some(
                    PbStoreFilter {
                        identifier: params.filter_id.clone(),
                        list_id: Some(params.list_id.clone()),
                        name: Some(params.filter_name.clone()),
                        store_ids: Vec::new(),
                        ..PbStoreFilter::default()
                    },
                ),
                ..PbListOperation::default()
            },
        ],
    };
    assert(list.deep_view() =~~= delete_store_filter_operation(params.deep_view()));
    list
}

/// Parameters for deleting a store.
#[derive(Debug, Clone)]
pub struct DeleteStoreParams {
    pub store_id: String,
    pub store_name: Option<String>,
    pub list_id: String,
    pub operation_id: String,
    pub user_id: String,
}

/// The mathematical value of a [`DeleteStoreParams`].
#[verifier::ext_equal]
pub ghost struct DeleteStoreParamsView {
    pub store_id: Seq<char>,
    pub store_name: Option<Seq<char>>,
    pub list_id: Seq<char>,
    pub operation_id: Seq<char>,
    pub user_id: Seq<char>,
}

impl DeepView for DeleteStoreParams {
    type V = DeleteStoreParamsView;

    open spec fn deep_view(&self) -> DeleteStoreParamsView {
        DeleteStoreParamsView {
            store_id: self.store_id.deep_view(),
            store_name: self.store_name.deep_view(),
            list_id: self.list_id.deep_view(),
            operation_id: self.operation_id.deep_view(),
            user_id: self.user_id.deep_view(),
        }
    }
}

/// The request that deletes a store: the store travels whole as the updated store.
pub open spec fn delete_store_operation(p: DeleteStoreParamsView) -> PbListOperationListView {
    PbListOperationListView {
        operations: seq![
            PbListOperationView {
                metadata: Some(
                    PbOperationMetadataView {
                        operation_id: Some(p.operation_id),
                        handler_id: Some("delete-store"@),
                        user_id: Some(p.user_id),
                        operation_class: Some(OperationClass::UndefinedOperation.number()),
                    },
                ),
                list_id: Some(p.list_id),
                updated_store: Some(
                    PbStoreView {
                        identifier: p.store_id,
                        name: p.store_name,
                        list_id: Some(p.list_id),
                        ..PbStoreView::blank()
                    },
                ),
                ..PbListOperationView::blank()
            },
        ],
    }
}

/// Build a delete-store operation.
pub fn build_delete_store_operation(params: DeleteStoreParams) -> (list: PbListOperationList)
    ensures
        list.deep_view() == delete_store_operation(params.deep_view()),
{
    let list = PbListOperationList {
        operations: vec![
            PbListOperation {
                metadata: Some(
                    PbOperationMetadata {
                        operation_id: Some(params.operation_id.clone()),
                        handler_id: Some("delete-store".to_owned()),
                        user_id: Some(params.user_id.clone()),
                        operation_class: Some(OperationClass::UndefinedOperation.to_i32()),
                    },
                ),
                list_id: Some(params.list_id.clone()),
                updated_store: Some(
                    PbStore {
                        identifier: params.store_id.clone(),
                        name: clone_opt(&params.store_name),
                        list_id: Some(params.list_id.clone()),
                        ..PbStore::default()
                    },
                ),
                ..PbListOperation::default()
            },
        ],
    };
    list
}

// Item operations

/// Category assignment for an item.
#[derive(Debug, Clone)]
pub struct CategoryAssignment {
    pub identifier: String,
    pub category_group_id: String,
    pub category_id: String,
}

/// The mathematical value of a [`CategoryAssignment`].
#[verifier::ext_equal]
pub ghost struct CategoryAssignmentView {
    pub identifier: Seq<char>,
    pub category_group_id: Seq<char>,
    pub category_id: Seq<char>,
}

impl DeepView for CategoryAssignment {
    type V = CategoryAssignmentView;

    open spec fn deep_view(&self) -> CategoryAssignmentView {
        CategoryAssignmentView {
            identifier: self.identifier.deep_view(),
            category_group_id: self.category_group_id.deep_view(),
            category_id: self.category_id.deep_view(),
        }
    }
}

/// Parameters for adding an item to a list.
#[derive(Debug, Clone)]
pub struct AddItemParams {
    pub item_id: String,
    pub list_id: String,
    pub operation_id: String,
    pub user_id: String,
    pub name: String,
    pub category: Option<String>,
    pub category_match_id: Option<String>,
    pub category_assignment: Option<CategoryAssignment>,
}

/// The mathematical value of an [`AddItemParams`].
#[verifier::ext_equal]
pub ghost struct AddItemParamsView {
    pub item_id: Seq<char>,
    pub list_id: Seq<char>,
    pub operation_id: Seq<char>,
    pub user_id: Seq<char>,
    pub name: Seq<char>,
    pub category: Option<Seq<char>>,
    pub category_match_id: Option<Seq<char>>,
    pub category_assignment: Option<CategoryAssignmentView>,
}

impl DeepView for AddItemParams {
    type V = AddItemParamsView;

    open spec fn deep_view(&self) -> AddItemParamsView {
        AddItemParamsView {
            item_id: self.item_id.deep_view(),
            list_id: self.list_id.deep_view(),
            operation_id: self.operation_id.deep_view(),
            user_id: self.user_id.deep_view(),
            name: self.name.deep_view(),
            category: self.category.deep_view(),
            category_match_id: self.category_match_id.deep_view(),
            category_assignment: self.category_assignment.deep_view(),
        }
    }
}

/// The request that adds an item: the item with its category, and its category assignment
/// if it has one.
pub open spec fn add_item_operation(p: AddItemParamsView) -> PbListOperationListView {
    PbListOperationListView {
        operations: seq![
            PbListOperationView {
                metadata: Some(
                    PbOperationMetadataView {
                        operation_id: Some(p.operation_id),
                        handler_id: Some("add-shopping-list-item"@),
                        user_id: Some(p.user_id),
                        operation_class: None,
                    },
                ),
                list_id: Some(p.list_id),
                list_item_id: Some(p.item_id),
                list_item: Some(
                    ListItemView {
                        identifier: p.item_id,
                        list_id: Some(p.list_id),
                        name: Some(p.name),
                        category: p.category,
                        user_id: Some(p.user_id),
                        category_match_id: p.category_match_id,
                        category_assignments: match p.category_assignment {
                            Some(assignment) => seq![
                                PbListItemCategoryAssignmentView {
                                    identifier: Some(assignment.identifier),
                                    category_group_id: Some(assignment.category_group_id),
                                    category_id: Some(assignment.category_id),
                                },
                            ],
                            None => Seq::empty(),
                        },
                        ..ListItemView::blank()
                    },
                ),
                ..PbListOperationView::blank()
            },
        ],
    }
}

/// Build an add-item operation.
pub fn build_add_item_operation(params: AddItemParams) -> (list: PbListOperationList)
    ensures
        list.deep_view() == add_item_operation(params.deep_view()),
{
    let list = PbListOperationList {
        operations: vec![
            PbListOperation {
                metadata: Some(
                    PbOperationMetadata {
                        operation_id: Some(params.operation_id.clone()),
                        handler_id: Some("add-shopping-list-item".to_owned()),
                        user_id: Some(params.user_id.clone()),
                        operation_class: None,
                    },
                ),
                list_id: Some(params.list_id.clone()),
                list_item_id: Some(params.item_id.clone()),
                list_item: Some(
                    ListItem {
                        identifier: params.item_id.clone(),
                        list_id: Some(params.list_id.clone()),
                        name: Some(params.name.clone()),
                        category: clone_opt(&params.category),
                        user_id: Some(params.user_id.clone()),
                        category_match_id: clone_opt(&params.category_match_id),
                        category_assignments: match params.category_assignment {
                            Some(assignment) => vec![
                                PbListItemCategoryAssignment {
                                    identifier: Some(assignment.identifier),
                                    category_group_id: Some(assignment.category_group_id),
                                    category_id: Some(assignment.category_id),
                                },
                            ],
                            None => Vec::new(),
                        },
                        ..ListItem::default()
                    },
                ),
                ..PbListOperation::default()
            },
        ],
    };
    assert(list.deep_view() =~~= add_item_operation(params.deep_view()));
    list
}

} // verus!
