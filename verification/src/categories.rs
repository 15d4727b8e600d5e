//! Categories of a shopping list, and the operations that create, rename and delete
//! them.

use crate::protobuf::anylist::pb_operation_metadata::OperationClass;
use crate::protobuf::anylist::{
    PbListCategory, PbListCategoryView, PbListOperation, PbListOperationList,
    PbListOperationListView, PbListOperationView, PbOperationMetadata, PbOperationMetadataView,
};
use vstd::prelude::*;

verus! {

/// Represents a category within a list.
#[derive(Debug, Clone)]
pub struct Category {
    pub id: String,
    pub name: String,
    pub icon: Option<String>,
    pub sort_index: i32,
}

/// The mathematical value of a [`Category`].
#[verifier::ext_equal]
pub ghost struct CategoryView {
    pub id: Seq<char>,
    pub name: Seq<char>,
    pub icon: Option<Seq<char>>,
    pub sort_index: i32,
}

impl DeepView for Category {
    type V = CategoryView;

    open spec fn deep_view(&self) -> CategoryView {
        CategoryView {
            id: self.id.deep_view(),
            name: self.name.deep_view(),
            icon: self.icon.deep_view(),
            sort_index: self.sort_index.deep_view(),
        }
    }
}

/// Represents a category group (collection of categories for a list).
#[derive(Debug, Clone)]
pub struct CategoryGroup {
    pub id: String,
    pub name: String,
    pub categories: Vec<Category>,
}

/// The mathematical value of a [`CategoryGroup`].
#[verifier::ext_equal]
pub ghost struct CategoryGroupView {
    pub id: Seq<char>,
    pub name: Seq<char>,
    pub categories: Seq<CategoryView>,
}

impl DeepView for CategoryGroup {
    type V = CategoryGroupView;

    open spec fn deep_view(&self) -> CategoryGroupView {
        CategoryGroupView {
            id: self.id.deep_view(),
            name: self.name.deep_view(),
            categories: self.categories.deep_view(),
        }
    }
}

/// The request that creates a category: the new category, first in its group.
pub open spec fn create_category_operation(
    list_id: Seq<char>,
    category_group_id: Seq<char>,
    name: Seq<char>,
    category_id: Seq<char>,
    operation_id: Seq<char>,
    user_id: Seq<char>,
) -> PbListOperationListView {
    PbListOperationListView {
        operations: seq![
            PbListOperationView {
                metadata: Some(
                    PbOperationMetadataView {
                        operation_id: Some(operation_id),
                        handler_id: Some("create-category"@),
                        user_id: Some(user_id),
                        operation_class: Some(OperationClass::ListCategoryOperation.number()),
                    },
                ),
                list_id: Some(list_id),
                updated_category: Some(
                    PbListCategoryView {
                        identifier: Some(category_id),
                        logical_timestamp: Some(1),
                        category_group_id: Some(category_group_id),
                        list_id: Some(list_id),
                        name: Some(name),
                        sort_index: Some(0),
                        ..PbListCategoryView::blank()
                    },
                ),
                ..PbListOperationView::blank()
            },
        ],
    }
}

/// Build the operation that creates a category in a category group of a list.
pub fn build_create_category_operation(
    list_id: &str,
    category_group_id: &str,
    name: &str,
    category_id: &str,
    operation_id: &str,
    user_id: &str,
) -> (list: PbListOperationList)
    ensures
        list.deep_view() == create_category_operation(
            list_id@,
            category_group_id@,
            name@,
            category_id@,
            operation_id@,
            user_id@,
        ),
{
    let list = PbListOperationList {
        operations: vec![
            PbListOperation {
                metadata: Some(
                    PbOperationMetadata {
                        operation_id: Some(operation_id.to_owned()),
                        handler_id: Some("create-category".to_owned()),
                        user_id: Some(user_id.to_owned()),
                        operation_class: Some(OperationClass::ListCategoryOperation.to_i32()),
                    },
                ),
                list_id: Some(list_id.to_owned()),
                updated_category: Some(
                    PbListCategory {
                        identifier: Some(category_id.to_owned()),
                        logical_timestamp: Some(1),
                        category_group_id: Some(category_group_id.to_owned()),
                        list_id: Some(list_id.to_owned()),
                        name: Some(name.to_owned()),
                        sort_index: Some(0),
                        ..PbListCategory::default()
                    },
                ),
                ..PbListOperation::default()
            },
        ],
    };
    list
}

/// The request that deletes a category: the category travels as the original value.
pub open spec fn delete_category_operation(
    list_id: Seq<char>,
    category_id: Seq<char>,
    operation_id: Seq<char>,
    user_id: Seq<char>,
) -> PbListOperationListView {
    PbListOperationListView {
        operations: seq![
            PbListOperationView {
                metadata: Some(
                    PbOperationMetadataView {
                        operation_id: Some(operation_id),
                        handler_id: Some("remove-category"@),
                        user_id: Some(user_id),
                        operation_class: Some(OperationClass::ListCategoryOperation.number()),
                    },
                ),
                list_id: Some(list_id),
                original_value: Some(category_id),
                ..PbListOperationView::blank()
            },
        ],
    }
}

/// Build the operation that deletes a category from a list.
pub fn build_delete_category_operation(
    list_id: &str,
    category_id: &str,
    operation_id: &str,
    user_id: &str,
) -> (list: PbListOperationList)
    ensures
        list.deep_view() == delete_category_operation(
            list_id@,
            category_id@,
            operation_id@,
            user_id@,
        ),
{
    let list = PbListOperationList {
        operations: vec![
            PbListOperation {
                metadata: Some(
                    PbOperationMetadata {
                        operation_id: Some(operation_id.to_owned()),
                        handler_id: Some("remove-category".to_owned()),
                        user_id: Some(user_id.to_owned()),
                        operation_class: Some(OperationClass::ListCategoryOperation.to_i32()),
                    },
                ),
                list_id: Some(list_id.to_owned()),
                original_value: Some(category_id.to_owned()),
                ..PbListOperation::default()
            },
        ],
    };
    list
}

/// The request that renames a category: the new name as the updated value, and the category
/// under its new name.
pub open spec fn rename_category_operation(
    list_id: Seq<char>,
    category_group_id: Seq<char>,
    category_id: Seq<char>,
    new_name: Seq<char>,
    operation_id: Seq<char>,
    user_id: Seq<char>,
) -> PbListOperationListView {
    PbListOperationListView {
        operations: seq![
            PbListOperationView {
                metadata: Some(
                    PbOperationMetadataView {
                        operation_id: Some(operation_id),
                        handler_id: Some("set-category-name"@),
                        user_id: Some(user_id),
                        operation_class: Some(OperationClass::ListCategoryOperation.number()),
                    },
                ),
                list_id: Some(list_id),
                updated_value: Some(new_name),
                updated_category: Some(
                    PbListCategoryView {
                        identifier: Some(category_id),
                        logical_timestamp: Some(1),
                        category_group_id: Some(category_group_id),
                        list_id: Some(list_id),
                        name: Some(new_name),
                        sort_index: Some(0),
                        ..PbListCategoryView::blank()
                    },
                ),
                ..PbListOperationView::blank()
            },
        ],
    }
}

/// Build the operation that renames a category.
pub fn build_rename_category_operation(
    list_id: &str,
    category_group_id: &str,
    category_id: &str,
    new_name: &str,
    operation_id: &str,
    user_id: &str,
) -> (list: PbListOperationList)
    ensures
        list.deep_view() == rename_category_operation(
            list_id@,
            category_group_id@,
            category_id@,
            new_name@,
            operation_id@,
            user_id@,
        ),
{
    let list = PbListOperationList {
        operations: vec![
            PbListOperation {
                metadata: Some(
                    PbOperationMetadata {
                        operation_id: Some(operation_id.to_owned()),
                        handler_id: Some("set-category-name".to_owned()),
                        user_id: Some(user_id.to_owned()),
                        operation_class: Some(OperationClass::ListCategoryOperation.to_i32()),
                    },
                ),
                list_id: Some(list_id.to_owned()),
                updated_value: Some(new_name.to_owned()),
                updated_category: Some(
                    PbListCategory {
                        identifier: Some(category_id.to_owned()),
                        logical_timestamp: Some(1),
                        category_group_id: Some(category_group_id.to_owned()),
                        list_id: Some(list_id.to_owned()),
                        name: Some(new_name.to_owned()),
                        sort_index: Some(0),
                        ..PbListCategory::default()
                    },
                ),
                ..PbListOperation::default()
            },
        ],
    };
    list
}

/// The category that `build_create_category_operation` asks the service to create,
/// as the application sees it.
pub fn new_category(category_id: &str, name: &str) -> (category: Category)
    ensures
        category.deep_view() == (CategoryView {
            id: category_id@,
            name: name@,
            icon: None,
            sort_index: 0,
        }),
{
    Category { id: category_id.to_owned(), name: name.to_owned(), icon: None, sort_index: 0 }
}

} // verus!
