//! Edit operations and the lists that carry them to the server.

use crate::protobuf::anylist::account::{
    PbEmailUserIdPair,
    PbEmailUserIdPairView,
    PbNotificationLocation,
    PbNotificationLocationView,
    PbTimestamp,
    PbTimestampView,
};
use crate::protobuf::anylist::double::Double;
use crate::protobuf::anylist::lists::{
    ListItem,
    ListItemView,
    PbItemPrice,
    PbItemPriceView,
    PbListCategorizationRule,
    PbListCategorizationRuleView,
    PbListCategory,
    PbListCategoryGroup,
    PbListCategoryGroupView,
    PbListCategoryView,
    PbListFolder,
    PbListFolderItem,
    PbListFolderItemView,
    PbListFolderView,
    PbStore,
    PbStoreFilter,
    PbStoreFilterView,
    PbStoreView,
    ShoppingList,
    ShoppingListView,
    StarterList,
    StarterListView,
};
use vstd::prelude::*;

verus! {

/// The `PbOperationMetadata` message: operation metadata.
#[derive(Clone, PartialEq, Debug)]
pub struct PbOperationMetadata {
    pub operation_id: Option<String>,
    pub handler_id: Option<String>,
    pub user_id: Option<String>,
    pub operation_class: Option<i32>,
}

/// The mathematical value of a [`PbOperationMetadata`].
#[verifier::ext_equal]
pub ghost struct PbOperationMetadataView {
    pub operation_id: Option<Seq<char>>,
    pub handler_id: Option<Seq<char>>,
    pub user_id: Option<Seq<char>>,
    pub operation_class: Option<i32>,
}

impl PbOperationMetadataView {
    /// The message with no field set.
    pub open spec fn blank() -> PbOperationMetadataView {
        PbOperationMetadataView {
            operation_id: None,
            handler_id: None,
            user_id: None,
            operation_class: None,
        }
    }
}

impl DeepView for PbOperationMetadata {
    type V = PbOperationMetadataView;

    open spec fn deep_view(&self) -> PbOperationMetadataView {
        PbOperationMetadataView {
            operation_id: self.operation_id.deep_view(),
            handler_id: self.handler_id.deep_view(),
            user_id: self.user_id.deep_view(),
            operation_class: self.operation_class.deep_view(),
        }
    }
}

impl Default for PbOperationMetadata {
    /// The message with no field set.
    fn default() -> (message: Self)
        ensures
            message.deep_view() == PbOperationMetadataView::blank(),
    {
        PbOperationMetadata {
            operation_id: None,
            handler_id: None,
            user_id: None,
            operation_class: None,
        }
    }
}

/// The `PbFavoriteProductOperation` message: favorite product operation.
#[derive(Clone, PartialEq, Debug)]
pub struct PbFavoriteProductOperation {
    pub metadata: Option<PbOperationMetadata>,
    pub product_id: Option<String>,
}

/// The mathematical value of a [`PbFavoriteProductOperation`].
#[verifier::ext_equal]
pub ghost struct PbFavoriteProductOperationView {
    pub metadata: Option<PbOperationMetadataView>,
    pub product_id: Option<Seq<char>>,
}

impl PbFavoriteProductOperationView {
    /// The message with no field set.
    pub open spec fn blank() -> PbFavoriteProductOperationView {
        PbFavoriteProductOperationView {
            metadata: None,
            product_id: None,
        }
    }
}

impl DeepView for PbFavoriteProductOperation {
    type V = PbFavoriteProductOperationView;

    open spec fn deep_view(&self) -> PbFavoriteProductOperationView {
        PbFavoriteProductOperationView {
            metadata: self.metadata.deep_view(),
            product_id: self.product_id.deep_view(),
        }
    }
}

impl Default for PbFavoriteProductOperation {
    /// The message with no field set.
    fn default() -> (message: Self)
        ensures
            message.deep_view() == PbFavoriteProductOperationView::blank(),
    {
        PbFavoriteProductOperation {
            metadata: None,
            product_id: None,
        }
    }
}

/// The `PbFavoriteProductOperationList` message: favorite product operation list.
#[derive(Clone, PartialEq, Debug)]
pub struct PbFavoriteProductOperationList {
    pub operations: Vec<PbFavoriteProductOperation>,
}

/// The mathematical value of a [`PbFavoriteProductOperationList`].
#[verifier::ext_equal]
pub ghost struct PbFavoriteProductOperationListView {
    pub operations: Seq<PbFavoriteProductOperationView>,
}

impl PbFavoriteProductOperationListView {
    /// The message with no field set.
    pub open spec fn blank() -> PbFavoriteProductOperationListView {
        PbFavoriteProductOperationListView {
            operations: Seq::empty(),
        }
    }
}

impl DeepView for PbFavoriteProductOperationList {
    type V = PbFavoriteProductOperationListView;

    open spec fn deep_view(&self) -> PbFavoriteProductOperationListView {
        PbFavoriteProductOperationListView {
            operations: self.operations.deep_view(),
        }
    }
}

impl Default for PbFavoriteProductOperationList {
    /// The message with no field set.
    fn default() -> (message: Self)
        ensures
            message.deep_view() == PbFavoriteProductOperationListView::blank(),
    {
        let message = PbFavoriteProductOperationList {
            operations: Vec::new(),
        };
        assert(message.deep_view() =~~= PbFavoriteProductOperationListView::blank());
        message
    }
}

/// The `PbSavedRecipeOperation` message: saved recipe operation.
#[derive(Clone, PartialEq, Debug)]
pub struct PbSavedRecipeOperation {
    pub metadata: Option<PbOperationMetadata>,
    pub recipe_id: Option<String>,
}

/// The mathematical value of a [`PbSavedRecipeOperation`].
#[verifier::ext_equal]
pub ghost struct PbSavedRecipeOperationView {
    pub metadata: Option<PbOperationMetadataView>,
    pub recipe_id: Option<Seq<char>>,
}

impl PbSavedRecipeOperationView {
    /// The message with no field set.
    pub open spec fn blank() -> PbSavedRecipeOperationView {
        PbSavedRecipeOperationView {
            metadata: None,
            recipe_id: None,
        }
    }
}

impl DeepView for PbSavedRecipeOperation {
    type V = PbSavedRecipeOperationView;

    open spec fn deep_view(&self) -> PbSavedRecipeOperationView {
        PbSavedRecipeOperationView {
            metadata: self.metadata.deep_view(),
            recipe_id: self.recipe_id.deep_view(),
        }
    }
}

impl Default for PbSavedRecipeOperation {
    /// The message with no field set.
    fn default() -> (message: Self)
        ensures
            message.deep_view() == PbSavedRecipeOperationView::blank(),
    {
        PbSavedRecipeOperation {
            metadata: None,
            recipe_id: None,
        }
    }
}

/// The `PbSavedRecipeOperationList` message: saved recipe operation list.
#[derive(Clone, PartialEq, Debug)]
pub struct PbSavedRecipeOperationList {
    pub operations: Vec<PbSavedRecipeOperation>,
}

/// The mathematical value of a [`PbSavedRecipeOperationList`].
#[verifier::ext_equal]
pub ghost struct PbSavedRecipeOperationListView {
    pub operations: Seq<PbSavedRecipeOperationView>,
}

impl PbSavedRecipeOperationListView {
    /// The message with no field set.
    pub open spec fn blank() -> PbSavedRecipeOperationListView {
        PbSavedRecipeOperationListView {
            operations: Seq::empty(),
        }
    }
}

impl DeepView for PbSavedRecipeOperationList {
    type V = PbSavedRecipeOperationListView;

    open spec fn deep_view(&self) -> PbSavedRecipeOperationListView {
        PbSavedRecipeOperationListView {
            operations: self.operations.deep_view(),
        }
    }
}

impl Default for PbSavedRecipeOperationList {
    /// The message with no field set.
    fn default() -> (message: Self)
        ensures
            message.deep_view() == PbSavedRecipeOperationListView::blank(),
    {
        let message = PbSavedRecipeOperationList {
            operations: Vec::new(),
        };
        assert(message.deep_view() =~~= PbSavedRecipeOperationListView::blank());
        message
    }
}

/// The `PbOrderedShoppingListIDsOperation` message: ordered shopping listi ds operation.
#[derive(Clone, PartialEq, Debug)]
pub struct PbOrderedShoppingListIDsOperation {
    pub metadata: Option<PbOperationMetadata>,
    pub ordered_list_ids: Vec<String>,
}

/// The mathematical value of a [`PbOrderedShoppingListIDsOperation`].
#[verifier::ext_equal]
pub ghost struct PbOrderedShoppingListIDsOperationView {
    pub metadata: Option<PbOperationMetadataView>,
    pub ordered_list_ids: Seq<Seq<char>>,
}

impl PbOrderedShoppingListIDsOperationView {
    /// The message with no field set.
    pub open spec fn blank() -> PbOrderedShoppingListIDsOperationView {
        PbOrderedShoppingListIDsOperationView {
            metadata: None,
            ordered_list_ids: Seq::empty(),
        }
    }
}

impl DeepView for PbOrderedShoppingListIDsOperation {
    type V = PbOrderedShoppingListIDsOperationView;

    open spec fn deep_view(&self) -> PbOrderedShoppingListIDsOperationView {
        PbOrderedShoppingListIDsOperationView {
            metadata: self.metadata.deep_view(),
            ordered_list_ids: self.ordered_list_ids.deep_view(),
        }
    }
}

impl Default for PbOrderedShoppingListIDsOperation {
    /// The message with no field set.
    fn default() -> (message: Self)
        ensures
            message.deep_view() == PbOrderedShoppingListIDsOperationView::blank(),
    {
        let message = PbOrderedShoppingListIDsOperation {
            metadata: None,
            ordered_list_ids: Vec::new(),
        };
        assert(message.deep_view() =~~= PbOrderedShoppingListIDsOperationView::blank());
        message
    }
}

/// The `PbOrderedShoppingListIDsOperationList` message: ordered shopping listi ds operation list.
#[derive(Clone, PartialEq, Debug)]
pub struct PbOrderedShoppingListIDsOperationList {
    pub operations: Vec<PbOrderedShoppingListIDsOperation>,
}

/// The mathematical value of a [`PbOrderedShoppingListIDsOperationList`].
#[verifier::ext_equal]
pub ghost struct PbOrderedShoppingListIDsOperationListView {
    pub operations: Seq<PbOrderedShoppingListIDsOperationView>,
}

impl PbOrderedShoppingListIDsOperationListView {
    /// The message with no field set.
    pub open spec fn blank() -> PbOrderedShoppingListIDsOperationListView {
        PbOrderedShoppingListIDsOperationListView {
            operations: Seq::empty(),
        }
    }
}

impl DeepView for PbOrderedShoppingListIDsOperationList {
    type V = PbOrderedShoppingListIDsOperationListView;

    open spec fn deep_view(&self) -> PbOrderedShoppingListIDsOperationListView {
        PbOrderedShoppingListIDsOperationListView {
            operations: self.operations.deep_view(),
        }
    }
}

impl Default for PbOrderedShoppingListIDsOperationList {
    /// The message with no field set.
    fn default() -> (message: Self)
        ensures
            message.deep_view() == PbOrderedShoppingListIDsOperationListView::blank(),
    {
        let message = PbOrderedShoppingListIDsOperationList {
            operations: Vec::new(),
        };
        assert(message.deep_view() =~~= PbOrderedShoppingListIDsOperationListView::blank());
        message
    }
}

/// The `PbOrderedStarterListIDsOperation` message: ordered starter listi ds operation.
#[derive(Clone, PartialEq, Debug)]
pub struct PbOrderedStarterListIDsOperation {
    pub metadata: Option<PbOperationMetadata>,
    pub ordered_list_ids: Vec<String>,
}

/// The mathematical value of a [`PbOrderedStarterListIDsOperation`].
#[verifier::ext_equal]
pub ghost struct PbOrderedStarterListIDsOperationView {
    pub metadata: Option<PbOperationMetadataView>,
    pub ordered_list_ids: Seq<Seq<char>>,
}

impl PbOrderedStarterListIDsOperationView {
    /// The message with no field set.
    pub open spec fn blank() -> PbOrderedStarterListIDsOperationView {
        PbOrderedStarterListIDsOperationView {
            metadata: None,
            ordered_list_ids: Seq::empty(),
        }
    }
}

impl DeepView for PbOrderedStarterListIDsOperation {
    type V = PbOrderedStarterListIDsOperationView;

    open spec fn deep_view(&self) -> PbOrderedStarterListIDsOperationView {
        PbOrderedStarterListIDsOperationView {
            metadata: self.metadata.deep_view(),
            ordered_list_ids: self.ordered_list_ids.deep_view(),
        }
    }
}

impl Default for PbOrderedStarterListIDsOperation {
    /// The message with no field set.
    fn default() -> (message: Self)
        ensures
            message.deep_view() == PbOrderedStarterListIDsOperationView::blank(),
    {
        let message = PbOrderedStarterListIDsOperation {
            metadata: None,
            ordered_list_ids: Vec::new(),
        };
        assert(message.deep_view() =~~= PbOrderedStarterListIDsOperationView::blank());
        message
    }
}

/// The `PbOrderedStarterListIDsOperationList` message: ordered starter listi ds operation list.
#[derive(Clone, PartialEq, Debug)]
pub struct PbOrderedStarterListIDsOperationList {
    pub operations: Vec<PbOrderedStarterListIDsOperation>,
}

/// The mathematical value of a [`PbOrderedStarterListIDsOperationList`].
#[verifier::ext_equal]
pub ghost struct PbOrderedStarterListIDsOperationListView {
    pub operations: Seq<PbOrderedStarterListIDsOperationView>,
}

impl PbOrderedStarterListIDsOperationListView {
    /// The message with no field set.
    pub open spec fn blank() -> PbOrderedStarterListIDsOperationListView {
        PbOrderedStarterListIDsOperationListView {
            operations: Seq::empty(),
        }
    }
}

impl DeepView for PbOrderedStarterListIDsOperationList {
    type V = PbOrderedStarterListIDsOperationListView;

    open spec fn deep_view(&self) -> PbOrderedStarterListIDsOperationListView {
        PbOrderedStarterListIDsOperationListView {
            operations: self.operations.deep_view(),
        }
    }
}

impl Default for PbOrderedStarterListIDsOperationList {
    /// The message with no field set.
    fn default() -> (message: Self)
        ensures
            message.deep_view() == PbOrderedStarterListIDsOperationListView::blank(),
    {
        let message = PbOrderedStarterListIDsOperationList {
            operations: Vec::new(),
        };
        assert(message.deep_view() =~~= PbOrderedStarterListIDsOperationListView::blank());
        message
    }
}

/// The `PbListOperation` message: list operation.
#[derive(Clone, PartialEq, Debug)]
pub struct PbListOperation {
    pub metadata: Option<PbOperationMetadata>,
    pub list_id: Option<String>,
    pub list_item_id: Option<String>,
    pub updated_value: Option<String>,
    pub original_value: Option<String>,
    pub list_item: Option<ListItem>,
    pub list: Option<ShoppingList>,
    pub list_folder_id: Option<String>,
    pub notification_location: Option<PbNotificationLocation>,
    pub updated_store: Option<PbStore>,
    pub original_store: Option<PbStore>,
    pub sorted_store_ids: Vec<String>,
    pub updated_store_filter: Option<PbStoreFilter>,
    pub original_store_filter: Option<PbStoreFilter>,
    pub sorted_store_filter_ids: Vec<String>,
    pub item_price: Option<PbItemPrice>,
    pub updated_category: Option<PbListCategory>,
    pub original_category: Option<PbListCategory>,
    pub updated_category_group: Option<PbListCategoryGroup>,
    pub original_category_group: Option<PbListCategoryGroup>,
    pub updated_categorization_rule: Option<PbListCategorizationRule>,
    pub original_categorization_rule: Option<PbListCategorizationRule>,
    pub updated_categorization_rules: Vec<PbListCategorizationRule>,
}

/// The mathematical value of a [`PbListOperation`].
#[verifier::ext_equal]
pub ghost struct PbListOperationView {
    pub metadata: Option<PbOperationMetadataView>,
    pub list_id: Option<Seq<char>>,
    pub list_item_id: Option<Seq<char>>,
    pub updated_value: Option<Seq<char>>,
    pub original_value: Option<Seq<char>>,
    pub list_item: Option<ListItemView>,
    pub list: Option<ShoppingListView>,
    pub list_folder_id: Option<Seq<char>>,
    pub notification_location: Option<PbNotificationLocationView>,
    pub updated_store: Option<PbStoreView>,
    pub original_store: Option<PbStoreView>,
    pub sorted_store_ids: Seq<Seq<char>>,
    pub updated_store_filter: Option<PbStoreFilterView>,
    pub original_store_filter: Option<PbStoreFilterView>,
    pub sorted_store_filter_ids: Seq<Seq<char>>,
    pub item_price: Option<PbItemPriceView>,
    pub updated_category: Option<PbListCategoryView>,
    pub original_category: Option<PbListCategoryView>,
    pub updated_category_group: Option<PbListCategoryGroupView>,
    pub original_category_group: Option<PbListCategoryGroupView>,
    pub updated_categorization_rule: Option<PbListCategorizationRuleView>,
    pub original_categorization_rule: Option<PbListCategorizationRuleView>,
    pub updated_categorization_rules: Seq<PbListCategorizationRuleView>,
}

impl PbListOperationView {
    /// The message with no field set.
    pub open spec fn blank() -> PbListOperationView {
        PbListOperationView {
            metadata: None,
            list_id: None,
            list_item_id: None,
            updated_value: None,
            original_value: None,
            list_item: None,
            list: None,
            list_folder_id: None,
            notification_location: None,
            updated_store: None,
            original_store: None,
            sorted_store_ids: Seq::empty(),
            updated_store_filter: None,
            original_store_filter: None,
            sorted_store_filter_ids: Seq::empty(),
            item_price: None,
            updated_category: None,
            original_category: None,
            updated_category_group: None,
            original_category_group: None,
            updated_categorization_rule: None,
            original_categorization_rule: None,
            updated_categorization_rules: Seq::empty(),
        }
    }
}

impl DeepView for PbListOperation {
    type V = PbListOperationView;

    open spec fn deep_view(&self) -> PbListOperationView {
        PbListOperationView {
            metadata: self.metadata.deep_view(),
            list_id: self.list_id.deep_view(),
            list_item_id: self.list_item_id.deep_view(),
            updated_value: self.updated_value.deep_view(),
            original_value: self.original_value.deep_view(),
            list_item: self.list_item.deep_view(),
            list: self.list.deep_view(),
            list_folder_id: self.list_folder_id.deep_view(),
            notification_location: self.notification_location.deep_view(),
            updated_store: self.updated_store.deep_view(),
            original_store: self.original_store.deep_view(),
            sorted_store_ids: self.sorted_store_ids.deep_view(),
            updated_store_filter: self.updated_store_filter.deep_view(),
            original_store_filter: self.original_store_filter.deep_view(),
            sorted_store_filter_ids: self.sorted_store_filter_ids.deep_view(),
            item_price: self.item_price.deep_view(),
            updated_category: self.updated_category.deep_view(),
            original_category: self.original_category.deep_view(),
            updated_category_group: self.updated_category_group.deep_view(),
            original_category_group: self.original_category_group.deep_view(),
            updated_categorization_rule: self.updated_categorization_rule.deep_view(),
            original_categorization_rule: self.original_categorization_rule.deep_view(),
            updated_categorization_rules: self.updated_categorization_rules.deep_view(),
        }
    }
}

impl Default for PbListOperation {
    /// The message with no field set.
    fn default() -> (message: Self)
        ensures
            message.deep_view() == PbListOperationView::blank(),
    {
        let message = PbListOperation {
            metadata: None,
            list_id: None,
            list_item_id: None,
            updated_value: None,
            original_value: None,
            list_item: None,
            list: None,
            list_folder_id: None,
            notification_location: None,
            updated_store: None,
            original_store: None,
            sorted_store_ids: Vec::new(),
            updated_store_filter: None,
            original_store_filter: None,
            sorted_store_filter_ids: Vec::new(),
            item_price: None,
            updated_category: None,
            original_category: None,
            updated_category_group: None,
            original_category_group: None,
            updated_categorization_rule: None,
            original_categorization_rule: None,
            updated_categorization_rules: Vec::new(),
        };
        assert(message.deep_view() =~~= PbListOperationView::blank());
        message
    }
}

/// The `PbListOperationList` message: list operation list.
#[derive(Clone, PartialEq, Debug)]
pub struct PbListOperationList {
    pub operations: Vec<PbListOperation>,
}

/// The mathematical value of a [`PbListOperationList`].
#[verifier::ext_equal]
pub ghost struct PbListOperationListView {
    pub operations: Seq<PbListOperationView>,
}

impl PbListOperationListView {
    /// The message with no field set.
    pub open spec fn blank() -> PbListOperationListView {
        PbListOperationListView {
            operations: Seq::empty(),
        }
    }
}

impl DeepView for PbListOperationList {
    type V = PbListOperationListView;

    open spec fn deep_view(&self) -> PbListOperationListView {
        PbListOperationListView {
            operations: self.operations.deep_view(),
        }
    }
}

impl Default for PbListOperationList {
    /// The message with no field set.
    fn default() -> (message: Self)
        ensures
            message.deep_view() == PbListOperationListView::blank(),
    {
        let message = PbListOperationList {
            operations: Vec::new(),
        };
        assert(message.deep_view() =~~= PbListOperationListView::blank());
        message
    }
}

/// The `PbShareListOperationResponse` message: share list operation response.
#[derive(Clone, PartialEq, Debug)]
pub struct PbShareListOperationResponse {
    pub shared_user: Option<PbEmailUserIdPair>,
    pub original_list_timestamp: Option<Double>,
    pub updated_list_timestamp: Option<Double>,
    pub status_code: Option<i32>,
    pub error_title: Option<String>,
    pub error_message: Option<String>,
}

/// The mathematical value of a [`PbShareListOperationResponse`].
#[verifier::ext_equal]
pub ghost struct PbShareListOperationResponseView {
    pub shared_user: Option<PbEmailUserIdPairView>,
    pub original_list_timestamp: Option<Double>,
    pub updated_list_timestamp: Option<Double>,
    pub status_code: Option<i32>,
    pub error_title: Option<Seq<char>>,
    pub error_message: Option<Seq<char>>,
}

impl PbShareListOperationResponseView {
    /// The message with no field set.
    pub open spec fn blank() -> PbShareListOperationResponseView {
        PbShareListOperationResponseView {
            shared_user: None,
            original_list_timestamp: None,
            updated_list_timestamp: None,
            status_code: None,
            error_title: None,
            error_message: None,
        }
    }
}

impl DeepView for PbShareListOperationResponse {
    type V = PbShareListOperationResponseView;

    open spec fn deep_view(&self) -> PbShareListOperationResponseView {
        PbShareListOperationResponseView {
            shared_user: self.shared_user.deep_view(),
            original_list_timestamp: self.original_list_timestamp.deep_view(),
            updated_list_timestamp: self.updated_list_timestamp.deep_view(),
            status_code: self.status_code.deep_view(),
            error_title: self.error_title.deep_view(),
            error_message: self.error_message.deep_view(),
        }
    }
}

impl Default for PbShareListOperationResponse {
    /// The message with no field set.
    fn default() -> (message: Self)
        ensures
            message.deep_view() == PbShareListOperationResponseView::blank(),
    {
        PbShareListOperationResponse {
            shared_user: None,
            original_list_timestamp: None,
            updated_list_timestamp: None,
            status_code: None,
            error_title: None,
            error_message: None,
        }
    }
}

/// The `PbListFolderOperation` message: list folder operation.
#[derive(Clone, PartialEq, Debug)]
pub struct PbListFolderOperation {
    pub metadata: Option<PbOperationMetadata>,
    pub list_data_id: Option<String>,
    pub list_folder: Option<PbListFolder>,
    pub folder_items: Vec<PbListFolderItem>,
    pub original_parent_folder_id: Option<String>,
    pub updated_parent_folder_id: Option<String>,
}

/// The mathematical value of a [`PbListFolderOperation`].
#[verifier::ext_equal]
pub ghost struct PbListFolderOperationView {
    pub metadata: Option<PbOperationMetadataView>,
    pub list_data_id: Option<Seq<char>>,
    pub list_folder: Option<PbListFolderView>,
    pub folder_items: Seq<PbListFolderItemView>,
    pub original_parent_folder_id: Option<Seq<char>>,
    pub updated_parent_folder_id: Option<Seq<char>>,
}

impl PbListFolderOperationView {
    /// The message with no field set.
    pub open spec fn blank() -> PbListFolderOperationView {
        PbListFolderOperationView {
            metadata: None,
            list_data_id: None,
            list_folder: None,
            folder_items: Seq::empty(),
            original_parent_folder_id: None,
            updated_parent_folder_id: None,
        }
    }
}

impl DeepView for PbListFolderOperation {
    type V = PbListFolderOperationView;

    open spec fn deep_view(&self) -> PbListFolderOperationView {
        PbListFolderOperationView {
            metadata: self.metadata.deep_view(),
            list_data_id: self.list_data_id.deep_view(),
            list_folder: self.list_folder.deep_view(),
            folder_items: self.folder_items.deep_view(),
            original_parent_folder_id: self.original_parent_folder_id.deep_view(),
            updated_parent_folder_id: self.updated_parent_folder_id.deep_view(),
        }
    }
}

impl Default for PbListFolderOperation {
    /// The message with no field set.
    fn default() -> (message: Self)
        ensures
            message.deep_view() == PbListFolderOperationView::blank(),
    {
        let message = PbListFolderOperation {
            metadata: None,
            list_data_id: None,
            list_folder: None,
            folder_items: Vec::new(),
            original_parent_folder_id: None,
            updated_parent_folder_id: None,
        };
        assert(message.deep_view() =~~= PbListFolderOperationView::blank());
        message
    }
}

/// The `PbListFolderOperationList` message: list folder operation list.
#[derive(Clone, PartialEq, Debug)]
pub struct PbListFolderOperationList {
    pub operations: Vec<PbListFolderOperation>,
}

/// The mathematical value of a [`PbListFolderOperationList`].
#[verifier::ext_equal]
pub ghost struct PbListFolderOperationListView {
    pub operations: Seq<PbListFolderOperationView>,
}

impl PbListFolderOperationListView {
    /// The message with no field set.
    pub open spec fn blank() -> PbListFolderOperationListView {
        PbListFolderOperationListView {
            operations: Seq::empty(),
        }
    }
}

impl DeepView for PbListFolderOperationList {
    type V = PbListFolderOperationListView;

    open spec fn deep_view(&self) -> PbListFolderOperationListView {
        PbListFolderOperationListView {
            operations: self.operations.deep_view(),
        }
    }
}

impl Default for PbListFolderOperationList {
    /// The message with no field set.
    fn default() -> (message: Self)
        ensures
            message.deep_view() == PbListFolderOperationListView::blank(),
    {
        let message = PbListFolderOperationList {
            operations: Vec::new(),
        };
        assert(message.deep_view() =~~= PbListFolderOperationListView::blank());
        message
    }
}

/// The `PbStarterListOperation` message: starter list operation.
#[derive(Clone, PartialEq, Debug)]
pub struct PbStarterListOperation {
    pub metadata: Option<PbOperationMetadata>,
    pub list_id: Option<String>,
    pub list_item_id: Option<String>,
    pub updated_value: Option<String>,
    pub original_value: Option<String>,
    pub list_item: Option<ListItem>,
    pub list: Option<StarterList>,
    pub item_price: Option<PbItemPrice>,
}

/// The mathematical value of a [`PbStarterListOperation`].
#[verifier::ext_equal]
pub ghost struct PbStarterListOperationView {
    pub metadata: Option<PbOperationMetadataView>,
    pub list_id: Option<Seq<char>>,
    pub list_item_id: Option<Seq<char>>,
    pub updated_value: Option<Seq<char>>,
    pub original_value: Option<Seq<char>>,
    pub list_item: Option<ListItemView>,
    pub list: Option<StarterListView>,
    pub item_price: Option<PbItemPriceView>,
}

impl PbStarterListOperationView {
    /// The message with no field set.
    pub open spec fn blank() -> PbStarterListOperationView {
        PbStarterListOperationView {
            metadata: None,
            list_id: None,
            list_item_id: None,
            updated_value: None,
            original_value: None,
            list_item: None,
            list: None,
            item_price: None,
        }
    }
}

impl DeepView for PbStarterListOperation {
    type V = PbStarterListOperationView;

    open spec fn deep_view(&self) -> PbStarterListOperationView {
        PbStarterListOperationView {
            metadata: self.metadata.deep_view(),
            list_id: self.list_id.deep_view(),
            list_item_id: self.list_item_id.deep_view(),
            updated_value: self.updated_value.deep_view(),
            original_value: self.original_value.deep_view(),
            list_item: self.list_item.deep_view(),
            list: self.list.deep_view(),
            item_price: self.item_price.deep_view(),
        }
    }
}

impl Default for PbStarterListOperation {
    /// The message with no field set.
    fn default() -> (message: Self)
        ensures
            message.deep_view() == PbStarterListOperationView::blank(),
    {
        PbStarterListOperation {
            metadata: None,
            list_id: None,
            list_item_id: None,
            updated_value: None,
            original_value: None,
            list_item: None,
            list: None,
            item_price: None,
        }
    }
}

/// The `PbStarterListOperationList` message: starter list operation list.
#[derive(Clone, PartialEq, Debug)]
pub struct PbStarterListOperationList {
    pub operations: Vec<PbStarterListOperation>,
}

/// The mathematical value of a [`PbStarterListOperationList`].
#[verifier::ext_equal]
pub ghost struct PbStarterListOperationListView {
    pub operations: Seq<PbStarterListOperationView>,
}

impl PbStarterListOperationListView {
    /// The message with no field set.
    pub open spec fn blank() -> PbStarterListOperationListView {
        PbStarterListOperationListView {
            operations: Seq::empty(),
        }
    }
}

impl DeepView for PbStarterListOperationList {
    type V = PbStarterListOperationListView;

    open spec fn deep_view(&self) -> PbStarterListOperationListView {
        PbStarterListOperationListView {
            operations: self.operations.deep_view(),
        }
    }
}

impl Default for PbStarterListOperationList {
    /// The message with no field set.
    fn default() -> (message: Self)
        ensures
            message.deep_view() == PbStarterListOperationListView::blank(),
    {
        let message = PbStarterListOperationList {
            operations: Vec::new(),
        };
        assert(message.deep_view() =~~= PbStarterListOperationListView::blank());
        message
    }
}

/// The `PbCategorizeItemOperation` message: categorize item operation.
#[derive(Clone, PartialEq, Debug)]
pub struct PbCategorizeItemOperation {
    pub metadata: Option<PbOperationMetadata>,
    pub list_item: Option<ListItem>,
}

/// The mathematical value of a [`PbCategorizeItemOperation`].
#[verifier::ext_equal]
pub ghost struct PbCategorizeItemOperationView {
    pub metadata: Option<PbOperationMetadataView>,
    pub list_item: Option<ListItemView>,
}

impl PbCategorizeItemOperationView {
    /// The message with no field set.
    pub open spec fn blank() -> PbCategorizeItemOperationView {
        PbCategorizeItemOperationView {
            metadata: None,
            list_item: None,
        }
    }
}

impl DeepView for PbCategorizeItemOperation {
    type V = PbCategorizeItemOperationView;

    open spec fn deep_view(&self) -> PbCategorizeItemOperationView {
        PbCategorizeItemOperationView {
            metadata: self.metadata.deep_view(),
            list_item: self.list_item.deep_view(),
        }
    }
}

impl Default for PbCategorizeItemOperation {
    /// The message with no field set.
    fn default() -> (message: Self)
        ensures
            message.deep_view() == PbCategorizeItemOperationView::blank(),
    {
        PbCategorizeItemOperation {
            metadata: None,
            list_item: None,
        }
    }
}

/// The `PbCategorizeItemOperationList` message: categorize item operation list.
#[derive(Clone, PartialEq, Debug)]
pub struct PbCategorizeItemOperationList {
    pub operations: Vec<PbCategorizeItemOperation>,
}

/// The mathematical value of a [`PbCategorizeItemOperationList`].
#[verifier::ext_equal]
pub ghost struct PbCategorizeItemOperationListView {
    pub operations: Seq<PbCategorizeItemOperationView>,
}

impl PbCategorizeItemOperationListView {
    /// The message with no field set.
    pub open spec fn blank() -> PbCategorizeItemOperationListView {
        PbCategorizeItemOperationListView {
            operations: Seq::empty(),
        }
    }
}

impl DeepView for PbCategorizeItemOperationList {
    type V = PbCategorizeItemOperationListView;

    open spec fn deep_view(&self) -> PbCategorizeItemOperationListView {
        PbCategorizeItemOperationListView {
            operations: self.operations.deep_view(),
        }
    }
}

impl Default for PbCategorizeItemOperationList {
    /// The message with no field set.
    fn default() -> (message: Self)
        ensures
            message.deep_view() == PbCategorizeItemOperationListView::blank(),
    {
        let message = PbCategorizeItemOperationList {
            operations: Vec::new(),
        };
        assert(message.deep_view() =~~= PbCategorizeItemOperationListView::blank());
        message
    }
}

/// The `PbCategorizedItemsList` message: categorized items list.
#[derive(Clone, PartialEq, Debug)]
pub struct PbCategorizedItemsList {
    pub timestamp: Option<PbTimestamp>,
    pub categorized_items: Vec<ListItem>,
}

/// The mathematical value of a [`PbCategorizedItemsList`].
#[verifier::ext_equal]
pub ghost struct PbCategorizedItemsListView {
    pub timestamp: Option<PbTimestampView>,
    pub categorized_items: Seq<ListItemView>,
}

impl PbCategorizedItemsListView {
    /// The message with no field set.
    pub open spec fn blank() -> PbCategorizedItemsListView {
        PbCategorizedItemsListView {
            timestamp: None,
            categorized_items: Seq::empty(),
        }
    }
}

impl DeepView for PbCategorizedItemsList {
    type V = PbCategorizedItemsListView;

    open spec fn deep_view(&self) -> PbCategorizedItemsListView {
        PbCategorizedItemsListView {
            timestamp: self.timestamp.deep_view(),
            categorized_items: self.categorized_items.deep_view(),
        }
    }
}

impl Default for PbCategorizedItemsList {
    /// The message with no field set.
    fn default() -> (message: Self)
        ensures
            message.deep_view() == PbCategorizedItemsListView::blank(),
    {
        let message = PbCategorizedItemsList {
            timestamp: None,
            categorized_items: Vec::new(),
        };
        assert(message.deep_view() =~~= PbCategorizedItemsListView::blank());
        message
    }
}

/// The `PbCategoryOrdering` message: category ordering.
#[derive(Clone, PartialEq, Debug)]
pub struct PbCategoryOrdering {
    pub identifier: String,
    pub name: Option<String>,
    pub categories: Vec<String>,
}

/// The mathematical value of a [`PbCategoryOrdering`].
#[verifier::ext_equal]
pub ghost struct PbCategoryOrderingView {
    pub identifier: Seq<char>,
    pub name: Option<Seq<char>>,
    pub categories: Seq<Seq<char>>,
}

impl PbCategoryOrderingView {
    /// The message with no field set.
    pub open spec fn blank() -> PbCategoryOrderingView {
        PbCategoryOrderingView {
            identifier: Seq::empty(),
            name: None,
            categories: Seq::empty(),
        }
    }
}

impl DeepView for PbCategoryOrdering {
    type V = PbCategoryOrderingView;

    open spec fn deep_view(&self) -> PbCategoryOrderingView {
        PbCategoryOrderingView {
            identifier: self.identifier.deep_view(),
            name: self.name.deep_view(),
            categories: self.categories.deep_view(),
        }
    }
}

impl Default for PbCategoryOrdering {
    /// The message with no field set.
    fn default() -> (message: Self)
        ensures
            message.deep_view() == PbCategoryOrderingView::blank(),
    {
        let message = PbCategoryOrdering {
            identifier: String::new(),
            name: None,
            categories: Vec::new(),
        };
        assert(message.deep_view() =~~= PbCategoryOrderingView::blank());
        message
    }
}

} // verus!
