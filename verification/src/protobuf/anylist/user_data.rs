//! The full user-data response and watch synchronisation.

use crate::protobuf::anylist::account::{
    PbEmailUserIdPair,
    PbEmailUserIdPairView,
    PbIdentifierList,
    PbIdentifierListView,
    PbLogicalTimestamp,
    PbLogicalTimestampList,
    PbLogicalTimestampListView,
    PbLogicalTimestampView,
    PbTimestamp,
    PbTimestampList,
    PbTimestampListView,
    PbTimestampView,
};
use crate::protobuf::anylist::calendar::{
    PbCalendarResponse,
    PbCalendarResponseView,
};
use crate::protobuf::anylist::double::Double;
use crate::protobuf::anylist::lists::{
    ListItem,
    ListItemView,
    PbListCategorizationRule,
    PbListCategorizationRuleView,
    PbListCategory,
    PbListCategoryGroup,
    PbListCategoryGroupView,
    PbListCategoryView,
    PbListFolder,
    PbListFolderTimestamps,
    PbListFolderTimestampsView,
    PbListFolderView,
    PbListFoldersResponse,
    PbListFoldersResponseView,
    PbStore,
    PbStoreFilter,
    PbStoreFilterView,
    PbStoreView,
    ShoppingList,
    ShoppingListView,
    ShoppingListsResponse,
    ShoppingListsResponseView,
    StarterListsResponseV2,
    StarterListsResponseV2View,
};
use crate::protobuf::anylist::operations::{
    PbCategorizedItemsList,
    PbCategorizedItemsListView,
};
use crate::protobuf::anylist::recipes::{
    PbRecipeDataResponse,
    PbRecipeDataResponseView,
    PbRecipeLinkRequest,
    PbRecipeLinkRequestView,
};
use crate::protobuf::anylist::settings::{
    PbCategoryGrouping,
    PbCategoryGroupingView,
    PbListSettings,
    PbListSettingsList,
    PbListSettingsListView,
    PbListSettingsView,
    PbMobileAppSettings,
    PbMobileAppSettingsView,
    PbUserCategory,
    PbUserCategoryData,
    PbUserCategoryDataView,
    PbUserCategoryView,
};
use vstd::prelude::*;

verus! {

/// The `PbUserDataClientTimestamps` message: user data client timestamps.
#[derive(Clone, PartialEq, Debug)]
pub struct PbUserDataClientTimestamps {
    pub shopping_list_timestamps: Option<PbTimestampList>,
    pub list_folder_timestamps: Option<PbListFolderTimestamps>,
    pub user_recipe_data_timestamp: Option<PbTimestamp>,
    pub meal_planning_calendar_timestamp: Option<PbLogicalTimestamp>,
    pub categorized_items_timestamp: Option<PbTimestamp>,
    pub user_categories_timestamp: Option<PbTimestamp>,
    pub starter_list_timestamps: Option<PbTimestampList>,
    pub recent_item_timestamps: Option<PbTimestampList>,
    pub favorite_item_timestamps: Option<PbTimestampList>,
    pub ordered_starter_list_ids_timestamp: Option<PbTimestamp>,
    pub list_settings_timestamp: Option<PbTimestamp>,
    pub starter_list_settings_timestamp: Option<PbTimestamp>,
    pub mobile_app_settings_timestamp: Option<PbTimestamp>,
    pub shopping_list_logical_timestamps: Option<PbLogicalTimestampList>,
}

/// The mathematical value of a [`PbUserDataClientTimestamps`].
#[verifier::ext_equal]
pub ghost struct PbUserDataClientTimestampsView {
    pub shopping_list_timestamps: Option<PbTimestampListView>,
    pub list_folder_timestamps: Option<PbListFolderTimestampsView>,
    pub user_recipe_data_timestamp: Option<PbTimestampView>,
    pub meal_planning_calendar_timestamp: Option<PbLogicalTimestampView>,
    pub categorized_items_timestamp: Option<PbTimestampView>,
    pub user_categories_timestamp: Option<PbTimestampView>,
    pub starter_list_timestamps: Option<PbTimestampListView>,
    pub recent_item_timestamps: Option<PbTimestampListView>,
    pub favorite_item_timestamps: Option<PbTimestampListView>,
    pub ordered_starter_list_ids_timestamp: Option<PbTimestampView>,
    pub list_settings_timestamp: Option<PbTimestampView>,
    pub starter_list_settings_timestamp: Option<PbTimestampView>,
    pub mobile_app_settings_timestamp: Option<PbTimestampView>,
    pub shopping_list_logical_timestamps: Option<PbLogicalTimestampListView>,
}

impl PbUserDataClientTimestampsView {
    /// The message with no field set.
    pub open spec fn blank() -> PbUserDataClientTimestampsView {
        PbUserDataClientTimestampsView {
            shopping_list_timestamps: None,
            list_folder_timestamps: None,
            user_recipe_data_timestamp: None,
            meal_planning_calendar_timestamp: None,
            categorized_items_timestamp: None,
            user_categories_timestamp: None,
            starter_list_timestamps: None,
            recent_item_timestamps: None,
            favorite_item_timestamps: None,
            ordered_starter_list_ids_timestamp: None,
            list_settings_timestamp: None,
            starter_list_settings_timestamp: None,
            mobile_app_settings_timestamp: None,
            shopping_list_logical_timestamps: None,
        }
    }
}

impl DeepView for PbUserDataClientTimestamps {
    type V = PbUserDataClientTimestampsView;

    open spec fn deep_view(&self) -> PbUserDataClientTimestampsView {
        PbUserDataClientTimestampsView {
            shopping_list_timestamps: self.shopping_list_timestamps.deep_view(),
            list_folder_timestamps: self.list_folder_timestamps.deep_view(),
            user_recipe_data_timestamp: self.user_recipe_data_timestamp.deep_view(),
            meal_planning_calendar_timestamp: self.meal_planning_calendar_timestamp.deep_view(),
            categorized_items_timestamp: self.categorized_items_timestamp.deep_view(),
            user_categories_timestamp: self.user_categories_timestamp.deep_view(),
            starter_list_timestamps: self.starter_list_timestamps.deep_view(),
            recent_item_timestamps: self.recent_item_timestamps.deep_view(),
            favorite_item_timestamps: self.favorite_item_timestamps.deep_view(),
            ordered_starter_list_ids_timestamp: self.ordered_starter_list_ids_timestamp.deep_view(),
            list_settings_timestamp: self.list_settings_timestamp.deep_view(),
            starter_list_settings_timestamp: self.starter_list_settings_timestamp.deep_view(),
            mobile_app_settings_timestamp: self.mobile_app_settings_timestamp.deep_view(),
            shopping_list_logical_timestamps: self.shopping_list_logical_timestamps.deep_view(),
        }
    }
}

impl Default for PbUserDataClientTimestamps {
    /// The message with no field set.
    fn default() -> (message: Self)
        ensures
            message.deep_view() == PbUserDataClientTimestampsView::blank(),
    {
        PbUserDataClientTimestamps {
            shopping_list_timestamps: None,
            list_folder_timestamps: None,
            user_recipe_data_timestamp: None,
            meal_planning_calendar_timestamp: None,
            categorized_items_timestamp: None,
            user_categories_timestamp: None,
            starter_list_timestamps: None,
            recent_item_timestamps: None,
            favorite_item_timestamps: None,
            ordered_starter_list_ids_timestamp: None,
            list_settings_timestamp: None,
            starter_list_settings_timestamp: None,
            mobile_app_settings_timestamp: None,
            shopping_list_logical_timestamps: None,
        }
    }
}

/// The `PbUserDataResponse` message: user data response.
#[derive(Clone, PartialEq, Debug)]
pub struct PbUserDataResponse {
    pub shopping_lists_response: Option<ShoppingListsResponse>,
    pub list_folders_response: Option<PbListFoldersResponse>,
    pub recipe_data_response: Option<PbRecipeDataResponse>,
    pub meal_planning_calendar_response: Option<PbCalendarResponse>,
    pub categorized_items_response: Option<PbCategorizedItemsList>,
    pub user_categories_response: Option<PbUserCategoryData>,
    pub starter_lists_response: Option<StarterListsResponseV2>,
    pub ordered_starter_list_ids_response: Option<PbIdentifierList>,
    pub list_settings_response: Option<PbListSettingsList>,
    pub starter_list_settings_response: Option<PbListSettingsList>,
    pub mobile_app_settings_response: Option<PbMobileAppSettings>,
}

/// The mathematical value of a [`PbUserDataResponse`].
#[verifier::ext_equal]
pub ghost struct PbUserDataResponseView {
    pub shopping_lists_response: Option<ShoppingListsResponseView>,
    pub list_folders_response: Option<PbListFoldersResponseView>,
    pub recipe_data_response: Option<PbRecipeDataResponseView>,
    pub meal_planning_calendar_response: Option<PbCalendarResponseView>,
    pub categorized_items_response: Option<PbCategorizedItemsListView>,
    pub user_categories_response: Option<PbUserCategoryDataView>,
    pub starter_lists_response: Option<StarterListsResponseV2View>,
    pub ordered_starter_list_ids_response: Option<PbIdentifierListView>,
    pub list_settings_response: Option<PbListSettingsListView>,
    pub starter_list_settings_response: Option<PbListSettingsListView>,
    pub mobile_app_settings_response: Option<PbMobileAppSettingsView>,
}

impl PbUserDataResponseView {
    /// The message with no field set.
    pub open spec fn blank() -> PbUserDataResponseView {
        PbUserDataResponseView {
            shopping_lists_response: None,
            list_folders_response: None,
            recipe_data_response: None,
            meal_planning_calendar_response: None,
            categorized_items_response: None,
            user_categories_response: None,
            starter_lists_response: None,
            ordered_starter_list_ids_response: None,
            list_settings_response: None,
            starter_list_settings_response: None,
            mobile_app_settings_response: None,
        }
    }
}

impl DeepView for PbUserDataResponse {
    type V = PbUserDataResponseView;

    open spec fn deep_view(&self) -> PbUserDataResponseView {
        PbUserDataResponseView {
            shopping_lists_response: self.shopping_lists_response.deep_view(),
            list_folders_response: self.list_folders_response.deep_view(),
            recipe_data_response: self.recipe_data_response.deep_view(),
            meal_planning_calendar_response: self.meal_planning_calendar_response.deep_view(),
            categorized_items_response: self.categorized_items_response.deep_view(),
            user_categories_response: self.user_categories_response.deep_view(),
            starter_lists_response: self.starter_lists_response.deep_view(),
            ordered_starter_list_ids_response: self.ordered_starter_list_ids_response.deep_view(),
            list_settings_response: self.list_settings_response.deep_view(),
            starter_list_settings_response: self.starter_list_settings_response.deep_view(),
            mobile_app_settings_response: self.mobile_app_settings_response.deep_view(),
        }
    }
}

impl Default for PbUserDataResponse {
    /// The message with no field set.
    fn default() -> (message: Self)
        ensures
            message.deep_view() == PbUserDataResponseView::blank(),
    {
        PbUserDataResponse {
            shopping_lists_response: None,
            list_folders_response: None,
            recipe_data_response: None,
            meal_planning_calendar_response: None,
            categorized_items_response: None,
            user_categories_response: None,
            starter_lists_response: None,
            ordered_starter_list_ids_response: None,
            list_settings_response: None,
            starter_list_settings_response: None,
            mobile_app_settings_response: None,
        }
    }
}

/// The `PbValue` message: value.
#[derive(Clone, PartialEq, Debug)]
pub struct PbValue {
    pub identifier: Option<String>,
    pub string_value: Vec<String>,
    pub bool_value: Option<bool>,
    pub int_value: Option<i32>,
    pub double_value: Option<Double>,
    pub data_value: Option<Vec<u8>>,
    pub encoded_pb: Option<Vec<u8>>,
    pub pb_class_name: Option<String>,
    pub logical_timestamp_value: Option<u64>,
}

/// The mathematical value of a [`PbValue`].
#[verifier::ext_equal]
pub ghost struct PbValueView {
    pub identifier: Option<Seq<char>>,
    pub string_value: Seq<Seq<char>>,
    pub bool_value: Option<bool>,
    pub int_value: Option<i32>,
    pub double_value: Option<Double>,
    pub data_value: Option<Seq<u8>>,
    pub encoded_pb: Option<Seq<u8>>,
    pub pb_class_name: Option<Seq<char>>,
    pub logical_timestamp_value: Option<u64>,
}

impl PbValueView {
    /// The message with no field set.
    pub open spec fn blank() -> PbValueView {
        PbValueView {
            identifier: None,
            string_value: Seq::empty(),
            bool_value: None,
            int_value: None,
            double_value: None,
            data_value: None,
            encoded_pb: None,
            pb_class_name: None,
            logical_timestamp_value: None,
        }
    }
}

impl DeepView for PbValue {
    type V = PbValueView;

    open spec fn deep_view(&self) -> PbValueView {
        PbValueView {
            identifier: self.identifier.deep_view(),
            string_value: self.string_value.deep_view(),
            bool_value: self.bool_value.deep_view(),
            int_value: self.int_value.deep_view(),
            double_value: self.double_value.deep_view(),
            data_value: self.data_value.deep_view(),
            encoded_pb: self.encoded_pb.deep_view(),
            pb_class_name: self.pb_class_name.deep_view(),
            logical_timestamp_value: self.logical_timestamp_value.deep_view(),
        }
    }
}

impl Default for PbValue {
    /// The message with no field set.
    fn default() -> (message: Self)
        ensures
            message.deep_view() == PbValueView::blank(),
    {
        let message = PbValue {
            identifier: None,
            string_value: Vec::new(),
            bool_value: None,
            int_value: None,
            double_value: None,
            data_value: None,
            encoded_pb: None,
            pb_class_name: None,
            logical_timestamp_value: None,
        };
        assert(message.deep_view() =~~= PbValueView::blank());
        message
    }
}

/// The `PbValueList` message: value list.
#[derive(Clone, PartialEq, Debug)]
pub struct PbValueList {
    pub values: Vec<PbValue>,
}

/// The mathematical value of a [`PbValueList`].
#[verifier::ext_equal]
pub ghost struct PbValueListView {
    pub values: Seq<PbValueView>,
}

impl PbValueListView {
    /// The message with no field set.
    pub open spec fn blank() -> PbValueListView {
        PbValueListView {
            values: Seq::empty(),
        }
    }
}

impl DeepView for PbValueList {
    type V = PbValueListView;

    open spec fn deep_view(&self) -> PbValueListView {
        PbValueListView {
            values: self.values.deep_view(),
        }
    }
}

impl Default for PbValueList {
    /// The message with no field set.
    fn default() -> (message: Self)
        ensures
            message.deep_view() == PbValueListView::blank(),
    {
        let message = PbValueList {
            values: Vec::new(),
        };
        assert(message.deep_view() =~~= PbValueListView::blank());
        message
    }
}

/// The `PbDeletedObjectId` message: deleted object id.
#[derive(Clone, PartialEq, Debug)]
pub struct PbDeletedObjectId {
    pub identifier: Option<String>,
    pub logical_timestamp: Option<u64>,
}

/// The mathematical value of a [`PbDeletedObjectId`].
#[verifier::ext_equal]
pub ghost struct PbDeletedObjectIdView {
    pub identifier: Option<Seq<char>>,
    pub logical_timestamp: Option<u64>,
}

impl PbDeletedObjectIdView {
    /// The message with no field set.
    pub open spec fn blank() -> PbDeletedObjectIdView {
        PbDeletedObjectIdView {
            identifier: None,
            logical_timestamp: None,
        }
    }
}

impl DeepView for PbDeletedObjectId {
    type V = PbDeletedObjectIdView;

    open spec fn deep_view(&self) -> PbDeletedObjectIdView {
        PbDeletedObjectIdView {
            identifier: self.identifier.deep_view(),
            logical_timestamp: self.logical_timestamp.deep_view(),
        }
    }
}

impl Default for PbDeletedObjectId {
    /// The message with no field set.
    fn default() -> (message: Self)
        ensures
            message.deep_view() == PbDeletedObjectIdView::blank(),
    {
        PbDeletedObjectId {
            identifier: None,
            logical_timestamp: None,
        }
    }
}

/// The `PbDeletedObjectIdList` message: deleted object id list.
#[derive(Clone, PartialEq, Debug)]
pub struct PbDeletedObjectIdList {
    pub identifier: Option<String>,
    pub container_id: Option<String>,
    pub logical_clock_id: Option<String>,
    pub creation_logical_timestamp: Option<u64>,
    pub logical_timestamp: Option<u64>,
    pub deleted_object_ids: Vec<PbDeletedObjectId>,
}

/// The mathematical value of a [`PbDeletedObjectIdList`].
#[verifier::ext_equal]
pub ghost struct PbDeletedObjectIdListView {
    pub identifier: Option<Seq<char>>,
    pub container_id: Option<Seq<char>>,
    pub logical_clock_id: Option<Seq<char>>,
    pub creation_logical_timestamp: Option<u64>,
    pub logical_timestamp: Option<u64>,
    pub deleted_object_ids: Seq<PbDeletedObjectIdView>,
}

impl PbDeletedObjectIdListView {
    /// The message with no field set.
    pub open spec fn blank() -> PbDeletedObjectIdListView {
        PbDeletedObjectIdListView {
            identifier: None,
            container_id: None,
            logical_clock_id: None,
            creation_logical_timestamp: None,
            logical_timestamp: None,
            deleted_object_ids: Seq::empty(),
        }
    }
}

impl DeepView for PbDeletedObjectIdList {
    type V = PbDeletedObjectIdListView;

    open spec fn deep_view(&self) -> PbDeletedObjectIdListView {
        PbDeletedObjectIdListView {
            identifier: self.identifier.deep_view(),
            container_id: self.container_id.deep_view(),
            logical_clock_id: self.logical_clock_id.deep_view(),
            creation_logical_timestamp: self.creation_logical_timestamp.deep_view(),
            logical_timestamp: self.logical_timestamp.deep_view(),
            deleted_object_ids: self.deleted_object_ids.deep_view(),
        }
    }
}

impl Default for PbDeletedObjectIdList {
    /// The message with no field set.
    fn default() -> (message: Self)
        ensures
            message.deep_view() == PbDeletedObjectIdListView::blank(),
    {
        let message = PbDeletedObjectIdList {
            identifier: None,
            container_id: None,
            logical_clock_id: None,
            creation_logical_timestamp: None,
            logical_timestamp: None,
            deleted_object_ids: Vec::new(),
        };
        assert(message.deep_view() =~~= PbDeletedObjectIdListView::blank());
        message
    }
}

/// The `PbEmailUserIdPairList` message: email user id pair list.
#[derive(Clone, PartialEq, Debug)]
pub struct PbEmailUserIdPairList {
    pub email_user_id_pair: Vec<PbEmailUserIdPair>,
}

/// The mathematical value of a [`PbEmailUserIdPairList`].
#[verifier::ext_equal]
pub ghost struct PbEmailUserIdPairListView {
    pub email_user_id_pair: Seq<PbEmailUserIdPairView>,
}

impl PbEmailUserIdPairListView {
    /// The message with no field set.
    pub open spec fn blank() -> PbEmailUserIdPairListView {
        PbEmailUserIdPairListView {
            email_user_id_pair: Seq::empty(),
        }
    }
}

impl DeepView for PbEmailUserIdPairList {
    type V = PbEmailUserIdPairListView;

    open spec fn deep_view(&self) -> PbEmailUserIdPairListView {
        PbEmailUserIdPairListView {
            email_user_id_pair: self.email_user_id_pair.deep_view(),
        }
    }
}

impl Default for PbEmailUserIdPairList {
    /// The message with no field set.
    fn default() -> (message: Self)
        ensures
            message.deep_view() == PbEmailUserIdPairListView::blank(),
    {
        let message = PbEmailUserIdPairList {
            email_user_id_pair: Vec::new(),
        };
        assert(message.deep_view() =~~= PbEmailUserIdPairListView::blank());
        message
    }
}

/// The `PbRecipeLinkRequestList` message: recipe link request list.
#[derive(Clone, PartialEq, Debug)]
pub struct PbRecipeLinkRequestList {
    pub recipe_link_request: Vec<PbRecipeLinkRequest>,
}

/// The mathematical value of a [`PbRecipeLinkRequestList`].
#[verifier::ext_equal]
pub ghost struct PbRecipeLinkRequestListView {
    pub recipe_link_request: Seq<PbRecipeLinkRequestView>,
}

impl PbRecipeLinkRequestListView {
    /// The message with no field set.
    pub open spec fn blank() -> PbRecipeLinkRequestListView {
        PbRecipeLinkRequestListView {
            recipe_link_request: Seq::empty(),
        }
    }
}

impl DeepView for PbRecipeLinkRequestList {
    type V = PbRecipeLinkRequestListView;

    open spec fn deep_view(&self) -> PbRecipeLinkRequestListView {
        PbRecipeLinkRequestListView {
            recipe_link_request: self.recipe_link_request.deep_view(),
        }
    }
}

impl Default for PbRecipeLinkRequestList {
    /// The message with no field set.
    fn default() -> (message: Self)
        ensures
            message.deep_view() == PbRecipeLinkRequestListView::blank(),
    {
        let message = PbRecipeLinkRequestList {
            recipe_link_request: Vec::new(),
        };
        assert(message.deep_view() =~~= PbRecipeLinkRequestListView::blank());
        message
    }
}

/// The `PbSyncOperation` message: sync operation.
#[derive(Clone, PartialEq, Debug)]
pub struct PbSyncOperation {
    pub identifier: Option<String>,
    pub operation_queue_id: Option<String>,
    pub operation_class_name: Option<String>,
    pub encoded_operation: Option<Vec<u8>>,
}

/// The mathematical value of a [`PbSyncOperation`].
#[verifier::ext_equal]
pub ghost struct PbSyncOperationView {
    pub identifier: Option<Seq<char>>,
    pub operation_queue_id: Option<Seq<char>>,
    pub operation_class_name: Option<Seq<char>>,
    pub encoded_operation: Option<Seq<u8>>,
}

impl PbSyncOperationView {
    /// The message with no field set.
    pub open spec fn blank() -> PbSyncOperationView {
        PbSyncOperationView {
            identifier: None,
            operation_queue_id: None,
            operation_class_name: None,
            encoded_operation: None,
        }
    }
}

impl DeepView for PbSyncOperation {
    type V = PbSyncOperationView;

    open spec fn deep_view(&self) -> PbSyncOperationView {
        PbSyncOperationView {
            identifier: self.identifier.deep_view(),
            operation_queue_id: self.operation_queue_id.deep_view(),
            operation_class_name: self.operation_class_name.deep_view(),
            encoded_operation: self.encoded_operation.deep_view(),
        }
    }
}

impl Default for PbSyncOperation {
    /// The message with no field set.
    fn default() -> (message: Self)
        ensures
            message.deep_view() == PbSyncOperationView::blank(),
    {
        PbSyncOperation {
            identifier: None,
            operation_queue_id: None,
            operation_class_name: None,
            encoded_operation: None,
        }
    }
}

/// The `PbWatchSyncResponse` message: watch sync response.
#[derive(Clone, PartialEq, Debug)]
pub struct PbWatchSyncResponse {
    pub watch_id: Option<String>,
    pub user_id: Option<String>,
    pub is_premium_user: Option<bool>,
    pub root_folder_id: Option<String>,
    pub logical_timestamp: Option<u64>,
    pub is_full_sync: Option<bool>,
    pub shopping_lists: Vec<ShoppingList>,
    pub deleted_shopping_list_ids: Vec<String>,
    pub list_items: Vec<ListItem>,
    pub deleted_list_item_ids: Vec<String>,
    pub stores: Vec<PbStore>,
    pub deleted_stores_ids: Vec<String>,
    pub store_filters: Vec<PbStoreFilter>,
    pub deleted_store_filter_ids: Vec<String>,
    pub list_settings: Vec<PbListSettings>,
    pub deleted_list_setting_ids: Vec<String>,
    pub category_groups: Vec<PbCategoryGrouping>,
    pub deleted_category_group_ids: Vec<String>,
    pub categories: Vec<PbUserCategory>,
    pub deleted_category_ids: Vec<String>,
    pub list_categories: Vec<PbListCategory>,
    pub deleted_list_category_ids: Vec<String>,
    pub list_category_groups: Vec<PbListCategoryGroup>,
    pub deleted_list_category_group_ids: Vec<String>,
    pub list_categorization_rules: Vec<PbListCategorizationRule>,
    pub deleted_list_categorization_rule_ids: Vec<String>,
    pub list_folders: Vec<PbListFolder>,
    pub deleted_list_folder_ids: Vec<String>,
    pub processed_operation_ids: Vec<String>,
}

/// The mathematical value of a [`PbWatchSyncResponse`].
#[verifier::ext_equal]
pub ghost struct PbWatchSyncResponseView {
    pub watch_id: Option<Seq<char>>,
    pub user_id: Option<Seq<char>>,
    pub is_premium_user: Option<bool>,
    pub root_folder_id: Option<Seq<char>>,
    pub logical_timestamp: Option<u64>,
    pub is_full_sync: Option<bool>,
    pub shopping_lists: Seq<ShoppingListView>,
    pub deleted_shopping_list_ids: Seq<Seq<char>>,
    pub list_items: Seq<ListItemView>,
    pub deleted_list_item_ids: Seq<Seq<char>>,
    pub stores: Seq<PbStoreView>,
    pub deleted_stores_ids: Seq<Seq<char>>,
    pub store_filters: Seq<PbStoreFilterView>,
    pub deleted_store_filter_ids: Seq<Seq<char>>,
    pub list_settings: Seq<PbListSettingsView>,
    pub deleted_list_setting_ids: Seq<Seq<char>>,
    pub category_groups: Seq<PbCategoryGroupingView>,
    pub deleted_category_group_ids: Seq<Seq<char>>,
    pub categories: Seq<PbUserCategoryView>,
    pub deleted_category_ids: Seq<Seq<char>>,
    pub list_categories: Seq<PbListCategoryView>,
    pub deleted_list_category_ids: Seq<Seq<char>>,
    pub list_category_groups: Seq<PbListCategoryGroupView>,
    pub deleted_list_category_group_ids: Seq<Seq<char>>,
    pub list_categorization_rules: Seq<PbListCategorizationRuleView>,
    pub deleted_list_categorization_rule_ids: Seq<Seq<char>>,
    pub list_folders: Seq<PbListFolderView>,
    pub deleted_list_folder_ids: Seq<Seq<char>>,
    pub processed_operation_ids: Seq<Seq<char>>,
}

impl PbWatchSyncResponseView {
    /// The message with no field set.
    pub open spec fn blank() -> PbWatchSyncResponseView {
        PbWatchSyncResponseView {
            watch_id: None,
            user_id: None,
            is_premium_user: None,
            root_folder_id: None,
            logical_timestamp: None,
            is_full_sync: None,
            shopping_lists: Seq::empty(),
            deleted_shopping_list_ids: Seq::empty(),
            list_items: Seq::empty(),
            deleted_list_item_ids: Seq::empty(),
            stores: Seq::empty(),
            deleted_stores_ids: Seq::empty(),
            store_filters: Seq::empty(),
            deleted_store_filter_ids: Seq::empty(),
            list_settings: Seq::empty(),
            deleted_list_setting_ids: Seq::empty(),
            category_groups: Seq::empty(),
            deleted_category_group_ids: Seq::empty(),
            categories: Seq::empty(),
            deleted_category_ids: Seq::empty(),
            list_categories: Seq::empty(),
            deleted_list_category_ids: Seq::empty(),
            list_category_groups: Seq::empty(),
            deleted_list_category_group_ids: Seq::empty(),
            list_categorization_rules: Seq::empty(),
            deleted_list_categorization_rule_ids: Seq::empty(),
            list_folders: Seq::empty(),
            deleted_list_folder_ids: Seq::empty(),
            processed_operation_ids: Seq::empty(),
        }
    }
}

impl DeepView for PbWatchSyncResponse {
    type V = PbWatchSyncResponseView;

    open spec fn deep_view(&self) -> PbWatchSyncResponseView {
        PbWatchSyncResponseView {
            watch_id: self.watch_id.deep_view(),
            user_id: self.user_id.deep_view(),
            is_premium_user: self.is_premium_user.deep_view(),
            root_folder_id: self.root_folder_id.deep_view(),
            logical_timestamp: self.logical_timestamp.deep_view(),
            is_full_sync: self.is_full_sync.deep_view(),
            shopping_lists: self.shopping_lists.deep_view(),
            deleted_shopping_list_ids: self.deleted_shopping_list_ids.deep_view(),
            list_items: self.list_items.deep_view(),
            deleted_list_item_ids: self.deleted_list_item_ids.deep_view(),
            stores: self.stores.deep_view(),
            deleted_stores_ids: self.deleted_stores_ids.deep_view(),
            store_filters: self.store_filters.deep_view(),
            deleted_store_filter_ids: self.deleted_store_filter_ids.deep_view(),
            list_settings: self.list_settings.deep_view(),
            deleted_list_setting_ids: self.deleted_list_setting_ids.deep_view(),
            category_groups: self.category_groups.deep_view(),
            deleted_category_group_ids: self.deleted_category_group_ids.deep_view(),
            categories: self.categories.deep_view(),
            deleted_category_ids: self.deleted_category_ids.deep_view(),
            list_categories: self.list_categories.deep_view(),
            deleted_list_category_ids: self.deleted_list_category_ids.deep_view(),
            list_category_groups: self.list_category_groups.deep_view(),
            deleted_list_category_group_ids: self.deleted_list_category_group_ids.deep_view(),
            list_categorization_rules: self.list_categorization_rules.deep_view(),
            deleted_list_categorization_rule_ids: self.deleted_list_categorization_rule_ids.deep_view(),
            list_folders: self.list_folders.deep_view(),
            deleted_list_folder_ids: self.deleted_list_folder_ids.deep_view(),
            processed_operation_ids: self.processed_operation_ids.deep_view(),
        }
    }
}

impl Default for PbWatchSyncResponse {
    /// The message with no field set.
    fn default() -> (message: Self)
        ensures
            message.deep_view() == PbWatchSyncResponseView::blank(),
    {
        let message = PbWatchSyncResponse {
            watch_id: None,
            user_id: None,
            is_premium_user: None,
            root_folder_id: None,
            logical_timestamp: None,
            is_full_sync: None,
            shopping_lists: Vec::new(),
            deleted_shopping_list_ids: Vec::new(),
            list_items: Vec::new(),
            deleted_list_item_ids: Vec::new(),
            stores: Vec::new(),
            deleted_stores_ids: Vec::new(),
            store_filters: Vec::new(),
            deleted_store_filter_ids: Vec::new(),
            list_settings: Vec::new(),
            deleted_list_setting_ids: Vec::new(),
            category_groups: Vec::new(),
            deleted_category_group_ids: Vec::new(),
            categories: Vec::new(),
            deleted_category_ids: Vec::new(),
            list_categories: Vec::new(),
            deleted_list_category_ids: Vec::new(),
            list_category_groups: Vec::new(),
            deleted_list_category_group_ids: Vec::new(),
            list_categorization_rules: Vec::new(),
            deleted_list_categorization_rule_ids: Vec::new(),
            list_folders: Vec::new(),
            deleted_list_folder_ids: Vec::new(),
            processed_operation_ids: Vec::new(),
        };
        assert(message.deep_view() =~~= PbWatchSyncResponseView::blank());
        message
    }
}

/// The `PbWatchSyncMultipartResponsePart` message: watch sync multipart response part.
#[derive(Clone, PartialEq, Debug)]
pub struct PbWatchSyncMultipartResponsePart {
    pub full_response_hash: Option<String>,
    pub part_index: Option<i32>,
    pub parts_count: Option<i32>,
    pub response_part: Option<Vec<u8>>,
}

/// The mathematical value of a [`PbWatchSyncMultipartResponsePart`].
#[verifier::ext_equal]
pub ghost struct PbWatchSyncMultipartResponsePartView {
    pub full_response_hash: Option<Seq<char>>,
    pub part_index: Option<i32>,
    pub parts_count: Option<i32>,
    pub response_part: Option<Seq<u8>>,
}

impl PbWatchSyncMultipartResponsePartView {
    /// The message with no field set.
    pub open spec fn blank() -> PbWatchSyncMultipartResponsePartView {
        PbWatchSyncMultipartResponsePartView {
            full_response_hash: None,
            part_index: None,
            parts_count: None,
            response_part: None,
        }
    }
}

impl DeepView for PbWatchSyncMultipartResponsePart {
    type V = PbWatchSyncMultipartResponsePartView;

    open spec fn deep_view(&self) -> PbWatchSyncMultipartResponsePartView {
        PbWatchSyncMultipartResponsePartView {
            full_response_hash: self.full_response_hash.deep_view(),
            part_index: self.part_index.deep_view(),
            parts_count: self.parts_count.deep_view(),
            response_part: self.response_part.deep_view(),
        }
    }
}

impl Default for PbWatchSyncMultipartResponsePart {
    /// The message with no field set.
    fn default() -> (message: Self)
        ensures
            message.deep_view() == PbWatchSyncMultipartResponsePartView::blank(),
    {
        PbWatchSyncMultipartResponsePart {
            full_response_hash: None,
            part_index: None,
            parts_count: None,
            response_part: None,
        }
    }
}

/// The `PbWatchSyncMultipartResponse` message: watch sync multipart response.
#[derive(Clone, PartialEq, Debug)]
pub struct PbWatchSyncMultipartResponse {
    pub reponse_part: Vec<PbWatchSyncMultipartResponsePart>,
    pub full_response_hash: Option<String>,
    pub response_logical_timestamp: Option<u64>,
}

/// The mathematical value of a [`PbWatchSyncMultipartResponse`].
#[verifier::ext_equal]
pub ghost struct PbWatchSyncMultipartResponseView {
    pub reponse_part: Seq<PbWatchSyncMultipartResponsePartView>,
    pub full_response_hash: Option<Seq<char>>,
    pub response_logical_timestamp: Option<u64>,
}

impl PbWatchSyncMultipartResponseView {
    /// The message with no field set.
    pub open spec fn blank() -> PbWatchSyncMultipartResponseView {
        PbWatchSyncMultipartResponseView {
            reponse_part: Seq::empty(),
            full_response_hash: None,
            response_logical_timestamp: None,
        }
    }
}

impl DeepView for PbWatchSyncMultipartResponse {
    type V = PbWatchSyncMultipartResponseView;

    open spec fn deep_view(&self) -> PbWatchSyncMultipartResponseView {
        PbWatchSyncMultipartResponseView {
            reponse_part: self.reponse_part.deep_view(),
            full_response_hash: self.full_response_hash.deep_view(),
            response_logical_timestamp: self.response_logical_timestamp.deep_view(),
        }
    }
}

impl Default for PbWatchSyncMultipartResponse {
    /// The message with no field set.
    fn default() -> (message: Self)
        ensures
            message.deep_view() == PbWatchSyncMultipartResponseView::blank(),
    {
        let message = PbWatchSyncMultipartResponse {
            reponse_part: Vec::new(),
            full_response_hash: None,
            response_logical_timestamp: None,
        };
        assert(message.deep_view() =~~= PbWatchSyncMultipartResponseView::blank());
        message
    }
}

} // verus!
