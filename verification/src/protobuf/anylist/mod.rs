//! The messages exchanged with the service, as plain data with mathematical views.

pub mod account;
pub mod assistants;
pub mod calendar;
pub mod double;
pub mod lists;
pub mod operations;
pub mod pb_list_folder_item;
pub mod pb_list_folder_settings;
pub mod pb_operation_metadata;
pub mod pb_recipe_collection_settings;
pub mod recipes;
pub mod settings;
pub mod shopping_list;
pub mod starter_list;
pub mod tag;
pub mod user_data;

pub use lists::{
    ListItem,
    ListItemView,
    PbItemPrice,
    PbItemPriceView,
    PbListCategorizationRule,
    PbListCategorizationRuleList,
    PbListCategorizationRuleListView,
    PbListCategorizationRuleView,
    PbListCategory,
    PbListCategoryGroup,
    PbListCategoryGroupResponse,
    PbListCategoryGroupResponseView,
    PbListCategoryGroupView,
    PbListCategoryView,
    PbListFolder,
    PbListFolderItem,
    PbListFolderItemView,
    PbListFolderSettings,
    PbListFolderSettingsView,
    PbListFolderTimestamps,
    PbListFolderTimestampsView,
    PbListFolderView,
    PbListFoldersResponse,
    PbListFoldersResponseView,
    PbListItemCategoryAssignment,
    PbListItemCategoryAssignmentView,
    PbListResponse,
    PbListResponseView,
    PbStore,
    PbStoreFilter,
    PbStoreFilterView,
    PbStoreView,
    PbUserListData,
    PbUserListDataView,
    ShoppingList,
    ShoppingListView,
    ShoppingListsResponse,
    ShoppingListsResponseView,
    StarterList,
    StarterListBatchResponse,
    StarterListBatchResponseView,
    StarterListResponse,
    StarterListResponseView,
    StarterListView,
    StarterListsResponse,
    StarterListsResponseV2,
    StarterListsResponseV2View,
    StarterListsResponseView,
    Tag,
    TagView,
};
pub use recipes::{
    PbAndroidEditableIngredient,
    PbAndroidEditableIngredientList,
    PbAndroidEditableIngredientListView,
    PbAndroidEditableIngredientView,
    PbIngredient,
    PbIngredientView,
    PbRecipe,
    PbRecipeCollection,
    PbRecipeCollectionSettings,
    PbRecipeCollectionSettingsView,
    PbRecipeCollectionView,
    PbRecipeDataResponse,
    PbRecipeDataResponseView,
    PbRecipeLinkRequest,
    PbRecipeLinkRequestResponse,
    PbRecipeLinkRequestResponseView,
    PbRecipeLinkRequestView,
    PbRecipeList,
    PbRecipeListView,
    PbRecipeOperation,
    PbRecipeOperationList,
    PbRecipeOperationListView,
    PbRecipeOperationView,
    PbRecipeView,
    PbRecipeWebImportResponse,
    PbRecipeWebImportResponseView,
    PbUserRecipeData,
    PbUserRecipeDataView,
};
pub use calendar::{
    PbCalendar,
    PbCalendarEvent,
    PbCalendarEventView,
    PbCalendarLabel,
    PbCalendarLabelView,
    PbCalendarOperation,
    PbCalendarOperationList,
    PbCalendarOperationListView,
    PbCalendarOperationView,
    PbCalendarResponse,
    PbCalendarResponseView,
    PbCalendarView,
};
pub use operations::{
    PbCategorizeItemOperation,
    PbCategorizeItemOperationList,
    PbCategorizeItemOperationListView,
    PbCategorizeItemOperationView,
    PbCategorizedItemsList,
    PbCategorizedItemsListView,
    PbCategoryOrdering,
    PbCategoryOrderingView,
    PbFavoriteProductOperation,
    PbFavoriteProductOperationList,
    PbFavoriteProductOperationListView,
    PbFavoriteProductOperationView,
    PbListFolderOperation,
    PbListFolderOperationList,
    PbListFolderOperationListView,
    PbListFolderOperationView,
    PbListOperation,
    PbListOperationList,
    PbListOperationListView,
    PbListOperationView,
    PbOperationMetadata,
    PbOperationMetadataView,
    PbOrderedShoppingListIDsOperation,
    PbOrderedShoppingListIDsOperationList,
    PbOrderedShoppingListIDsOperationListView,
    PbOrderedShoppingListIDsOperationView,
    PbOrderedStarterListIDsOperation,
    PbOrderedStarterListIDsOperationList,
    PbOrderedStarterListIDsOperationListView,
    PbOrderedStarterListIDsOperationView,
    PbSavedRecipeOperation,
    PbSavedRecipeOperationList,
    PbSavedRecipeOperationListView,
    PbSavedRecipeOperationView,
    PbShareListOperationResponse,
    PbShareListOperationResponseView,
    PbStarterListOperation,
    PbStarterListOperationList,
    PbStarterListOperationListView,
    PbStarterListOperationView,
};
pub use settings::{
    PbCategoryGrouping,
    PbCategoryGroupingView,
    PbHintBannerDisplayStats,
    PbHintBannerDisplayStatsView,
    PbListSettings,
    PbListSettingsList,
    PbListSettingsListView,
    PbListSettingsOperation,
    PbListSettingsOperationList,
    PbListSettingsOperationListView,
    PbListSettingsOperationView,
    PbListSettingsView,
    PbListTheme,
    PbListThemeList,
    PbListThemeListView,
    PbListThemeView,
    PbMobileAppSettings,
    PbMobileAppSettingsOperation,
    PbMobileAppSettingsOperationList,
    PbMobileAppSettingsOperationListView,
    PbMobileAppSettingsOperationView,
    PbMobileAppSettingsView,
    PbUserCategory,
    PbUserCategoryData,
    PbUserCategoryDataView,
    PbUserCategoryOperation,
    PbUserCategoryOperationList,
    PbUserCategoryOperationListView,
    PbUserCategoryOperationView,
    PbUserCategoryView,
};
pub use account::{
    PbAccountChangePasswordResponse,
    PbAccountChangePasswordResponseView,
    PbAccountInfoResponse,
    PbAccountInfoResponseView,
    PbEditOperationResponse,
    PbEditOperationResponseView,
    PbEmailUserIdPair,
    PbEmailUserIdPairView,
    PbGooglePlayPurchase,
    PbGooglePlayPurchaseView,
    PbIdentifierList,
    PbIdentifierListView,
    PbLogicalTimestamp,
    PbLogicalTimestampList,
    PbLogicalTimestampListView,
    PbLogicalTimestampView,
    PbNotificationLocation,
    PbNotificationLocationView,
    PbRedemptionCodeInfo,
    PbRedemptionCodeInfoView,
    PbRedemptionCodeResponse,
    PbRedemptionCodeResponseView,
    PbStripeCharge,
    PbStripeChargeView,
    PbTimestamp,
    PbTimestampList,
    PbTimestampListView,
    PbTimestampView,
    PbUserEmailInfo,
    PbUserEmailInfoView,
    PbUserSubscriptionInfo,
    PbUserSubscriptionInfoView,
    PbiapReceipt,
    PbiapReceiptView,
};
pub use user_data::{
    PbDeletedObjectId,
    PbDeletedObjectIdList,
    PbDeletedObjectIdListView,
    PbDeletedObjectIdView,
    PbEmailUserIdPairList,
    PbEmailUserIdPairListView,
    PbRecipeLinkRequestList,
    PbRecipeLinkRequestListView,
    PbSyncOperation,
    PbSyncOperationView,
    PbUserDataClientTimestamps,
    PbUserDataClientTimestampsView,
    PbUserDataResponse,
    PbUserDataResponseView,
    PbValue,
    PbValueList,
    PbValueListView,
    PbValueView,
    PbWatchSyncMultipartResponse,
    PbWatchSyncMultipartResponsePart,
    PbWatchSyncMultipartResponsePartView,
    PbWatchSyncMultipartResponseView,
    PbWatchSyncResponse,
    PbWatchSyncResponseView,
};
pub use assistants::{
    PbAlexaList,
    PbAlexaListItem,
    PbAlexaListItemView,
    PbAlexaListOperation,
    PbAlexaListOperationView,
    PbAlexaListView,
    PbAlexaTask,
    PbAlexaTaskView,
    PbAlexaUser,
    PbAlexaUserView,
    PbGoogleAssistantList,
    PbGoogleAssistantListItem,
    PbGoogleAssistantListItemView,
    PbGoogleAssistantListOperation,
    PbGoogleAssistantListOperationView,
    PbGoogleAssistantListView,
    PbGoogleAssistantTask,
    PbGoogleAssistantTaskView,
    PbGoogleAssistantUser,
    PbGoogleAssistantUserView,
};
pub use double::Double;
