//! Shopping lists, starter lists, their items, folders, stores and categories.

use crate::protobuf::anylist::account::{
    PbEmailUserIdPair,
    PbEmailUserIdPairView,
    PbNotificationLocation,
    PbNotificationLocationView,
    PbTimestamp,
    PbTimestampView,
};
use crate::protobuf::anylist::double::Double;
use vstd::prelude::*;

verus! {

/// The `Tag` message: tag.
#[derive(Clone, PartialEq, Debug)]
pub struct Tag {
    pub name: String,
    pub display_name: Option<String>,
    pub image_name: Option<String>,
    pub implied_tag_names: Vec<String>,
    pub search_terms: Vec<String>,
    pub product_ids: Vec<String>,
    pub price_stats: Option<Vec<u8>>,
    pub tag_type: Option<i32>,
}

/// The mathematical value of a [`Tag`].
#[verifier::ext_equal]
pub ghost struct TagView {
    pub name: Seq<char>,
    pub display_name: Option<Seq<char>>,
    pub image_name: Option<Seq<char>>,
    pub implied_tag_names: Seq<Seq<char>>,
    pub search_terms: Seq<Seq<char>>,
    pub product_ids: Seq<Seq<char>>,
    pub price_stats: Option<Seq<u8>>,
    pub tag_type: Option<i32>,
}

impl TagView {
    /// The message with no field set.
    pub open spec fn blank() -> TagView {
        TagView {
            name: Seq::empty(),
            display_name: None,
            image_name: None,
            implied_tag_names: Seq::empty(),
            search_terms: Seq::empty(),
            product_ids: Seq::empty(),
            price_stats: None,
            tag_type: None,
        }
    }
}

impl DeepView for Tag {
    type V = TagView;

    open spec fn deep_view(&self) -> TagView {
        TagView {
            name: self.name.deep_view(),
            display_name: self.display_name.deep_view(),
            image_name: self.image_name.deep_view(),
            implied_tag_names: self.implied_tag_names.deep_view(),
            search_terms: self.search_terms.deep_view(),
            product_ids: self.product_ids.deep_view(),
            price_stats: self.price_stats.deep_view(),
            tag_type: self.tag_type.deep_view(),
        }
    }
}

impl Default for Tag {
    /// The message with no field set.
    fn default() -> (message: Self)
        ensures
            message.deep_view() == TagView::blank(),
    {
        let message = Tag {
            name: String::new(),
            display_name: None,
            image_name: None,
            implied_tag_names: Vec::new(),
            search_terms: Vec::new(),
            product_ids: Vec::new(),
            price_stats: None,
            tag_type: None,
        };
        assert(message.deep_view() =~~= TagView::blank());
        message
    }
}

/// The `PbUserListData` message: user list data.
#[derive(Clone, PartialEq, Debug)]
pub struct PbUserListData {
    pub identifier: String,
    pub timestamp: Option<Double>,
    pub user_ids: Vec<String>,
    pub user_ids_timestamp: Option<Double>,
    pub list_ids: Vec<String>,
    pub list_ids_timestamp: Option<Double>,
    pub root_folder_id: Option<String>,
    pub root_folder_id_timestamp: Option<Double>,
    pub categorized_items_timestamp: Option<Double>,
    pub categorized_items_require_refresh_timestamp: Option<Double>,
    pub has_migrated_list_ordering: Option<bool>,
}

/// The mathematical value of a [`PbUserListData`].
#[verifier::ext_equal]
pub ghost struct PbUserListDataView {
    pub identifier: Seq<char>,
    pub timestamp: Option<Double>,
    pub user_ids: Seq<Seq<char>>,
    pub user_ids_timestamp: Option<Double>,
    pub list_ids: Seq<Seq<char>>,
    pub list_ids_timestamp: Option<Double>,
    pub root_folder_id: Option<Seq<char>>,
    pub root_folder_id_timestamp: Option<Double>,
    pub categorized_items_timestamp: Option<Double>,
    pub categorized_items_require_refresh_timestamp: Option<Double>,
    pub has_migrated_list_ordering: Option<bool>,
}

impl PbUserListDataView {
    /// The message with no field set.
    pub open spec fn blank() -> PbUserListDataView {
        PbUserListDataView {
            identifier: Seq::empty(),
            timestamp: None,
            user_ids: Seq::empty(),
            user_ids_timestamp: None,
            list_ids: Seq::empty(),
            list_ids_timestamp: None,
            root_folder_id: None,
            root_folder_id_timestamp: None,
            categorized_items_timestamp: None,
            categorized_items_require_refresh_timestamp: None,
            has_migrated_list_ordering: None,
        }
    }
}

impl DeepView for PbUserListData {
    type V = PbUserListDataView;

    open spec fn deep_view(&self) -> PbUserListDataView {
        PbUserListDataView {
            identifier: self.identifier.deep_view(),
            timestamp: self.timestamp.deep_view(),
            user_ids: self.user_ids.deep_view(),
            user_ids_timestamp: self.user_ids_timestamp.deep_view(),
            list_ids: self.list_ids.deep_view(),
            list_ids_timestamp: self.list_ids_timestamp.deep_view(),
            root_folder_id: self.root_folder_id.deep_view(),
            root_folder_id_timestamp: self.root_folder_id_timestamp.deep_view(),
            categorized_items_timestamp: self.categorized_items_timestamp.deep_view(),
            categorized_items_require_refresh_timestamp: self.categorized_items_require_refresh_timestamp.deep_view(),
            has_migrated_list_ordering: self.has_migrated_list_ordering.deep_view(),
        }
    }
}

impl Default for PbUserListData {
    /// The message with no field set.
    fn default() -> (message: Self)
        ensures
            message.deep_view() == PbUserListDataView::blank(),
    {
        let message = PbUserListData {
            identifier: String::new(),
            timestamp: None,
            user_ids: Vec::new(),
            user_ids_timestamp: None,
            list_ids: Vec::new(),
            list_ids_timestamp: None,
            root_folder_id: None,
            root_folder_id_timestamp: None,
            categorized_items_timestamp: None,
            categorized_items_require_refresh_timestamp: None,
            has_migrated_list_ordering: None,
        };
        assert(message.deep_view() =~~= PbUserListDataView::blank());
        message
    }
}

/// The `ShoppingList` message: shopping list.
#[derive(Clone, PartialEq, Debug)]
pub struct ShoppingList {
    pub identifier: String,
    pub timestamp: Option<Double>,
    pub name: Option<String>,
    pub items: Vec<ListItem>,
    pub creator: Option<String>,
    pub unusedattribute: Vec<String>,
    pub shared_users: Vec<PbEmailUserIdPair>,
    pub password: Option<String>,
    pub notification_locations: Vec<PbNotificationLocation>,
    pub logical_clock_time: Option<u64>,
    pub built_in_alexa_list_type: Option<String>,
    pub allows_multiple_list_category_groups: Option<bool>,
    pub list_item_sort_order: Option<i32>,
    pub new_list_item_position: Option<i32>,
}

/// The mathematical value of a [`ShoppingList`].
#[verifier::ext_equal]
pub ghost struct ShoppingListView {
    pub identifier: Seq<char>,
    pub timestamp: Option<Double>,
    pub name: Option<Seq<char>>,
    pub items: Seq<ListItemView>,
    pub creator: Option<Seq<char>>,
    pub unusedattribute: Seq<Seq<char>>,
    pub shared_users: Seq<PbEmailUserIdPairView>,
    pub password: Option<Seq<char>>,
    pub notification_locations: Seq<PbNotificationLocationView>,
    pub logical_clock_time: Option<u64>,
    pub built_in_alexa_list_type: Option<Seq<char>>,
    pub allows_multiple_list_category_groups: Option<bool>,
    pub list_item_sort_order: Option<i32>,
    pub new_list_item_position: Option<i32>,
}

impl ShoppingListView {
    /// The message with no field set.
    pub open spec fn blank() -> ShoppingListView {
        ShoppingListView {
            identifier: Seq::empty(),
            timestamp: None,
            name: None,
            items: Seq::empty(),
            creator: None,
            unusedattribute: Seq::empty(),
            shared_users: Seq::empty(),
            password: None,
            notification_locations: Seq::empty(),
            logical_clock_time: None,
            built_in_alexa_list_type: None,
            allows_multiple_list_category_groups: None,
            list_item_sort_order: None,
            new_list_item_position: None,
        }
    }
}

impl DeepView for ShoppingList {
    type V = ShoppingListView;

    open spec fn deep_view(&self) -> ShoppingListView {
        ShoppingListView {
            identifier: self.identifier.deep_view(),
            timestamp: self.timestamp.deep_view(),
            name: self.name.deep_view(),
            items: self.items.deep_view(),
            creator: self.creator.deep_view(),
            unusedattribute: self.unusedattribute.deep_view(),
            shared_users: self.shared_users.deep_view(),
            password: self.password.deep_view(),
            notification_locations: self.notification_locations.deep_view(),
            logical_clock_time: self.logical_clock_time.deep_view(),
            built_in_alexa_list_type: self.built_in_alexa_list_type.deep_view(),
            allows_multiple_list_category_groups: self.allows_multiple_list_category_groups.deep_view(),
            list_item_sort_order: self.list_item_sort_order.deep_view(),
            new_list_item_position: self.new_list_item_position.deep_view(),
        }
    }
}

impl Default for ShoppingList {
    /// The message with no field set.
    fn default() -> (message: Self)
        ensures
            message.deep_view() == ShoppingListView::blank(),
    {
        let message = ShoppingList {
            identifier: String::new(),
            timestamp: None,
            name: None,
            items: Vec::new(),
            creator: None,
            unusedattribute: Vec::new(),
            shared_users: Vec::new(),
            password: None,
            notification_locations: Vec::new(),
            logical_clock_time: None,
            built_in_alexa_list_type: None,
            allows_multiple_list_category_groups: None,
            list_item_sort_order: None,
            new_list_item_position: None,
        };
        assert(message.deep_view() =~~= ShoppingListView::blank());
        message
    }
}

/// The `ListItem` message: list item.
#[derive(Clone, PartialEq, Debug)]
pub struct ListItem {
    pub identifier: String,
    pub server_mod_time: Option<Double>,
    pub list_id: Option<String>,
    pub name: Option<String>,
    pub quantity: Option<String>,
    pub details: Option<String>,
    pub checked: Option<bool>,
    pub recipe_id: Option<String>,
    pub raw_ingredient: Option<String>,
    pub price_matchup_tag: Option<String>,
    pub price_id: Option<String>,
    pub category: Option<String>,
    pub user_id: Option<String>,
    pub category_match_id: Option<String>,
    pub photo_ids: Vec<String>,
    pub event_id: Option<String>,
    pub store_ids: Vec<String>,
    pub prices: Vec<PbItemPrice>,
    pub category_assignments: Vec<PbListItemCategoryAssignment>,
    pub manual_sort_index: Option<i32>,
}

/// The mathematical value of a [`ListItem`].
#[verifier::ext_equal]
pub ghost struct ListItemView {
    pub identifier: Seq<char>,
    pub server_mod_time: Option<Double>,
    pub list_id: Option<Seq<char>>,
    pub name: Option<Seq<char>>,
    pub quantity: Option<Seq<char>>,
    pub details: Option<Seq<char>>,
    pub checked: Option<bool>,
    pub recipe_id: Option<Seq<char>>,
    pub raw_ingredient: Option<Seq<char>>,
    pub price_matchup_tag: Option<Seq<char>>,
    pub price_id: Option<Seq<char>>,
    pub category: Option<Seq<char>>,
    pub user_id: Option<Seq<char>>,
    pub category_match_id: Option<Seq<char>>,
    pub photo_ids: Seq<Seq<char>>,
    pub event_id: Option<Seq<char>>,
    pub store_ids: Seq<Seq<char>>,
    pub prices: Seq<PbItemPriceView>,
    pub category_assignments: Seq<PbListItemCategoryAssignmentView>,
    pub manual_sort_index: Option<i32>,
}

impl ListItemView {
    /// The message with no field set.
    pub open spec fn blank() -> ListItemView {
        ListItemView {
            identifier: Seq::empty(),
            server_mod_time: None,
            list_id: None,
            name: None,
            quantity: None,
            details: None,
            checked: None,
            recipe_id: None,
            raw_ingredient: None,
            price_matchup_tag: None,
            price_id: None,
            category: None,
            user_id: None,
            category_match_id: None,
            photo_ids: Seq::empty(),
            event_id: None,
            store_ids: Seq::empty(),
            prices: Seq::empty(),
            category_assignments: Seq::empty(),
            manual_sort_index: None,
        }
    }
}

impl DeepView for ListItem {
    type V = ListItemView;

    open spec fn deep_view(&self) -> ListItemView {
        ListItemView {
            identifier: self.identifier.deep_view(),
            server_mod_time: self.server_mod_time.deep_view(),
            list_id: self.list_id.deep_view(),
            name: self.name.deep_view(),
            quantity: self.quantity.deep_view(),
            details: self.details.deep_view(),
            checked: self.checked.deep_view(),
            recipe_id: self.recipe_id.deep_view(),
            raw_ingredient: self.raw_ingredient.deep_view(),
            price_matchup_tag: self.price_matchup_tag.deep_view(),
            price_id: self.price_id.deep_view(),
            category: self.category.deep_view(),
            user_id: self.user_id.deep_view(),
            category_match_id: self.category_match_id.deep_view(),
            photo_ids: self.photo_ids.deep_view(),
            event_id: self.event_id.deep_view(),
            store_ids: self.store_ids.deep_view(),
            prices: self.prices.deep_view(),
            category_assignments: self.category_assignments.deep_view(),
            manual_sort_index: self.manual_sort_index.deep_view(),
        }
    }
}

impl Default for ListItem {
    /// The message with no field set.
    fn default() -> (message: Self)
        ensures
            message.deep_view() == ListItemView::blank(),
    {
        let message = ListItem {
            identifier: String::new(),
            server_mod_time: None,
            list_id: None,
            name: None,
            quantity: None,
            details: None,
            checked: None,
            recipe_id: None,
            raw_ingredient: None,
            price_matchup_tag: None,
            price_id: None,
            category: None,
            user_id: None,
            category_match_id: None,
            photo_ids: Vec::new(),
            event_id: None,
            store_ids: Vec::new(),
            prices: Vec::new(),
            category_assignments: Vec::new(),
            manual_sort_index: None,
        };
        assert(message.deep_view() =~~= ListItemView::blank());
        message
    }
}

/// The `PbItemPrice` message: item price.
#[derive(Clone, PartialEq, Debug)]
pub struct PbItemPrice {
    pub amount: Option<Double>,
    pub details: Option<String>,
    pub store_id: Option<String>,
    pub date: Option<String>,
}

/// The mathematical value of a [`PbItemPrice`].
#[verifier::ext_equal]
pub ghost struct PbItemPriceView {
    pub amount: Option<Double>,
    pub details: Option<Seq<char>>,
    pub store_id: Option<Seq<char>>,
    pub date: Option<Seq<char>>,
}

impl PbItemPriceView {
    /// The message with no field set.
    pub open spec fn blank() -> PbItemPriceView {
        PbItemPriceView {
            amount: None,
            details: None,
            store_id: None,
            date: None,
        }
    }
}

impl DeepView for PbItemPrice {
    type V = PbItemPriceView;

    open spec fn deep_view(&self) -> PbItemPriceView {
        PbItemPriceView {
            amount: self.amount.deep_view(),
            details: self.details.deep_view(),
            store_id: self.store_id.deep_view(),
            date: self.date.deep_view(),
        }
    }
}

impl Default for PbItemPrice {
    /// The message with no field set.
    fn default() -> (message: Self)
        ensures
            message.deep_view() == PbItemPriceView::blank(),
    {
        PbItemPrice {
            amount: None,
            details: None,
            store_id: None,
            date: None,
        }
    }
}

/// The `PbListFolderItem` message: list folder item.
#[derive(Clone, PartialEq, Debug)]
pub struct PbListFolderItem {
    pub identifier: String,
    pub item_type: Option<i32>,
}

/// The mathematical value of a [`PbListFolderItem`].
#[verifier::ext_equal]
pub ghost struct PbListFolderItemView {
    pub identifier: Seq<char>,
    pub item_type: Option<i32>,
}

impl PbListFolderItemView {
    /// The message with no field set.
    pub open spec fn blank() -> PbListFolderItemView {
        PbListFolderItemView {
            identifier: Seq::empty(),
            item_type: None,
        }
    }
}

impl DeepView for PbListFolderItem {
    type V = PbListFolderItemView;

    open spec fn deep_view(&self) -> PbListFolderItemView {
        PbListFolderItemView {
            identifier: self.identifier.deep_view(),
            item_type: self.item_type.deep_view(),
        }
    }
}

impl Default for PbListFolderItem {
    /// The message with no field set.
    fn default() -> (message: Self)
        ensures
            message.deep_view() == PbListFolderItemView::blank(),
    {
        PbListFolderItem {
            identifier: String::new(),
            item_type: None,
        }
    }
}

/// The `PbListFolderSettings` message: list folder settings.
#[derive(Clone, PartialEq, Debug)]
pub struct PbListFolderSettings {
    pub lists_sort_order: Option<i32>,
    pub folder_sort_position: Option<i32>,
    pub folder_hex_color: Option<String>,
}

/// The mathematical value of a [`PbListFolderSettings`].
#[verifier::ext_equal]
pub ghost struct PbListFolderSettingsView {
    pub lists_sort_order: Option<i32>,
    pub folder_sort_position: Option<i32>,
    pub folder_hex_color: Option<Seq<char>>,
}

impl PbListFolderSettingsView {
    /// The message with no field set.
    pub open spec fn blank() -> PbListFolderSettingsView {
        PbListFolderSettingsView {
            lists_sort_order: None,
            folder_sort_position: None,
            folder_hex_color: None,
        }
    }
}

impl DeepView for PbListFolderSettings {
    type V = PbListFolderSettingsView;

    open spec fn deep_view(&self) -> PbListFolderSettingsView {
        PbListFolderSettingsView {
            lists_sort_order: self.lists_sort_order.deep_view(),
            folder_sort_position: self.folder_sort_position.deep_view(),
            folder_hex_color: self.folder_hex_color.deep_view(),
        }
    }
}

impl Default for PbListFolderSettings {
    /// The message with no field set.
    fn default() -> (message: Self)
        ensures
            message.deep_view() == PbListFolderSettingsView::blank(),
    {
        PbListFolderSettings {
            lists_sort_order: None,
            folder_sort_position: None,
            folder_hex_color: None,
        }
    }
}

/// The `PbListFolder` message: list folder.
#[derive(Clone, PartialEq, Debug)]
pub struct PbListFolder {
    pub identifier: String,
    pub timestamp: Option<Double>,
    pub name: Option<String>,
    pub items: Vec<PbListFolderItem>,
    pub folder_settings: Option<PbListFolderSettings>,
}

/// The mathematical value of a [`PbListFolder`].
#[verifier::ext_equal]
pub ghost struct PbListFolderView {
    pub identifier: Seq<char>,
    pub timestamp: Option<Double>,
    pub name: Option<Seq<char>>,
    pub items: Seq<PbListFolderItemView>,
    pub folder_settings: Option<PbListFolderSettingsView>,
}

impl PbListFolderView {
    /// The message with no field set.
    pub open spec fn blank() -> PbListFolderView {
        PbListFolderView {
            identifier: Seq::empty(),
            timestamp: None,
            name: None,
            items: Seq::empty(),
            folder_settings: None,
        }
    }
}

impl DeepView for PbListFolder {
    type V = PbListFolderView;

    open spec fn deep_view(&self) -> PbListFolderView {
        PbListFolderView {
            identifier: self.identifier.deep_view(),
            timestamp: self.timestamp.deep_view(),
            name: self.name.deep_view(),
            items: self.items.deep_view(),
            folder_settings: self.folder_settings.deep_view(),
        }
    }
}

impl Default for PbListFolder {
    /// The message with no field set.
    fn default() -> (message: Self)
        ensures
            message.deep_view() == PbListFolderView::blank(),
    {
        let message = PbListFolder {
            identifier: String::new(),
            timestamp: None,
            name: None,
            items: Vec::new(),
            folder_settings: None,
        };
        assert(message.deep_view() =~~= PbListFolderView::blank());
        message
    }
}

/// The `PbListFoldersResponse` message: list folders response.
#[derive(Clone, PartialEq, Debug)]
pub struct PbListFoldersResponse {
    pub list_data_id: Option<String>,
    pub root_folder_id: Option<String>,
    pub includes_all_folders: Option<bool>,
    pub list_folders: Vec<PbListFolder>,
    pub deleted_folder_ids: Vec<String>,
    pub has_migrated_list_ordering: Option<bool>,
}

/// The mathematical value of a [`PbListFoldersResponse`].
#[verifier::ext_equal]
pub ghost struct PbListFoldersResponseView {
    pub list_data_id: Option<Seq<char>>,
    pub root_folder_id: Option<Seq<char>>,
    pub includes_all_folders: Option<bool>,
    pub list_folders: Seq<PbListFolderView>,
    pub deleted_folder_ids: Seq<Seq<char>>,
    pub has_migrated_list_ordering: Option<bool>,
}

impl PbListFoldersResponseView {
    /// The message with no field set.
    pub open spec fn blank() -> PbListFoldersResponseView {
        PbListFoldersResponseView {
            list_data_id: None,
            root_folder_id: None,
            includes_all_folders: None,
            list_folders: Seq::empty(),
            deleted_folder_ids: Seq::empty(),
            has_migrated_list_ordering: None,
        }
    }
}

impl DeepView for PbListFoldersResponse {
    type V = PbListFoldersResponseView;

    open spec fn deep_view(&self) -> PbListFoldersResponseView {
        PbListFoldersResponseView {
            list_data_id: self.list_data_id.deep_view(),
            root_folder_id: self.root_folder_id.deep_view(),
            includes_all_folders: self.includes_all_folders.deep_view(),
            list_folders: self.list_folders.deep_view(),
            deleted_folder_ids: self.deleted_folder_ids.deep_view(),
            has_migrated_list_ordering: self.has_migrated_list_ordering.deep_view(),
        }
    }
}

impl Default for PbListFoldersResponse {
    /// The message with no field set.
    fn default() -> (message: Self)
        ensures
            message.deep_view() == PbListFoldersResponseView::blank(),
    {
        let message = PbListFoldersResponse {
            list_data_id: None,
            root_folder_id: None,
            includes_all_folders: None,
            list_folders: Vec::new(),
            deleted_folder_ids: Vec::new(),
            has_migrated_list_ordering: None,
        };
        assert(message.deep_view() =~~= PbListFoldersResponseView::blank());
        message
    }
}

/// The `PbListFolderTimestamps` message: list folder timestamps.
#[derive(Clone, PartialEq, Debug)]
pub struct PbListFolderTimestamps {
    pub root_folder_id: Option<String>,
    pub folder_timestamps: Vec<PbTimestamp>,
}

/// The mathematical value of a [`PbListFolderTimestamps`].
#[verifier::ext_equal]
pub ghost struct PbListFolderTimestampsView {
    pub root_folder_id: Option<Seq<char>>,
    pub folder_timestamps: Seq<PbTimestampView>,
}

impl PbListFolderTimestampsView {
    /// The message with no field set.
    pub open spec fn blank() -> PbListFolderTimestampsView {
        PbListFolderTimestampsView {
            root_folder_id: None,
            folder_timestamps: Seq::empty(),
        }
    }
}

impl DeepView for PbListFolderTimestamps {
    type V = PbListFolderTimestampsView;

    open spec fn deep_view(&self) -> PbListFolderTimestampsView {
        PbListFolderTimestampsView {
            root_folder_id: self.root_folder_id.deep_view(),
            folder_timestamps: self.folder_timestamps.deep_view(),
        }
    }
}

impl Default for PbListFolderTimestamps {
    /// The message with no field set.
    fn default() -> (message: Self)
        ensures
            message.deep_view() == PbListFolderTimestampsView::blank(),
    {
        let message = PbListFolderTimestamps {
            root_folder_id: None,
            folder_timestamps: Vec::new(),
        };
        assert(message.deep_view() =~~= PbListFolderTimestampsView::blank());
        message
    }
}

/// The `PbListCategoryGroupResponse` message: list category group response.
#[derive(Clone, PartialEq, Debug)]
pub struct PbListCategoryGroupResponse {
    pub category_group: Option<PbListCategoryGroup>,
    pub deleted_category_ids: Vec<String>,
}

/// The mathematical value of a [`PbListCategoryGroupResponse`].
#[verifier::ext_equal]
pub ghost struct PbListCategoryGroupResponseView {
    pub category_group: Option<PbListCategoryGroupView>,
    pub deleted_category_ids: Seq<Seq<char>>,
}

impl PbListCategoryGroupResponseView {
    /// The message with no field set.
    pub open spec fn blank() -> PbListCategoryGroupResponseView {
        PbListCategoryGroupResponseView {
            category_group: None,
            deleted_category_ids: Seq::empty(),
        }
    }
}

impl DeepView for PbListCategoryGroupResponse {
    type V = PbListCategoryGroupResponseView;

    open spec fn deep_view(&self) -> PbListCategoryGroupResponseView {
        PbListCategoryGroupResponseView {
            category_group: self.category_group.deep_view(),
            deleted_category_ids: self.deleted_category_ids.deep_view(),
        }
    }
}

impl Default for PbListCategoryGroupResponse {
    /// The message with no field set.
    fn default() -> (message: Self)
        ensures
            message.deep_view() == PbListCategoryGroupResponseView::blank(),
    {
        let message = PbListCategoryGroupResponse {
            category_group: None,
            deleted_category_ids: Vec::new(),
        };
        assert(message.deep_view() =~~= PbListCategoryGroupResponseView::blank());
        message
    }
}

/// The `ShoppingListsResponse` message: shopping lists response.
#[derive(Clone, PartialEq, Debug)]
pub struct ShoppingListsResponse {
    pub new_lists: Vec<ShoppingList>,
    pub modified_lists: Vec<ShoppingList>,
    pub unmodified_ids: Vec<String>,
    pub unknown_ids: Vec<String>,
    pub ordered_ids: Vec<String>,
    pub list_responses: Vec<PbListResponse>,
}

/// The mathematical value of a [`ShoppingListsResponse`].
#[verifier::ext_equal]
pub ghost struct ShoppingListsResponseView {
    pub new_lists: Seq<ShoppingListView>,
    pub modified_lists: Seq<ShoppingListView>,
    pub unmodified_ids: Seq<Seq<char>>,
    pub unknown_ids: Seq<Seq<char>>,
    pub ordered_ids: Seq<Seq<char>>,
    pub list_responses: Seq<PbListResponseView>,
}

impl ShoppingListsResponseView {
    /// The message with no field set.
    pub open spec fn blank() -> ShoppingListsResponseView {
        ShoppingListsResponseView {
            new_lists: Seq::empty(),
            modified_lists: Seq::empty(),
            unmodified_ids: Seq::empty(),
            unknown_ids: Seq::empty(),
            ordered_ids: Seq::empty(),
            list_responses: Seq::empty(),
        }
    }
}

impl DeepView for ShoppingListsResponse {
    type V = ShoppingListsResponseView;

    open spec fn deep_view(&self) -> ShoppingListsResponseView {
        ShoppingListsResponseView {
            new_lists: self.new_lists.deep_view(),
            modified_lists: self.modified_lists.deep_view(),
            unmodified_ids: self.unmodified_ids.deep_view(),
            unknown_ids: self.unknown_ids.deep_view(),
            ordered_ids: self.ordered_ids.deep_view(),
            list_responses: self.list_responses.deep_view(),
        }
    }
}

impl Default for ShoppingListsResponse {
    /// The message with no field set.
    fn default() -> (message: Self)
        ensures
            message.deep_view() == ShoppingListsResponseView::blank(),
    {
        let message = ShoppingListsResponse {
            new_lists: Vec::new(),
            modified_lists: Vec::new(),
            unmodified_ids: Vec::new(),
            unknown_ids: Vec::new(),
            ordered_ids: Vec::new(),
            list_responses: Vec::new(),
        };
        assert(message.deep_view() =~~= ShoppingListsResponseView::blank());
        message
    }
}

/// The `PbListResponse` message: list response.
#[derive(Clone, PartialEq, Debug)]
pub struct PbListResponse {
    pub list_id: Option<String>,
    pub is_full_sync: Option<bool>,
    pub logical_timestamp: Option<u64>,
    pub category_group_responses: Vec<PbListCategoryGroupResponse>,
    pub deleted_category_group_ids: Vec<String>,
    pub categorization_rules: Vec<PbListCategorizationRule>,
    pub deleted_categorization_rule_ids: Vec<String>,
    pub stores: Vec<PbStore>,
    pub deleted_store_ids: Vec<String>,
    pub store_filters: Vec<PbStoreFilter>,
    pub deleted_store_filter_ids: Vec<String>,
}

/// The mathematical value of a [`PbListResponse`].
#[verifier::ext_equal]
pub ghost struct PbListResponseView {
    pub list_id: Option<Seq<char>>,
    pub is_full_sync: Option<bool>,
    pub logical_timestamp: Option<u64>,
    pub category_group_responses: Seq<PbListCategoryGroupResponseView>,
    pub deleted_category_group_ids: Seq<Seq<char>>,
    pub categorization_rules: Seq<PbListCategorizationRuleView>,
    pub deleted_categorization_rule_ids: Seq<Seq<char>>,
    pub stores: Seq<PbStoreView>,
    pub deleted_store_ids: Seq<Seq<char>>,
    pub store_filters: Seq<PbStoreFilterView>,
    pub deleted_store_filter_ids: Seq<Seq<char>>,
}

impl PbListResponseView {
    /// The message with no field set.
    pub open spec fn blank() -> PbListResponseView {
        PbListResponseView {
            list_id: None,
            is_full_sync: None,
            logical_timestamp: None,
            category_group_responses: Seq::empty(),
            deleted_category_group_ids: Seq::empty(),
            categorization_rules: Seq::empty(),
            deleted_categorization_rule_ids: Seq::empty(),
            stores: Seq::empty(),
            deleted_store_ids: Seq::empty(),
            store_filters: Seq::empty(),
            deleted_store_filter_ids: Seq::empty(),
        }
    }
}

impl DeepView for PbListResponse {
    type V = PbListResponseView;

    open spec fn deep_view(&self) -> PbListResponseView {
        PbListResponseView {
            list_id: self.list_id.deep_view(),
            is_full_sync: self.is_full_sync.deep_view(),
            logical_timestamp: self.logical_timestamp.deep_view(),
            category_group_responses: self.category_group_responses.deep_view(),
            deleted_category_group_ids: self.deleted_category_group_ids.deep_view(),
            categorization_rules: self.categorization_rules.deep_view(),
            deleted_categorization_rule_ids: self.deleted_categorization_rule_ids.deep_view(),
            stores: self.stores.deep_view(),
            deleted_store_ids: self.deleted_store_ids.deep_view(),
            store_filters: self.store_filters.deep_view(),
            deleted_store_filter_ids: self.deleted_store_filter_ids.deep_view(),
        }
    }
}

impl Default for PbListResponse {
    /// The message with no field set.
    fn default() -> (message: Self)
        ensures
            message.deep_view() == PbListResponseView::blank(),
    {
        let message = PbListResponse {
            list_id: None,
            is_full_sync: None,
            logical_timestamp: None,
            category_group_responses: Vec::new(),
            deleted_category_group_ids: Vec::new(),
            categorization_rules: Vec::new(),
            deleted_categorization_rule_ids: Vec::new(),
            stores: Vec::new(),
            deleted_store_ids: Vec::new(),
            store_filters: Vec::new(),
            deleted_store_filter_ids: Vec::new(),
        };
        assert(message.deep_view() =~~= PbListResponseView::blank());
        message
    }
}

/// The `StarterList` message: starter list.
#[derive(Clone, PartialEq, Debug)]
pub struct StarterList {
    pub identifier: String,
    pub timestamp: Option<Double>,
    pub name: Option<String>,
    pub items: Vec<ListItem>,
    pub user_id: Option<String>,
    pub list_id: Option<String>,
    pub starter_list_type: Option<i32>,
}

/// The mathematical value of a [`StarterList`].
#[verifier::ext_equal]
pub ghost struct StarterListView {
    pub identifier: Seq<char>,
    pub timestamp: Option<Double>,
    pub name: Option<Seq<char>>,
    pub items: Seq<ListItemView>,
    pub user_id: Option<Seq<char>>,
    pub list_id: Option<Seq<char>>,
    pub starter_list_type: Option<i32>,
}

impl StarterListView {
    /// The message with no field set.
    pub open spec fn blank() -> StarterListView {
        StarterListView {
            identifier: Seq::empty(),
            timestamp: None,
            name: None,
            items: Seq::empty(),
            user_id: None,
            list_id: None,
            starter_list_type: None,
        }
    }
}

impl DeepView for StarterList {
    type V = StarterListView;

    open spec fn deep_view(&self) -> StarterListView {
        StarterListView {
            identifier: self.identifier.deep_view(),
            timestamp: self.timestamp.deep_view(),
            name: self.name.deep_view(),
            items: self.items.deep_view(),
            user_id: self.user_id.deep_view(),
            list_id: self.list_id.deep_view(),
            starter_list_type: self.starter_list_type.deep_view(),
        }
    }
}

impl Default for StarterList {
    /// The message with no field set.
    fn default() -> (message: Self)
        ensures
            message.deep_view() == StarterListView::blank(),
    {
        let message = StarterList {
            identifier: String::new(),
            timestamp: None,
            name: None,
            items: Vec::new(),
            user_id: None,
            list_id: None,
            starter_list_type: None,
        };
        assert(message.deep_view() =~~= StarterListView::blank());
        message
    }
}

/// The `StarterListResponse` message: starter list response.
#[derive(Clone, PartialEq, Debug)]
pub struct StarterListResponse {
    pub starter_list: Option<StarterList>,
}

/// The mathematical value of a [`StarterListResponse`].
#[verifier::ext_equal]
pub ghost struct StarterListResponseView {
    pub starter_list: Option<StarterListView>,
}

impl StarterListResponseView {
    /// The message with no field set.
    pub open spec fn blank() -> StarterListResponseView {
        StarterListResponseView {
            starter_list: None,
        }
    }
}

impl DeepView for StarterListResponse {
    type V = StarterListResponseView;

    open spec fn deep_view(&self) -> StarterListResponseView {
        StarterListResponseView {
            starter_list: self.starter_list.deep_view(),
        }
    }
}

impl Default for StarterListResponse {
    /// The message with no field set.
    fn default() -> (message: Self)
        ensures
            message.deep_view() == StarterListResponseView::blank(),
    {
        StarterListResponse {
            starter_list: None,
        }
    }
}

/// The `StarterListBatchResponse` message: starter list batch response.
#[derive(Clone, PartialEq, Debug)]
pub struct StarterListBatchResponse {
    pub list_responses: Vec<StarterListResponse>,
    pub includes_all_lists: Option<bool>,
    pub unknown_list_ids: Vec<String>,
}

/// The mathematical value of a [`StarterListBatchResponse`].
#[verifier::ext_equal]
pub ghost struct StarterListBatchResponseView {
    pub list_responses: Seq<StarterListResponseView>,
    pub includes_all_lists: Option<bool>,
    pub unknown_list_ids: Seq<Seq<char>>,
}

impl StarterListBatchResponseView {
    /// The message with no field set.
    pub open spec fn blank() -> StarterListBatchResponseView {
        StarterListBatchResponseView {
            list_responses: Seq::empty(),
            includes_all_lists: None,
            unknown_list_ids: Seq::empty(),
        }
    }
}

impl DeepView for StarterListBatchResponse {
    type V = StarterListBatchResponseView;

    open spec fn deep_view(&self) -> StarterListBatchResponseView {
        StarterListBatchResponseView {
            list_responses: self.list_responses.deep_view(),
            includes_all_lists: self.includes_all_lists.deep_view(),
            unknown_list_ids: self.unknown_list_ids.deep_view(),
        }
    }
}

impl Default for StarterListBatchResponse {
    /// The message with no field set.
    fn default() -> (message: Self)
        ensures
            message.deep_view() == StarterListBatchResponseView::blank(),
    {
        let message = StarterListBatchResponse {
            list_responses: Vec::new(),
            includes_all_lists: None,
            unknown_list_ids: Vec::new(),
        };
        assert(message.deep_view() =~~= StarterListBatchResponseView::blank());
        message
    }
}

/// The `StarterListsResponseV2` message: starter lists responsev2.
#[derive(Clone, PartialEq, Debug)]
pub struct StarterListsResponseV2 {
    pub user_lists_response: Option<StarterListBatchResponse>,
    pub recent_item_lists_response: Option<StarterListBatchResponse>,
    pub favorite_item_lists_response: Option<StarterListBatchResponse>,
    pub has_migrated_user_favorites: Option<bool>,
}

/// The mathematical value of a [`StarterListsResponseV2`].
#[verifier::ext_equal]
pub ghost struct StarterListsResponseV2View {
    pub user_lists_response: Option<StarterListBatchResponseView>,
    pub recent_item_lists_response: Option<StarterListBatchResponseView>,
    pub favorite_item_lists_response: Option<StarterListBatchResponseView>,
    pub has_migrated_user_favorites: Option<bool>,
}

impl StarterListsResponseV2View {
    /// The message with no field set.
    pub open spec fn blank() -> StarterListsResponseV2View {
        StarterListsResponseV2View {
            user_lists_response: None,
            recent_item_lists_response: None,
            favorite_item_lists_response: None,
            has_migrated_user_favorites: None,
        }
    }
}

impl DeepView for StarterListsResponseV2 {
    type V = StarterListsResponseV2View;

    open spec fn deep_view(&self) -> StarterListsResponseV2View {
        StarterListsResponseV2View {
            user_lists_response: self.user_lists_response.deep_view(),
            recent_item_lists_response: self.recent_item_lists_response.deep_view(),
            favorite_item_lists_response: self.favorite_item_lists_response.deep_view(),
            has_migrated_user_favorites: self.has_migrated_user_favorites.deep_view(),
        }
    }
}

impl Default for StarterListsResponseV2 {
    /// The message with no field set.
    fn default() -> (message: Self)
        ensures
            message.deep_view() == StarterListsResponseV2View::blank(),
    {
        StarterListsResponseV2 {
            user_lists_response: None,
            recent_item_lists_response: None,
            favorite_item_lists_response: None,
            has_migrated_user_favorites: None,
        }
    }
}

/// The `StarterListsResponse` message: starter lists response.
#[derive(Clone, PartialEq, Debug)]
pub struct StarterListsResponse {
    pub new_lists: Vec<StarterList>,
    pub modified_lists: Vec<StarterList>,
    pub unmodified_ids: Vec<String>,
    pub unknown_ids: Vec<String>,
    pub ordered_ids: Vec<String>,
}

/// The mathematical value of a [`StarterListsResponse`].
#[verifier::ext_equal]
pub ghost struct StarterListsResponseView {
    pub new_lists: Seq<StarterListView>,
    pub modified_lists: Seq<StarterListView>,
    pub unmodified_ids: Seq<Seq<char>>,
    pub unknown_ids: Seq<Seq<char>>,
    pub ordered_ids: Seq<Seq<char>>,
}

impl StarterListsResponseView {
    /// The message with no field set.
    pub open spec fn blank() -> StarterListsResponseView {
        StarterListsResponseView {
            new_lists: Seq::empty(),
            modified_lists: Seq::empty(),
            unmodified_ids: Seq::empty(),
            unknown_ids: Seq::empty(),
            ordered_ids: Seq::empty(),
        }
    }
}

impl DeepView for StarterListsResponse {
    type V = StarterListsResponseView;

    open spec fn deep_view(&self) -> StarterListsResponseView {
        StarterListsResponseView {
            new_lists: self.new_lists.deep_view(),
            modified_lists: self.modified_lists.deep_view(),
            unmodified_ids: self.unmodified_ids.deep_view(),
            unknown_ids: self.unknown_ids.deep_view(),
            ordered_ids: self.ordered_ids.deep_view(),
        }
    }
}

impl Default for StarterListsResponse {
    /// The message with no field set.
    fn default() -> (message: Self)
        ensures
            message.deep_view() == StarterListsResponseView::blank(),
    {
        let message = StarterListsResponse {
            new_lists: Vec::new(),
            modified_lists: Vec::new(),
            unmodified_ids: Vec::new(),
            unknown_ids: Vec::new(),
            ordered_ids: Vec::new(),
        };
        assert(message.deep_view() =~~= StarterListsResponseView::blank());
        message
    }
}

/// The `PbStore` message: store.
#[derive(Clone, PartialEq, Debug)]
pub struct PbStore {
    pub identifier: String,
    pub logical_timestamp: Option<u64>,
    pub list_id: Option<String>,
    pub name: Option<String>,
    pub sort_index: Option<i32>,
}

/// The mathematical value of a [`PbStore`].
#[verifier::ext_equal]
pub ghost struct PbStoreView {
    pub identifier: Seq<char>,
    pub logical_timestamp: Option<u64>,
    pub list_id: Option<Seq<char>>,
    pub name: Option<Seq<char>>,
    pub sort_index: Option<i32>,
}

impl PbStoreView {
    /// The message with no field set.
    pub open spec fn blank() -> PbStoreView {
        PbStoreView {
            identifier: Seq::empty(),
            logical_timestamp: None,
            list_id: None,
            name: None,
            sort_index: None,
        }
    }
}

impl DeepView for PbStore {
    type V = PbStoreView;

    open spec fn deep_view(&self) -> PbStoreView {
        PbStoreView {
            identifier: self.identifier.deep_view(),
            logical_timestamp: self.logical_timestamp.deep_view(),
            list_id: self.list_id.deep_view(),
            name: self.name.deep_view(),
            sort_index: self.sort_index.deep_view(),
        }
    }
}

impl Default for PbStore {
    /// The message with no field set.
    fn default() -> (message: Self)
        ensures
            message.deep_view() == PbStoreView::blank(),
    {
        PbStore {
            identifier: String::new(),
            logical_timestamp: None,
            list_id: None,
            name: None,
            sort_index: None,
        }
    }
}

/// The `PbStoreFilter` message: store filter.
#[derive(Clone, PartialEq, Debug)]
pub struct PbStoreFilter {
    pub identifier: String,
    pub logical_timestamp: Option<u64>,
    pub list_id: Option<String>,
    pub name: Option<String>,
    pub store_ids: Vec<String>,
    pub includes_unassigned_items: Option<bool>,
    pub sort_index: Option<i32>,
    pub list_category_group_id: Option<String>,
    pub shows_all_items: Option<bool>,
}

/// The mathematical value of a [`PbStoreFilter`].
#[verifier::ext_equal]
pub ghost struct PbStoreFilterView {
    pub identifier: Seq<char>,
    pub logical_timestamp: Option<u64>,
    pub list_id: Option<Seq<char>>,
    pub name: Option<Seq<char>>,
    pub store_ids: Seq<Seq<char>>,
    pub includes_unassigned_items: Option<bool>,
    pub sort_index: Option<i32>,
    pub list_category_group_id: Option<Seq<char>>,
    pub shows_all_items: Option<bool>,
}

impl PbStoreFilterView {
    /// The message with no field set.
    pub open spec fn blank() -> PbStoreFilterView {
        PbStoreFilterView {
            identifier: Seq::empty(),
            logical_timestamp: None,
            list_id: None,
            name: None,
            store_ids: Seq::empty(),
            includes_unassigned_items: None,
            sort_index: None,
            list_category_group_id: None,
            shows_all_items: None,
        }
    }
}

impl DeepView for PbStoreFilter {
    type V = PbStoreFilterView;

    open spec fn deep_view(&self) -> PbStoreFilterView {
        PbStoreFilterView {
            identifier: self.identifier.deep_view(),
            logical_timestamp: self.logical_timestamp.deep_view(),
            list_id: self.list_id.deep_view(),
            name: self.name.deep_view(),
            store_ids: self.store_ids.deep_view(),
            includes_unassigned_items: self.includes_unassigned_items.deep_view(),
            sort_index: self.sort_index.deep_view(),
            list_category_group_id: self.list_category_group_id.deep_view(),
            shows_all_items: self.shows_all_items.deep_view(),
        }
    }
}

impl Default for PbStoreFilter {
    /// The message with no field set.
    fn default() -> (message: Self)
        ensures
            message.deep_view() == PbStoreFilterView::blank(),
    {
        let message = PbStoreFilter {
            identifier: String::new(),
            logical_timestamp: None,
            list_id: None,
            name: None,
            store_ids: Vec::new(),
            includes_unassigned_items: None,
            sort_index: None,
            list_category_group_id: None,
            shows_all_items: None,
        };
        assert(message.deep_view() =~~= PbStoreFilterView::blank());
        message
    }
}

/// The `PbListCategory` message: list category.
#[derive(Clone, PartialEq, Debug)]
pub struct PbListCategory {
    pub identifier: Option<String>,
    pub logical_timestamp: Option<u64>,
    pub category_group_id: Option<String>,
    pub list_id: Option<String>,
    pub name: Option<String>,
    pub icon: Option<String>,
    pub system_category: Option<String>,
    pub sort_index: Option<i32>,
}

/// The mathematical value of a [`PbListCategory`].
#[verifier::ext_equal]
pub ghost struct PbListCategoryView {
    pub identifier: Option<Seq<char>>,
    pub logical_timestamp: Option<u64>,
    pub category_group_id: Option<Seq<char>>,
    pub list_id: Option<Seq<char>>,
    pub name: Option<Seq<char>>,
    pub icon: Option<Seq<char>>,
    pub system_category: Option<Seq<char>>,
    pub sort_index: Option<i32>,
}

impl PbListCategoryView {
    /// The message with no field set.
    pub open spec fn blank() -> PbListCategoryView {
        PbListCategoryView {
            identifier: None,
            logical_timestamp: None,
            category_group_id: None,
            list_id: None,
            name: None,
            icon: None,
            system_category: None,
            sort_index: None,
        }
    }
}

impl DeepView for PbListCategory {
    type V = PbListCategoryView;

    open spec fn deep_view(&self) -> PbListCategoryView {
        PbListCategoryView {
            identifier: self.identifier.deep_view(),
            logical_timestamp: self.logical_timestamp.deep_view(),
            category_group_id: self.category_group_id.deep_view(),
            list_id: self.list_id.deep_view(),
            name: self.name.deep_view(),
            icon: self.icon.deep_view(),
            system_category: self.system_category.deep_view(),
            sort_index: self.sort_index.deep_view(),
        }
    }
}

impl Default for PbListCategory {
    /// The message with no field set.
    fn default() -> (message: Self)
        ensures
            message.deep_view() == PbListCategoryView::blank(),
    {
        PbListCategory {
            identifier: None,
            logical_timestamp: None,
            category_group_id: None,
            list_id: None,
            name: None,
            icon: None,
            system_category: None,
            sort_index: None,
        }
    }
}

/// The `PbListCategoryGroup` message: list category group.
#[derive(Clone, PartialEq, Debug)]
pub struct PbListCategoryGroup {
    pub identifier: Option<String>,
    pub logical_timestamp: Option<u64>,
    pub list_id: Option<String>,
    pub name: Option<String>,
    pub categories: Vec<PbListCategory>,
    pub default_category_id: Option<String>,
    pub categories_logical_timestamp: Option<u64>,
    pub deleted_categories_logical_timestamp: Option<u64>,
}

/// The mathematical value of a [`PbListCategoryGroup`].
#[verifier::ext_equal]
pub ghost struct PbListCategoryGroupView {
    pub identifier: Option<Seq<char>>,
    pub logical_timestamp: Option<u64>,
    pub list_id: Option<Seq<char>>,
    pub name: Option<Seq<char>>,
    pub categories: Seq<PbListCategoryView>,
    pub default_category_id: Option<Seq<char>>,
    pub categories_logical_timestamp: Option<u64>,
    pub deleted_categories_logical_timestamp: Option<u64>,
}

impl PbListCategoryGroupView {
    /// The message with no field set.
    pub open spec fn blank() -> PbListCategoryGroupView {
        PbListCategoryGroupView {
            identifier: None,
            logical_timestamp: None,
            list_id: None,
            name: None,
            categories: Seq::empty(),
            default_category_id: None,
            categories_logical_timestamp: None,
            deleted_categories_logical_timestamp: None,
        }
    }
}

impl DeepView for PbListCategoryGroup {
    type V = PbListCategoryGroupView;

    open spec fn deep_view(&self) -> PbListCategoryGroupView {
        PbListCategoryGroupView {
            identifier: self.identifier.deep_view(),
            logical_timestamp: self.logical_timestamp.deep_view(),
            list_id: self.list_id.deep_view(),
            name: self.name.deep_view(),
            categories: self.categories.deep_view(),
            default_category_id: self.default_category_id.deep_view(),
            categories_logical_timestamp: self.categories_logical_timestamp.deep_view(),
            deleted_categories_logical_timestamp: self.deleted_categories_logical_timestamp.deep_view(),
        }
    }
}

impl Default for PbListCategoryGroup {
    /// The message with no field set.
    fn default() -> (message: Self)
        ensures
            message.deep_view() == PbListCategoryGroupView::blank(),
    {
        let message = PbListCategoryGroup {
            identifier: None,
            logical_timestamp: None,
            list_id: None,
            name: None,
            categories: Vec::new(),
            default_category_id: None,
            categories_logical_timestamp: None,
            deleted_categories_logical_timestamp: None,
        };
        assert(message.deep_view() =~~= PbListCategoryGroupView::blank());
        message
    }
}

/// The `PbListCategorizationRule` message: list categorization rule.
#[derive(Clone, PartialEq, Debug)]
pub struct PbListCategorizationRule {
    pub identifier: Option<String>,
    pub logical_timestamp: Option<u64>,
    pub list_id: Option<String>,
    pub category_group_id: Option<String>,
    pub item_name: Option<String>,
    pub category_id: Option<String>,
}

/// The mathematical value of a [`PbListCategorizationRule`].
#[verifier::ext_equal]
pub ghost struct PbListCategorizationRuleView {
    pub identifier: Option<Seq<char>>,
    pub logical_timestamp: Option<u64>,
    pub list_id: Option<Seq<char>>,
    pub category_group_id: Option<Seq<char>>,
    pub item_name: Option<Seq<char>>,
    pub category_id: Option<Seq<char>>,
}

impl PbListCategorizationRuleView {
    /// The message with no field set.
    pub open spec fn blank() -> PbListCategorizationRuleView {
        PbListCategorizationRuleView {
            identifier: None,
            logical_timestamp: None,
            list_id: None,
            category_group_id: None,
            item_name: None,
            category_id: None,
        }
    }
}

impl DeepView for PbListCategorizationRule {
    type V = PbListCategorizationRuleView;

    open spec fn deep_view(&self) -> PbListCategorizationRuleView {
        PbListCategorizationRuleView {
            identifier: self.identifier.deep_view(),
            logical_timestamp: self.logical_timestamp.deep_view(),
            list_id: self.list_id.deep_view(),
            category_group_id: self.category_group_id.deep_view(),
            item_name: self.item_name.deep_view(),
            category_id: self.category_id.deep_view(),
        }
    }
}

impl Default for PbListCategorizationRule {
    /// The message with no field set.
    fn default() -> (message: Self)
        ensures
            message.deep_view() == PbListCategorizationRuleView::blank(),
    {
        PbListCategorizationRule {
            identifier: None,
            logical_timestamp: None,
            list_id: None,
            category_group_id: None,
            item_name: None,
            category_id: None,
        }
    }
}

/// The `PbListCategorizationRuleList` message: list categorization rule list.
#[derive(Clone, PartialEq, Debug)]
pub struct PbListCategorizationRuleList {
    pub identifier: Option<String>,
    pub logical_timestamp: Option<u64>,
    pub list_id: Option<String>,
    pub categorization_rules: Vec<PbListCategorizationRule>,
    pub categorization_rules_logical_timestamp: Option<u64>,
    pub deleted_categorization_rules_logical_timestamp: Option<u64>,
}

/// The mathematical value of a [`PbListCategorizationRuleList`].
#[verifier::ext_equal]
pub ghost struct PbListCategorizationRuleListView {
    pub identifier: Option<Seq<char>>,
    pub logical_timestamp: Option<u64>,
    pub list_id: Option<Seq<char>>,
    pub categorization_rules: Seq<PbListCategorizationRuleView>,
    pub categorization_rules_logical_timestamp: Option<u64>,
    pub deleted_categorization_rules_logical_timestamp: Option<u64>,
}

impl PbListCategorizationRuleListView {
    /// The message with no field set.
    pub open spec fn blank() -> PbListCategorizationRuleListView {
        PbListCategorizationRuleListView {
            identifier: None,
            logical_timestamp: None,
            list_id: None,
            categorization_rules: Seq::empty(),
            categorization_rules_logical_timestamp: None,
            deleted_categorization_rules_logical_timestamp: None,
        }
    }
}

impl DeepView for PbListCategorizationRuleList {
    type V = PbListCategorizationRuleListView;

    open spec fn deep_view(&self) -> PbListCategorizationRuleListView {
        PbListCategorizationRuleListView {
            identifier: self.identifier.deep_view(),
            logical_timestamp: self.logical_timestamp.deep_view(),
            list_id: self.list_id.deep_view(),
            categorization_rules: self.categorization_rules.deep_view(),
            categorization_rules_logical_timestamp: self.categorization_rules_logical_timestamp.deep_view(),
            deleted_categorization_rules_logical_timestamp: self.deleted_categorization_rules_logical_timestamp.deep_view(),
        }
    }
}

impl Default for PbListCategorizationRuleList {
    /// The message with no field set.
    fn default() -> (message: Self)
        ensures
            message.deep_view() == PbListCategorizationRuleListView::blank(),
    {
        let message = PbListCategorizationRuleList {
            identifier: None,
            logical_timestamp: None,
            list_id: None,
            categorization_rules: Vec::new(),
            categorization_rules_logical_timestamp: None,
            deleted_categorization_rules_logical_timestamp: None,
        };
        assert(message.deep_view() =~~= PbListCategorizationRuleListView::blank());
        message
    }
}

/// The `PbListItemCategoryAssignment` message: list item category assignment.
#[derive(Clone, PartialEq, Debug)]
pub struct PbListItemCategoryAssignment {
    pub identifier: Option<String>,
    pub category_group_id: Option<String>,
    pub category_id: Option<String>,
}

/// The mathematical value of a [`PbListItemCategoryAssignment`].
#[verifier::ext_equal]
pub ghost struct PbListItemCategoryAssignmentView {
    pub identifier: Option<Seq<char>>,
    pub category_group_id: Option<Seq<char>>,
    pub category_id: Option<Seq<char>>,
}

impl PbListItemCategoryAssignmentView {
    /// The message with no field set.
    pub open spec fn blank() -> PbListItemCategoryAssignmentView {
        PbListItemCategoryAssignmentView {
            identifier: None,
            category_group_id: None,
            category_id: None,
        }
    }
}

impl DeepView for PbListItemCategoryAssignment {
    type V = PbListItemCategoryAssignmentView;

    open spec fn deep_view(&self) -> PbListItemCategoryAssignmentView {
        PbListItemCategoryAssignmentView {
            identifier: self.identifier.deep_view(),
            category_group_id: self.category_group_id.deep_view(),
            category_id: self.category_id.deep_view(),
        }
    }
}

impl Default for PbListItemCategoryAssignment {
    /// The message with no field set.
    fn default() -> (message: Self)
        ensures
            message.deep_view() == PbListItemCategoryAssignmentView::blank(),
    {
        PbListItemCategoryAssignment {
            identifier: None,
            category_group_id: None,
            category_id: None,
        }
    }
}

} // verus!
