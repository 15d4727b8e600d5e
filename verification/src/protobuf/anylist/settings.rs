//! List settings, themes, app settings and user categories.

use crate::protobuf::anylist::account::{
    PbTimestamp,
    PbTimestampView,
};
use crate::protobuf::anylist::assistants::{
    PbAlexaList,
    PbAlexaListView,
    PbGoogleAssistantList,
    PbGoogleAssistantListView,
};
use crate::protobuf::anylist::double::Double;
use crate::protobuf::anylist::operations::{
    PbCategoryOrdering,
    PbCategoryOrderingView,
    PbOperationMetadata,
    PbOperationMetadataView,
};
use crate::protobuf::anylist::recipes::{
    PbRecipeCollectionSettings,
    PbRecipeCollectionSettingsView,
};
use vstd::prelude::*;

verus! {

/// The `PbListSettings` message: list settings.
#[derive(Clone, PartialEq, Debug)]
pub struct PbListSettings {
    pub identifier: String,
    pub user_id: Option<String>,
    pub list_id: Option<String>,
    pub timestamp: Option<Double>,
    pub should_hide_categories: Option<bool>,
    pub selected_category_ordering: Option<String>,
    pub category_orderings: Vec<PbCategoryOrdering>,
    pub generic_grocery_autocomplete_enabled: Option<bool>,
    pub list_item_sort_order: Option<String>,
    pub category_grouping_id: Option<String>,
    pub should_remember_item_categories: Option<bool>,
    pub favorites_autocomplete_enabled: Option<bool>,
    pub recent_items_autocomplete_enabled: Option<bool>,
    pub should_hide_completed_items: Option<bool>,
    pub list_color_type: Option<i32>,
    pub list_theme_id: Option<String>,
    pub custom_theme: Option<PbListTheme>,
    pub badge_mode: Option<String>,
    pub location_notifications_enabled: Option<bool>,
    pub store_filter_id: Option<String>,
    pub should_hide_store_names: Option<bool>,
    pub should_hide_running_totals: Option<bool>,
    pub should_hide_prices: Option<bool>,
    pub left_running_total_type: Option<i32>,
    pub right_running_total_type: Option<i32>,
    pub linked_alexa_list_id: Option<String>,
    pub list_category_group_id: Option<String>,
    pub migration_list_category_group_id_for_new_list: Option<String>,
    pub should_show_shared_list_category_order_hint_banner: Option<bool>,
    pub linked_google_assistant_list_id: Option<String>,
}

/// The mathematical value of a [`PbListSettings`].
#[verifier::ext_equal]
pub ghost struct PbListSettingsView {
    pub identifier: Seq<char>,
    pub user_id: Option<Seq<char>>,
    pub list_id: Option<Seq<char>>,
    pub timestamp: Option<Double>,
    pub should_hide_categories: Option<bool>,
    pub selected_category_ordering: Option<Seq<char>>,
    pub category_orderings: Seq<PbCategoryOrderingView>,
    pub generic_grocery_autocomplete_enabled: Option<bool>,
    pub list_item_sort_order: Option<Seq<char>>,
    pub category_grouping_id: Option<Seq<char>>,
    pub should_remember_item_categories: Option<bool>,
    pub favorites_autocomplete_enabled: Option<bool>,
    pub recent_items_autocomplete_enabled: Option<bool>,
    pub should_hide_completed_items: Option<bool>,
    pub list_color_type: Option<i32>,
    pub list_theme_id: Option<Seq<char>>,
    pub custom_theme: Option<PbListThemeView>,
    pub badge_mode: Option<Seq<char>>,
    pub location_notifications_enabled: Option<bool>,
    pub store_filter_id: Option<Seq<char>>,
    pub should_hide_store_names: Option<bool>,
    pub should_hide_running_totals: Option<bool>,
    pub should_hide_prices: Option<bool>,
    pub left_running_total_type: Option<i32>,
    pub right_running_total_type: Option<i32>,
    pub linked_alexa_list_id: Option<Seq<char>>,
    pub list_category_group_id: Option<Seq<char>>,
    pub migration_list_category_group_id_for_new_list: Option<Seq<char>>,
    pub should_show_shared_list_category_order_hint_banner: Option<bool>,
    pub linked_google_assistant_list_id: Option<Seq<char>>,
}

impl PbListSettingsView {
    /// The message with no field set.
    pub open spec fn blank() -> PbListSettingsView {
        PbListSettingsView {
            identifier: Seq::empty(),
            user_id: None,
            list_id: None,
            timestamp: None,
            should_hide_categories: None,
            selected_category_ordering: None,
            category_orderings: Seq::empty(),
            generic_grocery_autocomplete_enabled: None,
            list_item_sort_order: None,
            category_grouping_id: None,
            should_remember_item_categories: None,
            favorites_autocomplete_enabled: None,
            recent_items_autocomplete_enabled: None,
            should_hide_completed_items: None,
            list_color_type: None,
            list_theme_id: None,
            custom_theme: None,
            badge_mode: None,
            location_notifications_enabled: None,
            store_filter_id: None,
            should_hide_store_names: None,
            should_hide_running_totals: None,
            should_hide_prices: None,
            left_running_total_type: None,
            right_running_total_type: None,
            linked_alexa_list_id: None,
            list_category_group_id: None,
            migration_list_category_group_id_for_new_list: None,
            should_show_shared_list_category_order_hint_banner: None,
            linked_google_assistant_list_id: None,
        }
    }
}

impl DeepView for PbListSettings {
    type V = PbListSettingsView;

    open spec fn deep_view(&self) -> PbListSettingsView {
        PbListSettingsView {
            identifier: self.identifier.deep_view(),
            user_id: self.user_id.deep_view(),
            list_id: self.list_id.deep_view(),
            timestamp: self.timestamp.deep_view(),
            should_hide_categories: self.should_hide_categories.deep_view(),
            selected_category_ordering: self.selected_category_ordering.deep_view(),
            category_orderings: self.category_orderings.deep_view(),
            generic_grocery_autocomplete_enabled: self.generic_grocery_autocomplete_enabled.deep_view(),
            list_item_sort_order: self.list_item_sort_order.deep_view(),
            category_grouping_id: self.category_grouping_id.deep_view(),
            should_remember_item_categories: self.should_remember_item_categories.deep_view(),
            favorites_autocomplete_enabled: self.favorites_autocomplete_enabled.deep_view(),
            recent_items_autocomplete_enabled: self.recent_items_autocomplete_enabled.deep_view(),
            should_hide_completed_items: self.should_hide_completed_items.deep_view(),
            list_color_type: self.list_color_type.deep_view(),
            list_theme_id: self.list_theme_id.deep_view(),
            custom_theme: self.custom_theme.deep_view(),
            badge_mode: self.badge_mode.deep_view(),
            location_notifications_enabled: self.location_notifications_enabled.deep_view(),
            store_filter_id: self.store_filter_id.deep_view(),
            should_hide_store_names: self.should_hide_store_names.deep_view(),
            should_hide_running_totals: self.should_hide_running_totals.deep_view(),
            should_hide_prices: self.should_hide_prices.deep_view(),
            left_running_total_type: self.left_running_total_type.deep_view(),
            right_running_total_type: self.right_running_total_type.deep_view(),
            linked_alexa_list_id: self.linked_alexa_list_id.deep_view(),
            list_category_group_id: self.list_category_group_id.deep_view(),
            migration_list_category_group_id_for_new_list: self.migration_list_category_group_id_for_new_list.deep_view(),
            should_show_shared_list_category_order_hint_banner: self.should_show_shared_list_category_order_hint_banner.deep_view(),
            linked_google_assistant_list_id: self.linked_google_assistant_list_id.deep_view(),
        }
    }
}

impl Default for PbListSettings {
    /// The message with no field set.
    fn default() -> (message: Self)
        ensures
            message.deep_view() == PbListSettingsView::blank(),
    {
        let message = PbListSettings {
            identifier: String::new(),
            user_id: None,
            list_id: None,
            timestamp: None,
            should_hide_categories: None,
            selected_category_ordering: None,
            category_orderings: Vec::new(),
            generic_grocery_autocomplete_enabled: None,
            list_item_sort_order: None,
            category_grouping_id: None,
            should_remember_item_categories: None,
            favorites_autocomplete_enabled: None,
            recent_items_autocomplete_enabled: None,
            should_hide_completed_items: None,
            list_color_type: None,
            list_theme_id: None,
            custom_theme: None,
            badge_mode: None,
            location_notifications_enabled: None,
            store_filter_id: None,
            should_hide_store_names: None,
            should_hide_running_totals: None,
            should_hide_prices: None,
            left_running_total_type: None,
            right_running_total_type: None,
            linked_alexa_list_id: None,
            list_category_group_id: None,
            migration_list_category_group_id_for_new_list: None,
            should_show_shared_list_category_order_hint_banner: None,
            linked_google_assistant_list_id: None,
        };
        assert(message.deep_view() =~~= PbListSettingsView::blank());
        message
    }
}

/// The `PbListSettingsList` message: list settings list.
#[derive(Clone, PartialEq, Debug)]
pub struct PbListSettingsList {
    pub timestamp: Option<PbTimestamp>,
    pub settings: Vec<PbListSettings>,
}

/// The mathematical value of a [`PbListSettingsList`].
#[verifier::ext_equal]
pub ghost struct PbListSettingsListView {
    pub timestamp: Option<PbTimestampView>,
    pub settings: Seq<PbListSettingsView>,
}

impl PbListSettingsListView {
    /// The message with no field set.
    pub open spec fn blank() -> PbListSettingsListView {
        PbListSettingsListView {
            timestamp: None,
            settings: Seq::empty(),
        }
    }
}

impl DeepView for PbListSettingsList {
    type V = PbListSettingsListView;

    open spec fn deep_view(&self) -> PbListSettingsListView {
        PbListSettingsListView {
            timestamp: self.timestamp.deep_view(),
            settings: self.settings.deep_view(),
        }
    }
}

impl Default for PbListSettingsList {
    /// The message with no field set.
    fn default() -> (message: Self)
        ensures
            message.deep_view() == PbListSettingsListView::blank(),
    {
        let message = PbListSettingsList {
            timestamp: None,
            settings: Vec::new(),
        };
        assert(message.deep_view() =~~= PbListSettingsListView::blank());
        message
    }
}

/// The `PbListSettingsOperation` message: list settings operation.
#[derive(Clone, PartialEq, Debug)]
pub struct PbListSettingsOperation {
    pub metadata: Option<PbOperationMetadata>,
    pub updated_settings: Option<PbListSettings>,
}

/// The mathematical value of a [`PbListSettingsOperation`].
#[verifier::ext_equal]
pub ghost struct PbListSettingsOperationView {
    pub metadata: Option<PbOperationMetadataView>,
    pub updated_settings: Option<PbListSettingsView>,
}

impl PbListSettingsOperationView {
    /// The message with no field set.
    pub open spec fn blank() -> PbListSettingsOperationView {
        PbListSettingsOperationView {
            metadata: None,
            updated_settings: None,
        }
    }
}

impl DeepView for PbListSettingsOperation {
    type V = PbListSettingsOperationView;

    open spec fn deep_view(&self) -> PbListSettingsOperationView {
        PbListSettingsOperationView {
            metadata: self.metadata.deep_view(),
            updated_settings: self.updated_settings.deep_view(),
        }
    }
}

impl Default for PbListSettingsOperation {
    /// The message with no field set.
    fn default() -> (message: Self)
        ensures
            message.deep_view() == PbListSettingsOperationView::blank(),
    {
        PbListSettingsOperation {
            metadata: None,
            updated_settings: None,
        }
    }
}

/// The `PbListSettingsOperationList` message: list settings operation list.
#[derive(Clone, PartialEq, Debug)]
pub struct PbListSettingsOperationList {
    pub operations: Vec<PbListSettingsOperation>,
}

/// The mathematical value of a [`PbListSettingsOperationList`].
#[verifier::ext_equal]
pub ghost struct PbListSettingsOperationListView {
    pub operations: Seq<PbListSettingsOperationView>,
}

impl PbListSettingsOperationListView {
    /// The message with no field set.
    pub open spec fn blank() -> PbListSettingsOperationListView {
        PbListSettingsOperationListView {
            operations: Seq::empty(),
        }
    }
}

impl DeepView for PbListSettingsOperationList {
    type V = PbListSettingsOperationListView;

    open spec fn deep_view(&self) -> PbListSettingsOperationListView {
        PbListSettingsOperationListView {
            operations: self.operations.deep_view(),
        }
    }
}

impl Default for PbListSettingsOperationList {
    /// The message with no field set.
    fn default() -> (message: Self)
        ensures
            message.deep_view() == PbListSettingsOperationListView::blank(),
    {
        let message = PbListSettingsOperationList {
            operations: Vec::new(),
        };
        assert(message.deep_view() =~~= PbListSettingsOperationListView::blank());
        message
    }
}

/// The `PbListTheme` message: list theme.
#[derive(Clone, PartialEq, Debug)]
pub struct PbListTheme {
    pub identifier: String,
    pub timestamp: Option<Double>,
    pub user_id: Option<String>,
    pub name: Option<String>,
    pub font_name: Option<String>,
    pub banner_hex_color: Option<String>,
    pub background_hex_color: Option<String>,
    pub background_texture: Option<String>,
    pub item_name_hex_color: Option<String>,
    pub item_details_hex_color: Option<String>,
    pub control_hex_color: Option<String>,
    pub separator_hex_color: Option<String>,
    pub navigation_bar_hex_color: Option<String>,
    pub cell_hex_color: Option<String>,
    pub cell_texture: Option<String>,
    pub table_hex_color: Option<String>,
    pub table_texture: Option<String>,
    pub background_image: Option<String>,
    pub selection_hex_color: Option<String>,
}

/// The mathematical value of a [`PbListTheme`].
#[verifier::ext_equal]
pub ghost struct PbListThemeView {
    pub identifier: Seq<char>,
    pub timestamp: Option<Double>,
    pub user_id: Option<Seq<char>>,
    pub name: Option<Seq<char>>,
    pub font_name: Option<Seq<char>>,
    pub banner_hex_color: Option<Seq<char>>,
    pub background_hex_color: Option<Seq<char>>,
    pub background_texture: Option<Seq<char>>,
    pub item_name_hex_color: Option<Seq<char>>,
    pub item_details_hex_color: Option<Seq<char>>,
    pub control_hex_color: Option<Seq<char>>,
    pub separator_hex_color: Option<Seq<char>>,
    pub navigation_bar_hex_color: Option<Seq<char>>,
    pub cell_hex_color: Option<Seq<char>>,
    pub cell_texture: Option<Seq<char>>,
    pub table_hex_color: Option<Seq<char>>,
    pub table_texture: Option<Seq<char>>,
    pub background_image: Option<Seq<char>>,
    pub selection_hex_color: Option<Seq<char>>,
}

impl PbListThemeView {
    /// The message with no field set.
    pub open spec fn blank() -> PbListThemeView {
        PbListThemeView {
            identifier: Seq::empty(),
            timestamp: None,
            user_id: None,
            name: None,
            font_name: None,
            banner_hex_color: None,
            background_hex_color: None,
            background_texture: None,
            item_name_hex_color: None,
            item_details_hex_color: None,
            control_hex_color: None,
            separator_hex_color: None,
            navigation_bar_hex_color: None,
            cell_hex_color: None,
            cell_texture: None,
            table_hex_color: None,
            table_texture: None,
            background_image: None,
            selection_hex_color: None,
        }
    }
}

impl DeepView for PbListTheme {
    type V = PbListThemeView;

    open spec fn deep_view(&self) -> PbListThemeView {
        PbListThemeView {
            identifier: self.identifier.deep_view(),
            timestamp: self.timestamp.deep_view(),
            user_id: self.user_id.deep_view(),
            name: self.name.deep_view(),
            font_name: self.font_name.deep_view(),
            banner_hex_color: self.banner_hex_color.deep_view(),
            background_hex_color: self.background_hex_color.deep_view(),
            background_texture: self.background_texture.deep_view(),
            item_name_hex_color: self.item_name_hex_color.deep_view(),
            item_details_hex_color: self.item_details_hex_color.deep_view(),
            control_hex_color: self.control_hex_color.deep_view(),
            separator_hex_color: self.separator_hex_color.deep_view(),
            navigation_bar_hex_color: self.navigation_bar_hex_color.deep_view(),
            cell_hex_color: self.cell_hex_color.deep_view(),
            cell_texture: self.cell_texture.deep_view(),
            table_hex_color: self.table_hex_color.deep_view(),
            table_texture: self.table_texture.deep_view(),
            background_image: self.background_image.deep_view(),
            selection_hex_color: self.selection_hex_color.deep_view(),
        }
    }
}

impl Default for PbListTheme {
    /// The message with no field set.
    fn default() -> (message: Self)
        ensures
            message.deep_view() == PbListThemeView::blank(),
    {
        PbListTheme {
            identifier: String::new(),
            timestamp: None,
            user_id: None,
            name: None,
            font_name: None,
            banner_hex_color: None,
            background_hex_color: None,
            background_texture: None,
            item_name_hex_color: None,
            item_details_hex_color: None,
            control_hex_color: None,
            separator_hex_color: None,
            navigation_bar_hex_color: None,
            cell_hex_color: None,
            cell_texture: None,
            table_hex_color: None,
            table_texture: None,
            background_image: None,
            selection_hex_color: None,
        }
    }
}

/// The `PbListThemeList` message: list theme list.
#[derive(Clone, PartialEq, Debug)]
pub struct PbListThemeList {
    pub timestamp: Option<PbTimestamp>,
    pub themes: Vec<PbListTheme>,
}

/// The mathematical value of a [`PbListThemeList`].
#[verifier::ext_equal]
pub ghost struct PbListThemeListView {
    pub timestamp: Option<PbTimestampView>,
    pub themes: Seq<PbListThemeView>,
}

impl PbListThemeListView {
    /// The message with no field set.
    pub open spec fn blank() -> PbListThemeListView {
        PbListThemeListView {
            timestamp: None,
            themes: Seq::empty(),
        }
    }
}

impl DeepView for PbListThemeList {
    type V = PbListThemeListView;

    open spec fn deep_view(&self) -> PbListThemeListView {
        PbListThemeListView {
            timestamp: self.timestamp.deep_view(),
            themes: self.themes.deep_view(),
        }
    }
}

impl Default for PbListThemeList {
    /// The message with no field set.
    fn default() -> (message: Self)
        ensures
            message.deep_view() == PbListThemeListView::blank(),
    {
        let message = PbListThemeList {
            timestamp: None,
            themes: Vec::new(),
        };
        assert(message.deep_view() =~~= PbListThemeListView::blank());
        message
    }
}

/// The `PbMobileAppSettings` message: mobile app settings.
#[derive(Clone, PartialEq, Debug)]
pub struct PbMobileAppSettings {
    pub identifier: String,
    pub timestamp: Option<Double>,
    pub default_list_id: Option<String>,
    pub cross_off_gesture: Option<String>,
    pub lists_sort_order: Option<String>,
    pub starter_lists_sort_order: Option<String>,
    pub reminders_app_import_enabled: Option<bool>,
    pub app_badge_mode: Option<String>,
    pub should_auto_import_reminders: Option<bool>,
    pub should_prevent_screen_autolock: Option<bool>,
    pub prompt_to_load_photos_over_cellular_data: Option<bool>,
    pub list_id_for_recipe_ingredients: Option<String>,
    pub web_selected_recipe_id: Option<String>,
    pub web_selected_recipe_collection_id: Option<String>,
    pub web_selected_tab_id: Option<String>,
    pub web_selected_list_folder_path: Option<String>,
    pub web_selected_meal_plan_tab: Option<i32>,
    pub web_has_hidden_stores_and_filters_help: Option<bool>,
    pub web_has_hidden_item_prices_help: Option<bool>,
    pub web_decimal_separator: Option<String>,
    pub web_currency_code: Option<String>,
    pub web_currency_symbol: Option<String>,
    pub hint_banner_display_stats: Vec<PbHintBannerDisplayStats>,
    pub web_selected_recipe_collection_settings_override: Option<PbRecipeCollectionSettings>,
    pub should_use_metric_units: Option<bool>,
    pub unlinked_alexa_lists: Vec<PbAlexaList>,
    pub alexa_skill_has_list_read_permission: Option<bool>,
    pub alexa_skill_has_list_write_permission: Option<bool>,
    pub is_account_linked_to_alexa_skill: Option<bool>,
    pub alexa_api_endpoint: Option<String>,
    pub alexa_skill_only_supports_built_in_lists: Option<bool>,
    pub has_migrated_user_categories_to_list_categories: Option<bool>,
    pub unlinked_google_assistant_lists: Vec<PbGoogleAssistantList>,
    pub is_account_linked_to_google_assistant: Option<bool>,
    pub is_active_google_assistant_provider: Option<bool>,
    pub client_has_shown_google_assistant_onboarding: Option<bool>,
}

/// The mathematical value of a [`PbMobileAppSettings`].
#[verifier::ext_equal]
pub ghost struct PbMobileAppSettingsView {
    pub identifier: Seq<char>,
    pub timestamp: Option<Double>,
    pub default_list_id: Option<Seq<char>>,
    pub cross_off_gesture: Option<Seq<char>>,
    pub lists_sort_order: Option<Seq<char>>,
    pub starter_lists_sort_order: Option<Seq<char>>,
    pub reminders_app_import_enabled: Option<bool>,
    pub app_badge_mode: Option<Seq<char>>,
    pub should_auto_import_reminders: Option<bool>,
    pub should_prevent_screen_autolock: Option<bool>,
    pub prompt_to_load_photos_over_cellular_data: Option<bool>,
    pub list_id_for_recipe_ingredients: Option<Seq<char>>,
    pub web_selected_recipe_id: Option<Seq<char>>,
    pub web_selected_recipe_collection_id: Option<Seq<char>>,
    pub web_selected_tab_id: Option<Seq<char>>,
    pub web_selected_list_folder_path: Option<Seq<char>>,
    pub web_selected_meal_plan_tab: Option<i32>,
    pub web_has_hidden_stores_and_filters_help: Option<bool>,
    pub web_has_hidden_item_prices_help: Option<bool>,
    pub web_decimal_separator: Option<Seq<char>>,
    pub web_currency_code: Option<Seq<char>>,
    pub web_currency_symbol: Option<Seq<char>>,
    pub hint_banner_display_stats: Seq<PbHintBannerDisplayStatsView>,
    pub web_selected_recipe_collection_settings_override: Option<PbRecipeCollectionSettingsView>,
    pub should_use_metric_units: Option<bool>,
    pub unlinked_alexa_lists: Seq<PbAlexaListView>,
    pub alexa_skill_has_list_read_permission: Option<bool>,
    pub alexa_skill_has_list_write_permission: Option<bool>,
    pub is_account_linked_to_alexa_skill: Option<bool>,
    pub alexa_api_endpoint: Option<Seq<char>>,
    pub alexa_skill_only_supports_built_in_lists: Option<bool>,
    pub has_migrated_user_categories_to_list_categories: Option<bool>,
    pub unlinked_google_assistant_lists: Seq<PbGoogleAssistantListView>,
    pub is_account_linked_to_google_assistant: Option<bool>,
    pub is_active_google_assistant_provider: Option<bool>,
    pub client_has_shown_google_assistant_onboarding: Option<bool>,
}

impl PbMobileAppSettingsView {
    /// The message with no field set.
    pub open spec fn blank() -> PbMobileAppSettingsView {
        PbMobileAppSettingsView {
            identifier: Seq::empty(),
            timestamp: None,
            default_list_id: None,
            cross_off_gesture: None,
            lists_sort_order: None,
            starter_lists_sort_order: None,
            reminders_app_import_enabled: None,
            app_badge_mode: None,
            should_auto_import_reminders: None,
            should_prevent_screen_autolock: None,
            prompt_to_load_photos_over_cellular_data: None,
            list_id_for_recipe_ingredients: None,
            web_selected_recipe_id: None,
            web_selected_recipe_collection_id: None,
            web_selected_tab_id: None,
            web_selected_list_folder_path: None,
            web_selected_meal_plan_tab: None,
            web_has_hidden_stores_and_filters_help: None,
            web_has_hidden_item_prices_help: None,
            web_decimal_separator: None,
            web_currency_code: None,
            web_currency_symbol: None,
            hint_banner_display_stats: Seq::empty(),
            web_selected_recipe_collection_settings_override: None,
            should_use_metric_units: None,
            unlinked_alexa_lists: Seq::empty(),
            alexa_skill_has_list_read_permission: None,
            alexa_skill_has_list_write_permission: None,
            is_account_linked_to_alexa_skill: None,
            alexa_api_endpoint: None,
            alexa_skill_only_supports_built_in_lists: None,
            has_migrated_user_categories_to_list_categories: None,
            unlinked_google_assistant_lists: Seq::empty(),
            is_account_linked_to_google_assistant: None,
            is_active_google_assistant_provider: None,
            client_has_shown_google_assistant_onboarding: None,
        }
    }
}

impl DeepView for PbMobileAppSettings {
    type V = PbMobileAppSettingsView;

    open spec fn deep_view(&self) -> PbMobileAppSettingsView {
        PbMobileAppSettingsView {
            identifier: self.identifier.deep_view(),
            timestamp: self.timestamp.deep_view(),
            default_list_id: self.default_list_id.deep_view(),
            cross_off_gesture: self.cross_off_gesture.deep_view(),
            lists_sort_order: self.lists_sort_order.deep_view(),
            starter_lists_sort_order: self.starter_lists_sort_order.deep_view(),
            reminders_app_import_enabled: self.reminders_app_import_enabled.deep_view(),
            app_badge_mode: self.app_badge_mode.deep_view(),
            should_auto_import_reminders: self.should_auto_import_reminders.deep_view(),
            should_prevent_screen_autolock: self.should_prevent_screen_autolock.deep_view(),
            prompt_to_load_photos_over_cellular_data: self.prompt_to_load_photos_over_cellular_data.deep_view(),
            list_id_for_recipe_ingredients: self.list_id_for_recipe_ingredients.deep_view(),
            web_selected_recipe_id: self.web_selected_recipe_id.deep_view(),
            web_selected_recipe_collection_id: self.web_selected_recipe_collection_id.deep_view(),
            web_selected_tab_id: self.web_selected_tab_id.deep_view(),
            web_selected_list_folder_path: self.web_selected_list_folder_path.deep_view(),
            web_selected_meal_plan_tab: self.web_selected_meal_plan_tab.deep_view(),
            web_has_hidden_stores_and_filters_help: self.web_has_hidden_stores_and_filters_help.deep_view(),
            web_has_hidden_item_prices_help: self.web_has_hidden_item_prices_help.deep_view(),
            web_decimal_separator: self.web_decimal_separator.deep_view(),
            web_currency_code: self.web_currency_code.deep_view(),
            web_currency_symbol: self.web_currency_symbol.deep_view(),
            hint_banner_display_stats: self.hint_banner_display_stats.deep_view(),
            web_selected_recipe_collection_settings_override: self.web_selected_recipe_collection_settings_override.deep_view(),
            should_use_metric_units: self.should_use_metric_units.deep_view(),
            unlinked_alexa_lists: self.unlinked_alexa_lists.deep_view(),
            alexa_skill_has_list_read_permission: self.alexa_skill_has_list_read_permission.deep_view(),
            alexa_skill_has_list_write_permission: self.alexa_skill_has_list_write_permission.deep_view(),
            is_account_linked_to_alexa_skill: self.is_account_linked_to_alexa_skill.deep_view(),
            alexa_api_endpoint: self.alexa_api_endpoint.deep_view(),
            alexa_skill_only_supports_built_in_lists: self.alexa_skill_only_supports_built_in_lists.deep_view(),
            has_migrated_user_categories_to_list_categories: self.has_migrated_user_categories_to_list_categories.deep_view(),
            unlinked_google_assistant_lists: self.unlinked_google_assistant_lists.deep_view(),
            is_account_linked_to_google_assistant: self.is_account_linked_to_google_assistant.deep_view(),
            is_active_google_assistant_provider: self.is_active_google_assistant_provider.deep_view(),
            client_has_shown_google_assistant_onboarding: self.client_has_shown_google_assistant_onboarding.deep_view(),
        }
    }
}

impl Default for PbMobileAppSettings {
    /// The message with no field set.
    fn default() -> (message: Self)
        ensures
            message.deep_view() == PbMobileAppSettingsView::blank(),
    {
        let message = PbMobileAppSettings {
            identifier: String::new(),
            timestamp: None,
            default_list_id: None,
            cross_off_gesture: None,
            lists_sort_order: None,
            starter_lists_sort_order: None,
            reminders_app_import_enabled: None,
            app_badge_mode: None,
            should_auto_import_reminders: None,
            should_prevent_screen_autolock: None,
            prompt_to_load_photos_over_cellular_data: None,
            list_id_for_recipe_ingredients: None,
            web_selected_recipe_id: None,
            web_selected_recipe_collection_id: None,
            web_selected_tab_id: None,
            web_selected_list_folder_path: None,
            web_selected_meal_plan_tab: None,
            web_has_hidden_stores_and_filters_help: None,
            web_has_hidden_item_prices_help: None,
            web_decimal_separator: None,
            web_currency_code: None,
            web_currency_symbol: None,
            hint_banner_display_stats: Vec::new(),
            web_selected_recipe_collection_settings_override: None,
            should_use_metric_units: None,
            unlinked_alexa_lists: Vec::new(),
            alexa_skill_has_list_read_permission: None,
            alexa_skill_has_list_write_permission: None,
            is_account_linked_to_alexa_skill: None,
            alexa_api_endpoint: None,
            alexa_skill_only_supports_built_in_lists: None,
            has_migrated_user_categories_to_list_categories: None,
            unlinked_google_assistant_lists: Vec::new(),
            is_account_linked_to_google_assistant: None,
            is_active_google_assistant_provider: None,
            client_has_shown_google_assistant_onboarding: None,
        };
        assert(message.deep_view() =~~= PbMobileAppSettingsView::blank());
        message
    }
}

/// The `PbHintBannerDisplayStats` message: hint banner display stats.
#[derive(Clone, PartialEq, Debug)]
pub struct PbHintBannerDisplayStats {
    pub identifier: String,
    pub display_timestamps: Vec<Double>,
}

/// The mathematical value of a [`PbHintBannerDisplayStats`].
#[verifier::ext_equal]
pub ghost struct PbHintBannerDisplayStatsView {
    pub identifier: Seq<char>,
    pub display_timestamps: Seq<Double>,
}

impl PbHintBannerDisplayStatsView {
    /// The message with no field set.
    pub open spec fn blank() -> PbHintBannerDisplayStatsView {
        PbHintBannerDisplayStatsView {
            identifier: Seq::empty(),
            display_timestamps: Seq::empty(),
        }
    }
}

impl DeepView for PbHintBannerDisplayStats {
    type V = PbHintBannerDisplayStatsView;

    open spec fn deep_view(&self) -> PbHintBannerDisplayStatsView {
        PbHintBannerDisplayStatsView {
            identifier: self.identifier.deep_view(),
            display_timestamps: self.display_timestamps.deep_view(),
        }
    }
}

impl Default for PbHintBannerDisplayStats {
    /// The message with no field set.
    fn default() -> (message: Self)
        ensures
            message.deep_view() == PbHintBannerDisplayStatsView::blank(),
    {
        let message = PbHintBannerDisplayStats {
            identifier: String::new(),
            display_timestamps: Vec::new(),
        };
        assert(message.deep_view() =~~= PbHintBannerDisplayStatsView::blank());
        message
    }
}

/// The `PbMobileAppSettingsOperation` message: mobile app settings operation.
#[derive(Clone, PartialEq, Debug)]
pub struct PbMobileAppSettingsOperation {
    pub metadata: Option<PbOperationMetadata>,
    pub updated_settings: Option<PbMobileAppSettings>,
}

/// The mathematical value of a [`PbMobileAppSettingsOperation`].
#[verifier::ext_equal]
pub ghost struct PbMobileAppSettingsOperationView {
    pub metadata: Option<PbOperationMetadataView>,
    pub updated_settings: Option<PbMobileAppSettingsView>,
}

impl PbMobileAppSettingsOperationView {
    /// The message with no field set.
    pub open spec fn blank() -> PbMobileAppSettingsOperationView {
        PbMobileAppSettingsOperationView {
            metadata: None,
            updated_settings: None,
        }
    }
}

impl DeepView for PbMobileAppSettingsOperation {
    type V = PbMobileAppSettingsOperationView;

    open spec fn deep_view(&self) -> PbMobileAppSettingsOperationView {
        PbMobileAppSettingsOperationView {
            metadata: self.metadata.deep_view(),
            updated_settings: self.updated_settings.deep_view(),
        }
    }
}

impl Default for PbMobileAppSettingsOperation {
    /// The message with no field set.
    fn default() -> (message: Self)
        ensures
            message.deep_view() == PbMobileAppSettingsOperationView::blank(),
    {
        PbMobileAppSettingsOperation {
            metadata: None,
            updated_settings: None,
        }
    }
}

/// The `PbMobileAppSettingsOperationList` message: mobile app settings operation list.
#[derive(Clone, PartialEq, Debug)]
pub struct PbMobileAppSettingsOperationList {
    pub operations: Vec<PbMobileAppSettingsOperation>,
}

/// The mathematical value of a [`PbMobileAppSettingsOperationList`].
#[verifier::ext_equal]
pub ghost struct PbMobileAppSettingsOperationListView {
    pub operations: Seq<PbMobileAppSettingsOperationView>,
}

impl PbMobileAppSettingsOperationListView {
    /// The message with no field set.
    pub open spec fn blank() -> PbMobileAppSettingsOperationListView {
        PbMobileAppSettingsOperationListView {
            operations: Seq::empty(),
        }
    }
}

impl DeepView for PbMobileAppSettingsOperationList {
    type V = PbMobileAppSettingsOperationListView;

    open spec fn deep_view(&self) -> PbMobileAppSettingsOperationListView {
        PbMobileAppSettingsOperationListView {
            operations: self.operations.deep_view(),
        }
    }
}

impl Default for PbMobileAppSettingsOperationList {
    /// The message with no field set.
    fn default() -> (message: Self)
        ensures
            message.deep_view() == PbMobileAppSettingsOperationListView::blank(),
    {
        let message = PbMobileAppSettingsOperationList {
            operations: Vec::new(),
        };
        assert(message.deep_view() =~~= PbMobileAppSettingsOperationListView::blank());
        message
    }
}

/// The `PbUserCategory` message: user category.
#[derive(Clone, PartialEq, Debug)]
pub struct PbUserCategory {
    pub identifier: Option<String>,
    pub user_id: Option<String>,
    pub name: Option<String>,
    pub icon: Option<String>,
    pub system_category: Option<String>,
    pub category_match_id: Option<String>,
    pub from_shared_list: Option<bool>,
    pub timestamp: Option<Double>,
}

/// The mathematical value of a [`PbUserCategory`].
#[verifier::ext_equal]
pub ghost struct PbUserCategoryView {
    pub identifier: Option<Seq<char>>,
    pub user_id: Option<Seq<char>>,
    pub name: Option<Seq<char>>,
    pub icon: Option<Seq<char>>,
    pub system_category: Option<Seq<char>>,
    pub category_match_id: Option<Seq<char>>,
    pub from_shared_list: Option<bool>,
    pub timestamp: Option<Double>,
}

impl PbUserCategoryView {
    /// The message with no field set.
    pub open spec fn blank() -> PbUserCategoryView {
        PbUserCategoryView {
            identifier: None,
            user_id: None,
            name: None,
            icon: None,
            system_category: None,
            category_match_id: None,
            from_shared_list: None,
            timestamp: None,
        }
    }
}

impl DeepView for PbUserCategory {
    type V = PbUserCategoryView;

    open spec fn deep_view(&self) -> PbUserCategoryView {
        PbUserCategoryView {
            identifier: self.identifier.deep_view(),
            user_id: self.user_id.deep_view(),
            name: self.name.deep_view(),
            icon: self.icon.deep_view(),
            system_category: self.system_category.deep_view(),
            category_match_id: self.category_match_id.deep_view(),
            from_shared_list: self.from_shared_list.deep_view(),
            timestamp: self.timestamp.deep_view(),
        }
    }
}

impl Default for PbUserCategory {
    /// The message with no field set.
    fn default() -> (message: Self)
        ensures
            message.deep_view() == PbUserCategoryView::blank(),
    {
        PbUserCategory {
            identifier: None,
            user_id: None,
            name: None,
            icon: None,
            system_category: None,
            category_match_id: None,
            from_shared_list: None,
            timestamp: None,
        }
    }
}

/// The `PbCategoryGrouping` message: category grouping.
#[derive(Clone, PartialEq, Debug)]
pub struct PbCategoryGrouping {
    pub identifier: Option<String>,
    pub user_id: Option<String>,
    pub name: Option<String>,
    pub timestamp: Option<Double>,
    pub sharing_id: Option<String>,
    pub category_ids: Vec<String>,
    pub should_hide_from_browse_list_category_groups_screen: Option<bool>,
}

/// The mathematical value of a [`PbCategoryGrouping`].
#[verifier::ext_equal]
pub ghost struct PbCategoryGroupingView {
    pub identifier: Option<Seq<char>>,
    pub user_id: Option<Seq<char>>,
    pub name: Option<Seq<char>>,
    pub timestamp: Option<Double>,
    pub sharing_id: Option<Seq<char>>,
    pub category_ids: Seq<Seq<char>>,
    pub should_hide_from_browse_list_category_groups_screen: Option<bool>,
}

impl PbCategoryGroupingView {
    /// The message with no field set.
    pub open spec fn blank() -> PbCategoryGroupingView {
        PbCategoryGroupingView {
            identifier: None,
            user_id: None,
            name: None,
            timestamp: None,
            sharing_id: None,
            category_ids: Seq::empty(),
            should_hide_from_browse_list_category_groups_screen: None,
        }
    }
}

impl DeepView for PbCategoryGrouping {
    type V = PbCategoryGroupingView;

    open spec fn deep_view(&self) -> PbCategoryGroupingView {
        PbCategoryGroupingView {
            identifier: self.identifier.deep_view(),
            user_id: self.user_id.deep_view(),
            name: self.name.deep_view(),
            timestamp: self.timestamp.deep_view(),
            sharing_id: self.sharing_id.deep_view(),
            category_ids: self.category_ids.deep_view(),
            should_hide_from_browse_list_category_groups_screen: self.should_hide_from_browse_list_category_groups_screen.deep_view(),
        }
    }
}

impl Default for PbCategoryGrouping {
    /// The message with no field set.
    fn default() -> (message: Self)
        ensures
            message.deep_view() == PbCategoryGroupingView::blank(),
    {
        let message = PbCategoryGrouping {
            identifier: None,
            user_id: None,
            name: None,
            timestamp: None,
            sharing_id: None,
            category_ids: Vec::new(),
            should_hide_from_browse_list_category_groups_screen: None,
        };
        assert(message.deep_view() =~~= PbCategoryGroupingView::blank());
        message
    }
}

/// The `PbUserCategoryData` message: user category data.
#[derive(Clone, PartialEq, Debug)]
pub struct PbUserCategoryData {
    pub identifier: String,
    pub timestamp: Option<Double>,
    pub requires_refresh_timestamp: Option<Double>,
    pub categories: Vec<PbUserCategory>,
    pub groupings: Vec<PbCategoryGrouping>,
    pub has_migrated_category_orderings: Option<bool>,
}

/// The mathematical value of a [`PbUserCategoryData`].
#[verifier::ext_equal]
pub ghost struct PbUserCategoryDataView {
    pub identifier: Seq<char>,
    pub timestamp: Option<Double>,
    pub requires_refresh_timestamp: Option<Double>,
    pub categories: Seq<PbUserCategoryView>,
    pub groupings: Seq<PbCategoryGroupingView>,
    pub has_migrated_category_orderings: Option<bool>,
}

impl PbUserCategoryDataView {
    /// The message with no field set.
    pub open spec fn blank() -> PbUserCategoryDataView {
        PbUserCategoryDataView {
            identifier: Seq::empty(),
            timestamp: None,
            requires_refresh_timestamp: None,
            categories: Seq::empty(),
            groupings: Seq::empty(),
            has_migrated_category_orderings: None,
        }
    }
}

impl DeepView for PbUserCategoryData {
    type V = PbUserCategoryDataView;

    open spec fn deep_view(&self) -> PbUserCategoryDataView {
        PbUserCategoryDataView {
            identifier: self.identifier.deep_view(),
            timestamp: self.timestamp.deep_view(),
            requires_refresh_timestamp: self.requires_refresh_timestamp.deep_view(),
            categories: self.categories.deep_view(),
            groupings: self.groupings.deep_view(),
            has_migrated_category_orderings: self.has_migrated_category_orderings.deep_view(),
        }
    }
}

impl Default for PbUserCategoryData {
    /// The message with no field set.
    fn default() -> (message: Self)
        ensures
            message.deep_view() == PbUserCategoryDataView::blank(),
    {
        let message = PbUserCategoryData {
            identifier: String::new(),
            timestamp: None,
            requires_refresh_timestamp: None,
            categories: Vec::new(),
            groupings: Vec::new(),
            has_migrated_category_orderings: None,
        };
        assert(message.deep_view() =~~= PbUserCategoryDataView::blank());
        message
    }
}

/// The `PbUserCategoryOperation` message: user category operation.
#[derive(Clone, PartialEq, Debug)]
pub struct PbUserCategoryOperation {
    pub metadata: Option<PbOperationMetadata>,
    pub category: Option<PbUserCategory>,
    pub grouping: Option<PbCategoryGrouping>,
}

/// The mathematical value of a [`PbUserCategoryOperation`].
#[verifier::ext_equal]
pub ghost struct PbUserCategoryOperationView {
    pub metadata: Option<PbOperationMetadataView>,
    pub category: Option<PbUserCategoryView>,
    pub grouping: Option<PbCategoryGroupingView>,
}

impl PbUserCategoryOperationView {
    /// The message with no field set.
    pub open spec fn blank() -> PbUserCategoryOperationView {
        PbUserCategoryOperationView {
            metadata: None,
            category: None,
            grouping: None,
        }
    }
}

impl DeepView for PbUserCategoryOperation {
    type V = PbUserCategoryOperationView;

    open spec fn deep_view(&self) -> PbUserCategoryOperationView {
        PbUserCategoryOperationView {
            metadata: self.metadata.deep_view(),
            category: self.category.deep_view(),
            grouping: self.grouping.deep_view(),
        }
    }
}

impl Default for PbUserCategoryOperation {
    /// The message with no field set.
    fn default() -> (message: Self)
        ensures
            message.deep_view() == PbUserCategoryOperationView::blank(),
    {
        PbUserCategoryOperation {
            metadata: None,
            category: None,
            grouping: None,
        }
    }
}

/// The `PbUserCategoryOperationList` message: user category operation list.
#[derive(Clone, PartialEq, Debug)]
pub struct PbUserCategoryOperationList {
    pub operations: Vec<PbUserCategoryOperation>,
}

/// The mathematical value of a [`PbUserCategoryOperationList`].
#[verifier::ext_equal]
pub ghost struct PbUserCategoryOperationListView {
    pub operations: Seq<PbUserCategoryOperationView>,
}

impl PbUserCategoryOperationListView {
    /// The message with no field set.
    pub open spec fn blank() -> PbUserCategoryOperationListView {
        PbUserCategoryOperationListView {
            operations: Seq::empty(),
        }
    }
}

impl DeepView for PbUserCategoryOperationList {
    type V = PbUserCategoryOperationListView;

    open spec fn deep_view(&self) -> PbUserCategoryOperationListView {
        PbUserCategoryOperationListView {
            operations: self.operations.deep_view(),
        }
    }
}

impl Default for PbUserCategoryOperationList {
    /// The message with no field set.
    fn default() -> (message: Self)
        ensures
            message.deep_view() == PbUserCategoryOperationListView::blank(),
    {
        let message = PbUserCategoryOperationList {
            operations: Vec::new(),
        };
        assert(message.deep_view() =~~= PbUserCategoryOperationListView::blank());
        message
    }
}

} // verus!
