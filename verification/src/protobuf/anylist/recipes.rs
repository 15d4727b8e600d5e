//! Recipes, ingredients and recipe collections.

use crate::protobuf::anylist::account::{
    PbEmailUserIdPair,
    PbEmailUserIdPairView,
};
use crate::protobuf::anylist::double::Double;
use crate::protobuf::anylist::operations::{
    PbOperationMetadata,
    PbOperationMetadataView,
};
use vstd::prelude::*;

verus! {

/// The `PbRecipe` message: recipe.
#[derive(Clone, PartialEq, Debug)]
pub struct PbRecipe {
    pub identifier: String,
    pub timestamp: Option<Double>,
    pub name: Option<String>,
    pub icon: Option<String>,
    pub note: Option<String>,
    pub source_name: Option<String>,
    pub source_url: Option<String>,
    pub ingredients: Vec<PbIngredient>,
    pub preparation_steps: Vec<String>,
    pub photo_ids: Vec<String>,
    pub ad_campaign_id: Option<String>,
    pub photo_urls: Vec<String>,
    pub scale_factor: Option<Double>,
    pub rating: Option<i32>,
    pub creation_timestamp: Option<Double>,
    pub nutritional_info: Option<String>,
    pub cook_time: Option<i32>,
    pub prep_time: Option<i32>,
    pub servings: Option<String>,
    pub paprika_identifier: Option<String>,
}

/// The mathematical value of a [`PbRecipe`].
#[verifier::ext_equal]
pub ghost struct PbRecipeView {
    pub identifier: Seq<char>,
    pub timestamp: Option<Double>,
    pub name: Option<Seq<char>>,
    pub icon: Option<Seq<char>>,
    pub note: Option<Seq<char>>,
    pub source_name: Option<Seq<char>>,
    pub source_url: Option<Seq<char>>,
    pub ingredients: Seq<PbIngredientView>,
    pub preparation_steps: Seq<Seq<char>>,
    pub photo_ids: Seq<Seq<char>>,
    pub ad_campaign_id: Option<Seq<char>>,
    pub photo_urls: Seq<Seq<char>>,
    pub scale_factor: Option<Double>,
    pub rating: Option<i32>,
    pub creation_timestamp: Option<Double>,
    pub nutritional_info: Option<Seq<char>>,
    pub cook_time: Option<i32>,
    pub prep_time: Option<i32>,
    pub servings: Option<Seq<char>>,
    pub paprika_identifier: Option<Seq<char>>,
}

impl PbRecipeView {
    /// The message with no field set.
    pub open spec fn blank() -> PbRecipeView {
        PbRecipeView {
            identifier: Seq::empty(),
            timestamp: None,
            name: None,
            icon: None,
            note: None,
            source_name: None,
            source_url: None,
            ingredients: Seq::empty(),
            preparation_steps: Seq::empty(),
            photo_ids: Seq::empty(),
            ad_campaign_id: None,
            photo_urls: Seq::empty(),
            scale_factor: None,
            rating: None,
            creation_timestamp: None,
            nutritional_info: None,
            cook_time: None,
            prep_time: None,
            servings: None,
            paprika_identifier: None,
        }
    }
}

impl DeepView for PbRecipe {
    type V = PbRecipeView;

    open spec fn deep_view(&self) -> PbRecipeView {
        PbRecipeView {
            identifier: self.identifier.deep_view(),
            timestamp: self.timestamp.deep_view(),
            name: self.name.deep_view(),
            icon: self.icon.deep_view(),
            note: self.note.deep_view(),
            source_name: self.source_name.deep_view(),
            source_url: self.source_url.deep_view(),
            ingredients: self.ingredients.deep_view(),
            preparation_steps: self.preparation_steps.deep_view(),
            photo_ids: self.photo_ids.deep_view(),
            ad_campaign_id: self.ad_campaign_id.deep_view(),
            photo_urls: self.photo_urls.deep_view(),
            scale_factor: self.scale_factor.deep_view(),
            rating: self.rating.deep_view(),
            creation_timestamp: self.creation_timestamp.deep_view(),
            nutritional_info: self.nutritional_info.deep_view(),
            cook_time: self.cook_time.deep_view(),
            prep_time: self.prep_time.deep_view(),
            servings: self.servings.deep_view(),
            paprika_identifier: self.paprika_identifier.deep_view(),
        }
    }
}

impl Default for PbRecipe {
    /// The message with no field set.
    fn default() -> (message: Self)
        ensures
            message.deep_view() == PbRecipeView::blank(),
    {
        let message = PbRecipe {
            identifier: String::new(),
            timestamp: None,
            name: None,
            icon: None,
            note: None,
            source_name: None,
            source_url: None,
            ingredients: Vec::new(),
            preparation_steps: Vec::new(),
            photo_ids: Vec::new(),
            ad_campaign_id: None,
            photo_urls: Vec::new(),
            scale_factor: None,
            rating: None,
            creation_timestamp: None,
            nutritional_info: None,
            cook_time: None,
            prep_time: None,
            servings: None,
            paprika_identifier: None,
        };
        assert(message.deep_view() =~~= PbRecipeView::blank());
        message
    }
}

/// The `PbIngredient` message: ingredient.
#[derive(Clone, PartialEq, Debug)]
pub struct PbIngredient {
    pub raw_ingredient: Option<String>,
    pub name: Option<String>,
    pub quantity: Option<String>,
    pub note: Option<String>,
}

/// The mathematical value of a [`PbIngredient`].
#[verifier::ext_equal]
pub ghost struct PbIngredientView {
    pub raw_ingredient: Option<Seq<char>>,
    pub name: Option<Seq<char>>,
    pub quantity: Option<Seq<char>>,
    pub note: Option<Seq<char>>,
}

impl PbIngredientView {
    /// The message with no field set.
    pub open spec fn blank() -> PbIngredientView {
        PbIngredientView {
            raw_ingredient: None,
            name: None,
            quantity: None,
            note: None,
        }
    }
}

impl DeepView for PbIngredient {
    type V = PbIngredientView;

    open spec fn deep_view(&self) -> PbIngredientView {
        PbIngredientView {
            raw_ingredient: self.raw_ingredient.deep_view(),
            name: self.name.deep_view(),
            quantity: self.quantity.deep_view(),
            note: self.note.deep_view(),
        }
    }
}

impl Default for PbIngredient {
    /// The message with no field set.
    fn default() -> (message: Self)
        ensures
            message.deep_view() == PbIngredientView::blank(),
    {
        PbIngredient {
            raw_ingredient: None,
            name: None,
            quantity: None,
            note: None,
        }
    }
}

/// The `PbAndroidEditableIngredient` message: android editable ingredient.
#[derive(Clone, PartialEq, Debug)]
pub struct PbAndroidEditableIngredient {
    pub identifier: Option<String>,
    pub ingredient: Option<PbIngredient>,
}

/// The mathematical value of a [`PbAndroidEditableIngredient`].
#[verifier::ext_equal]
pub ghost struct PbAndroidEditableIngredientView {
    pub identifier: Option<Seq<char>>,
    pub ingredient: Option<PbIngredientView>,
}

impl PbAndroidEditableIngredientView {
    /// The message with no field set.
    pub open spec fn blank() -> PbAndroidEditableIngredientView {
        PbAndroidEditableIngredientView {
            identifier: None,
            ingredient: None,
        }
    }
}

impl DeepView for PbAndroidEditableIngredient {
    type V = PbAndroidEditableIngredientView;

    open spec fn deep_view(&self) -> PbAndroidEditableIngredientView {
        PbAndroidEditableIngredientView {
            identifier: self.identifier.deep_view(),
            ingredient: self.ingredient.deep_view(),
        }
    }
}

impl Default for PbAndroidEditableIngredient {
    /// The message with no field set.
    fn default() -> (message: Self)
        ensures
            message.deep_view() == PbAndroidEditableIngredientView::blank(),
    {
        PbAndroidEditableIngredient {
            identifier: None,
            ingredient: None,
        }
    }
}

/// The `PbAndroidEditableIngredientList` message: android editable ingredient list.
#[derive(Clone, PartialEq, Debug)]
pub struct PbAndroidEditableIngredientList {
    pub editable_ingredients: Vec<PbAndroidEditableIngredient>,
}

/// The mathematical value of a [`PbAndroidEditableIngredientList`].
#[verifier::ext_equal]
pub ghost struct PbAndroidEditableIngredientListView {
    pub editable_ingredients: Seq<PbAndroidEditableIngredientView>,
}

impl PbAndroidEditableIngredientListView {
    /// The message with no field set.
    pub open spec fn blank() -> PbAndroidEditableIngredientListView {
        PbAndroidEditableIngredientListView {
            editable_ingredients: Seq::empty(),
        }
    }
}

impl DeepView for PbAndroidEditableIngredientList {
    type V = PbAndroidEditableIngredientListView;

    open spec fn deep_view(&self) -> PbAndroidEditableIngredientListView {
        PbAndroidEditableIngredientListView {
            editable_ingredients: self.editable_ingredients.deep_view(),
        }
    }
}

impl Default for PbAndroidEditableIngredientList {
    /// The message with no field set.
    fn default() -> (message: Self)
        ensures
            message.deep_view() == PbAndroidEditableIngredientListView::blank(),
    {
        let message = PbAndroidEditableIngredientList {
            editable_ingredients: Vec::new(),
        };
        assert(message.deep_view() =~~= PbAndroidEditableIngredientListView::blank());
        message
    }
}

/// The `PbRecipeCollectionSettings` message: recipe collection settings.
#[derive(Clone, PartialEq, Debug)]
pub struct PbRecipeCollectionSettings {
    pub recipes_sort_order: Option<i32>,
    pub show_only_recipes_with_no_collection: Option<bool>,
}

/// The mathematical value of a [`PbRecipeCollectionSettings`].
#[verifier::ext_equal]
pub ghost struct PbRecipeCollectionSettingsView {
    pub recipes_sort_order: Option<i32>,
    pub show_only_recipes_with_no_collection: Option<bool>,
}

impl PbRecipeCollectionSettingsView {
    /// The message with no field set.
    pub open spec fn blank() -> PbRecipeCollectionSettingsView {
        PbRecipeCollectionSettingsView {
            recipes_sort_order: None,
            show_only_recipes_with_no_collection: None,
        }
    }
}

impl DeepView for PbRecipeCollectionSettings {
    type V = PbRecipeCollectionSettingsView;

    open spec fn deep_view(&self) -> PbRecipeCollectionSettingsView {
        PbRecipeCollectionSettingsView {
            recipes_sort_order: self.recipes_sort_order.deep_view(),
            show_only_recipes_with_no_collection: self.show_only_recipes_with_no_collection.deep_view(),
        }
    }
}

impl Default for PbRecipeCollectionSettings {
    /// The message with no field set.
    fn default() -> (message: Self)
        ensures
            message.deep_view() == PbRecipeCollectionSettingsView::blank(),
    {
        PbRecipeCollectionSettings {
            recipes_sort_order: None,
            show_only_recipes_with_no_collection: None,
        }
    }
}

/// The `PbRecipeCollection` message: recipe collection.
#[derive(Clone, PartialEq, Debug)]
pub struct PbRecipeCollection {
    pub identifier: String,
    pub timestamp: Option<Double>,
    pub name: Option<String>,
    pub recipe_ids: Vec<String>,
    pub collection_settings: Option<PbRecipeCollectionSettings>,
}

/// The mathematical value of a [`PbRecipeCollection`].
#[verifier::ext_equal]
pub ghost struct PbRecipeCollectionView {
    pub identifier: Seq<char>,
    pub timestamp: Option<Double>,
    pub name: Option<Seq<char>>,
    pub recipe_ids: Seq<Seq<char>>,
    pub collection_settings: Option<PbRecipeCollectionSettingsView>,
}

impl PbRecipeCollectionView {
    /// The message with no field set.
    pub open spec fn blank() -> PbRecipeCollectionView {
        PbRecipeCollectionView {
            identifier: Seq::empty(),
            timestamp: None,
            name: None,
            recipe_ids: Seq::empty(),
            collection_settings: None,
        }
    }
}

impl DeepView for PbRecipeCollection {
    type V = PbRecipeCollectionView;

    open spec fn deep_view(&self) -> PbRecipeCollectionView {
        PbRecipeCollectionView {
            identifier: self.identifier.deep_view(),
            timestamp: self.timestamp.deep_view(),
            name: self.name.deep_view(),
            recipe_ids: self.recipe_ids.deep_view(),
            collection_settings: self.collection_settings.deep_view(),
        }
    }
}

impl Default for PbRecipeCollection {
    /// The message with no field set.
    fn default() -> (message: Self)
        ensures
            message.deep_view() == PbRecipeCollectionView::blank(),
    {
        let message = PbRecipeCollection {
            identifier: String::new(),
            timestamp: None,
            name: None,
            recipe_ids: Vec::new(),
            collection_settings: None,
        };
        assert(message.deep_view() =~~= PbRecipeCollectionView::blank());
        message
    }
}

/// The `PbUserRecipeData` message: user recipe data.
#[derive(Clone, PartialEq, Debug)]
pub struct PbUserRecipeData {
    pub identifier: String,
    pub timestamp: Option<Double>,
    pub recipes_timestamp: Option<Double>,
    pub all_recipes_timestamp: Option<Double>,
    pub recipe_collections_timestamp: Option<Double>,
    pub recipe_collection_ids_timestamp: Option<Double>,
    pub all_recipes_id: Option<String>,
    pub recipe_collection_ids: Vec<String>,
    pub user_ids: Vec<String>,
    pub user_ids_timestamp: Option<Double>,
    pub has_imported_punchfork_recipes: Option<bool>,
    pub meal_planning_calendar_id: Option<String>,
}

/// The mathematical value of a [`PbUserRecipeData`].
#[verifier::ext_equal]
pub ghost struct PbUserRecipeDataView {
    pub identifier: Seq<char>,
    pub timestamp: Option<Double>,
    pub recipes_timestamp: Option<Double>,
    pub all_recipes_timestamp: Option<Double>,
    pub recipe_collections_timestamp: Option<Double>,
    pub recipe_collection_ids_timestamp: Option<Double>,
    pub all_recipes_id: Option<Seq<char>>,
    pub recipe_collection_ids: Seq<Seq<char>>,
    pub user_ids: Seq<Seq<char>>,
    pub user_ids_timestamp: Option<Double>,
    pub has_imported_punchfork_recipes: Option<bool>,
    pub meal_planning_calendar_id: Option<Seq<char>>,
}

impl PbUserRecipeDataView {
    /// The message with no field set.
    pub open spec fn blank() -> PbUserRecipeDataView {
        PbUserRecipeDataView {
            identifier: Seq::empty(),
            timestamp: None,
            recipes_timestamp: None,
            all_recipes_timestamp: None,
            recipe_collections_timestamp: None,
            recipe_collection_ids_timestamp: None,
            all_recipes_id: None,
            recipe_collection_ids: Seq::empty(),
            user_ids: Seq::empty(),
            user_ids_timestamp: None,
            has_imported_punchfork_recipes: None,
            meal_planning_calendar_id: None,
        }
    }
}

impl DeepView for PbUserRecipeData {
    type V = PbUserRecipeDataView;

    open spec fn deep_view(&self) -> PbUserRecipeDataView {
        PbUserRecipeDataView {
            identifier: self.identifier.deep_view(),
            timestamp: self.timestamp.deep_view(),
            recipes_timestamp: self.recipes_timestamp.deep_view(),
            all_recipes_timestamp: self.all_recipes_timestamp.deep_view(),
            recipe_collections_timestamp: self.recipe_collections_timestamp.deep_view(),
            recipe_collection_ids_timestamp: self.recipe_collection_ids_timestamp.deep_view(),
            all_recipes_id: self.all_recipes_id.deep_view(),
            recipe_collection_ids: self.recipe_collection_ids.deep_view(),
            user_ids: self.user_ids.deep_view(),
            user_ids_timestamp: self.user_ids_timestamp.deep_view(),
            has_imported_punchfork_recipes: self.has_imported_punchfork_recipes.deep_view(),
            meal_planning_calendar_id: self.meal_planning_calendar_id.deep_view(),
        }
    }
}

impl Default for PbUserRecipeData {
    /// The message with no field set.
    fn default() -> (message: Self)
        ensures
            message.deep_view() == PbUserRecipeDataView::blank(),
    {
        let message = PbUserRecipeData {
            identifier: String::new(),
            timestamp: None,
            recipes_timestamp: None,
            all_recipes_timestamp: None,
            recipe_collections_timestamp: None,
            recipe_collection_ids_timestamp: None,
            all_recipes_id: None,
            recipe_collection_ids: Vec::new(),
            user_ids: Vec::new(),
            user_ids_timestamp: None,
            has_imported_punchfork_recipes: None,
            meal_planning_calendar_id: None,
        };
        assert(message.deep_view() =~~= PbUserRecipeDataView::blank());
        message
    }
}

/// The `PbRecipeLinkRequest` message: recipe link request.
#[derive(Clone, PartialEq, Debug)]
pub struct PbRecipeLinkRequest {
    pub identifier: String,
    pub requesting_user_id: Option<String>,
    pub requesting_email: Option<String>,
    pub requesting_name: Option<String>,
    pub confirming_user_id: Option<String>,
    pub confirming_email: Option<String>,
    pub confirming_name: Option<String>,
}

/// The mathematical value of a [`PbRecipeLinkRequest`].
#[verifier::ext_equal]
pub ghost struct PbRecipeLinkRequestView {
    pub identifier: Seq<char>,
    pub requesting_user_id: Option<Seq<char>>,
    pub requesting_email: Option<Seq<char>>,
    pub requesting_name: Option<Seq<char>>,
    pub confirming_user_id: Option<Seq<char>>,
    pub confirming_email: Option<Seq<char>>,
    pub confirming_name: Option<Seq<char>>,
}

impl PbRecipeLinkRequestView {
    /// The message with no field set.
    pub open spec fn blank() -> PbRecipeLinkRequestView {
        PbRecipeLinkRequestView {
            identifier: Seq::empty(),
            requesting_user_id: None,
            requesting_email: None,
            requesting_name: None,
            confirming_user_id: None,
            confirming_email: None,
            confirming_name: None,
        }
    }
}

impl DeepView for PbRecipeLinkRequest {
    type V = PbRecipeLinkRequestView;

    open spec fn deep_view(&self) -> PbRecipeLinkRequestView {
        PbRecipeLinkRequestView {
            identifier: self.identifier.deep_view(),
            requesting_user_id: self.requesting_user_id.deep_view(),
            requesting_email: self.requesting_email.deep_view(),
            requesting_name: self.requesting_name.deep_view(),
            confirming_user_id: self.confirming_user_id.deep_view(),
            confirming_email: self.confirming_email.deep_view(),
            confirming_name: self.confirming_name.deep_view(),
        }
    }
}

impl Default for PbRecipeLinkRequest {
    /// The message with no field set.
    fn default() -> (message: Self)
        ensures
            message.deep_view() == PbRecipeLinkRequestView::blank(),
    {
        PbRecipeLinkRequest {
            identifier: String::new(),
            requesting_user_id: None,
            requesting_email: None,
            requesting_name: None,
            confirming_user_id: None,
            confirming_email: None,
            confirming_name: None,
        }
    }
}

/// The `PbRecipeLinkRequestResponse` message: recipe link request response.
#[derive(Clone, PartialEq, Debug)]
pub struct PbRecipeLinkRequestResponse {
    pub status_code: Option<i32>,
    pub recipe_data_response: Option<PbRecipeDataResponse>,
    pub error_title: Option<String>,
    pub error_message: Option<String>,
}

/// The mathematical value of a [`PbRecipeLinkRequestResponse`].
#[verifier::ext_equal]
pub ghost struct PbRecipeLinkRequestResponseView {
    pub status_code: Option<i32>,
    pub recipe_data_response: Option<PbRecipeDataResponseView>,
    pub error_title: Option<Seq<char>>,
    pub error_message: Option<Seq<char>>,
}

impl PbRecipeLinkRequestResponseView {
    /// The message with no field set.
    pub open spec fn blank() -> PbRecipeLinkRequestResponseView {
        PbRecipeLinkRequestResponseView {
            status_code: None,
            recipe_data_response: None,
            error_title: None,
            error_message: None,
        }
    }
}

impl DeepView for PbRecipeLinkRequestResponse {
    type V = PbRecipeLinkRequestResponseView;

    open spec fn deep_view(&self) -> PbRecipeLinkRequestResponseView {
        PbRecipeLinkRequestResponseView {
            status_code: self.status_code.deep_view(),
            recipe_data_response: self.recipe_data_response.deep_view(),
            error_title: self.error_title.deep_view(),
            error_message: self.error_message.deep_view(),
        }
    }
}

impl Default for PbRecipeLinkRequestResponse {
    /// The message with no field set.
    fn default() -> (message: Self)
        ensures
            message.deep_view() == PbRecipeLinkRequestResponseView::blank(),
    {
        PbRecipeLinkRequestResponse {
            status_code: None,
            recipe_data_response: None,
            error_title: None,
            error_message: None,
        }
    }
}

/// The `PbRecipeDataResponse` message: recipe data response.
#[derive(Clone, PartialEq, Debug)]
pub struct PbRecipeDataResponse {
    pub timestamp: Option<Double>,
    pub all_recipes_collection: Option<PbRecipeCollection>,
    pub recipes: Vec<PbRecipe>,
    pub recipe_collection_ids: Vec<String>,
    pub recipe_collections: Vec<PbRecipeCollection>,
    pub pending_recipe_link_requests: Vec<PbRecipeLinkRequest>,
    pub recipe_link_requests_to_confirm: Vec<PbRecipeLinkRequest>,
    pub linked_users: Vec<PbEmailUserIdPair>,
    pub recipe_data_id: Option<String>,
    pub has_imported_punchfork_recipes: Option<bool>,
    pub includes_recipe_collection_ids: Option<bool>,
}

/// The mathematical value of a [`PbRecipeDataResponse`].
#[verifier::ext_equal]
pub ghost struct PbRecipeDataResponseView {
    pub timestamp: Option<Double>,
    pub all_recipes_collection: Option<PbRecipeCollectionView>,
    pub recipes: Seq<PbRecipeView>,
    pub recipe_collection_ids: Seq<Seq<char>>,
    pub recipe_collections: Seq<PbRecipeCollectionView>,
    pub pending_recipe_link_requests: Seq<PbRecipeLinkRequestView>,
    pub recipe_link_requests_to_confirm: Seq<PbRecipeLinkRequestView>,
    pub linked_users: Seq<PbEmailUserIdPairView>,
    pub recipe_data_id: Option<Seq<char>>,
    pub has_imported_punchfork_recipes: Option<bool>,
    pub includes_recipe_collection_ids: Option<bool>,
}

impl PbRecipeDataResponseView {
    /// The message with no field set.
    pub open spec fn blank() -> PbRecipeDataResponseView {
        PbRecipeDataResponseView {
            timestamp: None,
            all_recipes_collection: None,
            recipes: Seq::empty(),
            recipe_collection_ids: Seq::empty(),
            recipe_collections: Seq::empty(),
            pending_recipe_link_requests: Seq::empty(),
            recipe_link_requests_to_confirm: Seq::empty(),
            linked_users: Seq::empty(),
            recipe_data_id: None,
            has_imported_punchfork_recipes: None,
            includes_recipe_collection_ids: None,
        }
    }
}

impl DeepView for PbRecipeDataResponse {
    type V = PbRecipeDataResponseView;

    open spec fn deep_view(&self) -> PbRecipeDataResponseView {
        PbRecipeDataResponseView {
            timestamp: self.timestamp.deep_view(),
            all_recipes_collection: self.all_recipes_collection.deep_view(),
            recipes: self.recipes.deep_view(),
            recipe_collection_ids: self.recipe_collection_ids.deep_view(),
            recipe_collections: self.recipe_collections.deep_view(),
            pending_recipe_link_requests: self.pending_recipe_link_requests.deep_view(),
            recipe_link_requests_to_confirm: self.recipe_link_requests_to_confirm.deep_view(),
            linked_users: self.linked_users.deep_view(),
            recipe_data_id: self.recipe_data_id.deep_view(),
            has_imported_punchfork_recipes: self.has_imported_punchfork_recipes.deep_view(),
            includes_recipe_collection_ids: self.includes_recipe_collection_ids.deep_view(),
        }
    }
}

impl Default for PbRecipeDataResponse {
    /// The message with no field set.
    fn default() -> (message: Self)
        ensures
            message.deep_view() == PbRecipeDataResponseView::blank(),
    {
        let message = PbRecipeDataResponse {
            timestamp: None,
            all_recipes_collection: None,
            recipes: Vec::new(),
            recipe_collection_ids: Vec::new(),
            recipe_collections: Vec::new(),
            pending_recipe_link_requests: Vec::new(),
            recipe_link_requests_to_confirm: Vec::new(),
            linked_users: Vec::new(),
            recipe_data_id: None,
            has_imported_punchfork_recipes: None,
            includes_recipe_collection_ids: None,
        };
        assert(message.deep_view() =~~= PbRecipeDataResponseView::blank());
        message
    }
}

/// The `PbRecipeOperation` message: recipe operation.
#[derive(Clone, PartialEq, Debug)]
pub struct PbRecipeOperation {
    pub metadata: Option<PbOperationMetadata>,
    pub recipe_data_id: Option<String>,
    pub recipe: Option<PbRecipe>,
    pub recipe_collection: Option<PbRecipeCollection>,
    pub recipe_link_request: Option<PbRecipeLinkRequest>,
    pub recipe_collection_ids: Vec<String>,
    pub recipes: Vec<PbRecipe>,
    pub is_new_recipe_from_web_import: Option<bool>,
    pub recipe_ids: Vec<String>,
}

/// The mathematical value of a [`PbRecipeOperation`].
#[verifier::ext_equal]
pub ghost struct PbRecipeOperationView {
    pub metadata: Option<PbOperationMetadataView>,
    pub recipe_data_id: Option<Seq<char>>,
    pub recipe: Option<PbRecipeView>,
    pub recipe_collection: Option<PbRecipeCollectionView>,
    pub recipe_link_request: Option<PbRecipeLinkRequestView>,
    pub recipe_collection_ids: Seq<Seq<char>>,
    pub recipes: Seq<PbRecipeView>,
    pub is_new_recipe_from_web_import: Option<bool>,
    pub recipe_ids: Seq<Seq<char>>,
}

impl PbRecipeOperationView {
    /// The message with no field set.
    pub open spec fn blank() -> PbRecipeOperationView {
        PbRecipeOperationView {
            metadata: None,
            recipe_data_id: None,
            recipe: None,
            recipe_collection: None,
            recipe_link_request: None,
            recipe_collection_ids: Seq::empty(),
            recipes: Seq::empty(),
            is_new_recipe_from_web_import: None,
            recipe_ids: Seq::empty(),
        }
    }
}

impl DeepView for PbRecipeOperation {
    type V = PbRecipeOperationView;

    open spec fn deep_view(&self) -> PbRecipeOperationView {
        PbRecipeOperationView {
            metadata: self.metadata.deep_view(),
            recipe_data_id: self.recipe_data_id.deep_view(),
            recipe: self.recipe.deep_view(),
            recipe_collection: self.recipe_collection.deep_view(),
            recipe_link_request: self.recipe_link_request.deep_view(),
            recipe_collection_ids: self.recipe_collection_ids.deep_view(),
            recipes: self.recipes.deep_view(),
            is_new_recipe_from_web_import: self.is_new_recipe_from_web_import.deep_view(),
            recipe_ids: self.recipe_ids.deep_view(),
        }
    }
}

impl Default for PbRecipeOperation {
    /// The message with no field set.
    fn default() -> (message: Self)
        ensures
            message.deep_view() == PbRecipeOperationView::blank(),
    {
        let message = PbRecipeOperation {
            metadata: None,
            recipe_data_id: None,
            recipe: None,
            recipe_collection: None,
            recipe_link_request: None,
            recipe_collection_ids: Vec::new(),
            recipes: Vec::new(),
            is_new_recipe_from_web_import: None,
            recipe_ids: Vec::new(),
        };
        assert(message.deep_view() =~~= PbRecipeOperationView::blank());
        message
    }
}

/// The `PbRecipeOperationList` message: recipe operation list.
#[derive(Clone, PartialEq, Debug)]
pub struct PbRecipeOperationList {
    pub operations: Vec<PbRecipeOperation>,
}

/// The mathematical value of a [`PbRecipeOperationList`].
#[verifier::ext_equal]
pub ghost struct PbRecipeOperationListView {
    pub operations: Seq<PbRecipeOperationView>,
}

impl PbRecipeOperationListView {
    /// The message with no field set.
    pub open spec fn blank() -> PbRecipeOperationListView {
        PbRecipeOperationListView {
            operations: Seq::empty(),
        }
    }
}

impl DeepView for PbRecipeOperationList {
    type V = PbRecipeOperationListView;

    open spec fn deep_view(&self) -> PbRecipeOperationListView {
        PbRecipeOperationListView {
            operations: self.operations.deep_view(),
        }
    }
}

impl Default for PbRecipeOperationList {
    /// The message with no field set.
    fn default() -> (message: Self)
        ensures
            message.deep_view() == PbRecipeOperationListView::blank(),
    {
        let message = PbRecipeOperationList {
            operations: Vec::new(),
        };
        assert(message.deep_view() =~~= PbRecipeOperationListView::blank());
        message
    }
}

/// The `PbRecipeList` message: recipe list.
#[derive(Clone, PartialEq, Debug)]
pub struct PbRecipeList {
    pub recipes: Vec<PbRecipe>,
}

/// The mathematical value of a [`PbRecipeList`].
#[verifier::ext_equal]
pub ghost struct PbRecipeListView {
    pub recipes: Seq<PbRecipeView>,
}

impl PbRecipeListView {
    /// The message with no field set.
    pub open spec fn blank() -> PbRecipeListView {
        PbRecipeListView {
            recipes: Seq::empty(),
        }
    }
}

impl DeepView for PbRecipeList {
    type V = PbRecipeListView;

    open spec fn deep_view(&self) -> PbRecipeListView {
        PbRecipeListView {
            recipes: self.recipes.deep_view(),
        }
    }
}

impl Default for PbRecipeList {
    /// The message with no field set.
    fn default() -> (message: Self)
        ensures
            message.deep_view() == PbRecipeListView::blank(),
    {
        let message = PbRecipeList {
            recipes: Vec::new(),
        };
        assert(message.deep_view() =~~= PbRecipeListView::blank());
        message
    }
}

/// The `PbRecipeWebImportResponse` message: recipe web import response.
#[derive(Clone, PartialEq, Debug)]
pub struct PbRecipeWebImportResponse {
    pub status_code: Option<i32>,
    pub recipe: Option<PbRecipe>,
    pub is_premium_user: Option<bool>,
    pub site_specific_help_text: Option<String>,
    pub free_recipe_imports_remaining_count: Option<i32>,
}

/// The mathematical value of a [`PbRecipeWebImportResponse`].
#[verifier::ext_equal]
pub ghost struct PbRecipeWebImportResponseView {
    pub status_code: Option<i32>,
    pub recipe: Option<PbRecipeView>,
    pub is_premium_user: Option<bool>,
    pub site_specific_help_text: Option<Seq<char>>,
    pub free_recipe_imports_remaining_count: Option<i32>,
}

impl PbRecipeWebImportResponseView {
    /// The message with no field set.
    pub open spec fn blank() -> PbRecipeWebImportResponseView {
        PbRecipeWebImportResponseView {
            status_code: None,
            recipe: None,
            is_premium_user: None,
            site_specific_help_text: None,
            free_recipe_imports_remaining_count: None,
        }
    }
}

impl DeepView for PbRecipeWebImportResponse {
    type V = PbRecipeWebImportResponseView;

    open spec fn deep_view(&self) -> PbRecipeWebImportResponseView {
        PbRecipeWebImportResponseView {
            status_code: self.status_code.deep_view(),
            recipe: self.recipe.deep_view(),
            is_premium_user: self.is_premium_user.deep_view(),
            site_specific_help_text: self.site_specific_help_text.deep_view(),
            free_recipe_imports_remaining_count: self.free_recipe_imports_remaining_count.deep_view(),
        }
    }
}

impl Default for PbRecipeWebImportResponse {
    /// The message with no field set.
    fn default() -> (message: Self)
        ensures
            message.deep_view() == PbRecipeWebImportResponseView::blank(),
    {
        PbRecipeWebImportResponse {
            status_code: None,
            recipe: None,
            is_premium_user: None,
            site_specific_help_text: None,
            free_recipe_imports_remaining_count: None,
        }
    }
}

} // verus!
