//! What each call of the client prepares before anything is sent: the identifiers
//! it draws and the message it builds from them, together with the object the call
//! hands back where it creates one.

use crate::categories::{
    build_create_category_operation, build_delete_category_operation,
    build_rename_category_operation, create_category_operation, delete_category_operation,
    new_category, rename_category_operation, Category, CategoryView,
};
use crate::collections::{
    build_add_recipe_to_collection_operation, build_create_recipe_collection_operation,
    build_delete_recipe_collection_operation, build_remove_recipe_from_collection_operation,
    create_recipe_collection_operation, delete_recipe_collection_operation,
    new_recipe_collection, recipe_collection_update_operation, with_recipe, RecipeCollection,
    RecipeCollectionView,
};
use crate::items::{
    add_item_with_details_operation, build_add_item_with_details_operation,
    build_delete_item_operation, build_set_item_checked_operation, build_update_item_operation,
    delete_item_operation, new_list_item, set_item_checked_operation, update_item_operation,
};
use crate::lists::{List, ListItem, ListItemView, ListView};
use crate::meal_planning::{
    build_create_meal_plan_event_operation, build_delete_meal_plan_event_operation,
    build_update_meal_plan_event_operation, create_meal_plan_event_operation,
    delete_meal_plan_event_operation, new_meal_plan_event, update_meal_plan_event_operation,
    MealPlanEvent, MealPlanEventView,
};
use crate::operations::{
    build_create_list_operation, build_delete_list_operation, build_delete_store_operation,
    build_remove_store_from_items_operation, build_rename_list_operation, create_list_operation,
    delete_list_operation, delete_store_operation, remove_store_from_items_operation,
    rename_list_operation, CreateListParams, CreateListParamsView, DeleteListParams,
    DeleteListParamsView, DeleteStoreParams, DeleteStoreParamsView, RemoveStoreFromItemsParams,
    RemoveStoreFromItemsParamsView, RenameListParams, RenameListParamsView,
};
use crate::protobuf::anylist::{
    Double, PbCalendarOperationList, PbListOperationList, PbRecipeOperationList,
};
use crate::recipes::{
    build_delete_recipe_operation, build_save_recipe_operation, delete_recipe_operation,
    new_recipe, pb_ingredient_of, pb_ingredients, save_recipe_operation, Ingredient, IngredientView,
    Recipe, RecipeView,
};
use crate::sequences::without;
use crate::stores::{
    build_create_store_operation, build_filter_operation_without_store,
    build_update_store_operation, create_store_operation, filter_operation_without_store,
    new_store, update_store_operation, Store, StoreFilter, StoreView,
};
use crate::utils::{generate_id, is_fresh_id};
use vstd::prelude::*;

verus! {

// Lists

/// Prepare the creation of an empty list under a fresh ID.
pub fn create_list(
    name: &str,
    user_id: &str,
    timestamp: Double,
) -> (prepared: (PbListOperationList, List))
    ensures
        exists|list_id: Seq<char>, operation_id: Seq<char>|
            #![trigger is_fresh_id(list_id), is_fresh_id(operation_id)]
            is_fresh_id(list_id)
            && is_fresh_id(operation_id)
            && prepared.0.deep_view() == create_list_operation(
                CreateListParamsView {
                    list_id,
                    operation_id,
                    user_id: user_id@,
                    timestamp,
                    name: name@,
                },
            )
            && prepared.1.deep_view() == (ListView {
                id: list_id,
                name: name@,
                items: Seq::empty(),
                shared_users: Seq::empty(),
            }),
{
    let list_id = generate_id();
    let operation_id = generate_id();
    let created = List {
        id: list_id.clone(),
        name: name.to_owned(),
        items: Vec::new(),
        shared_users: Vec::new(),
    };
    let request = build_create_list_operation(
        CreateListParams {
            list_id,
            operation_id,
            user_id: user_id.to_owned(),
            timestamp,
            name: name.to_owned(),
        },
    );
    (request, created)
}

/// Prepare the deletion of a list.
pub fn delete_list(list_id: &str, user_id: &str) -> (prepared: PbListOperationList)
    ensures
        exists|operation_id: Seq<char>|
            #![trigger is_fresh_id(operation_id)]
            is_fresh_id(operation_id)
            && prepared.deep_view() == delete_list_operation(
                DeleteListParamsView { list_id: list_id@, operation_id, user_id: user_id@ },
            ),
{
    let operation_id = generate_id();
    let request = build_delete_list_operation(
        DeleteListParams { list_id: list_id.to_owned(), operation_id, user_id: user_id.to_owned() },
    );
    request
}

/// Prepare the renaming of a list whose present name is `old_name`.
pub fn rename_list(
    list_id: &str,
    old_name: &str,
    new_name: &str,
    user_id: &str,
    timestamp: Double,
) -> (prepared: PbListOperationList)
    ensures
        exists|operation_id: Seq<char>|
            #![trigger is_fresh_id(operation_id)]
            is_fresh_id(operation_id)
            && prepared.deep_view() == rename_list_operation(
                RenameListParamsView {
                    list_id: list_id@,
                    operation_id,
                    user_id: user_id@,
                    timestamp,
                    old_name: old_name@,
                    new_name: new_name@,
                },
            ),
{
    let operation_id = generate_id();
    let request = build_rename_list_operation(
        RenameListParams {
            list_id: list_id.to_owned(),
            operation_id,
            user_id: user_id.to_owned(),
            timestamp,
            old_name: old_name.to_owned(),
            new_name: new_name.to_owned(),
        },
    );
    request
}

// Items

/// Prepare the addition of an item with quantity, details and category, under a
/// fresh ID.
pub fn add_item_with_details(
    list_id: &str,
    name: &str,
    quantity: Option<&str>,
    details: Option<&str>,
    category: Option<&str>,
    user_id: &str,
    timestamp: Double,
) -> (prepared: (PbListOperationList, ListItem))
    ensures
        exists|item_id: Seq<char>, operation_id: Seq<char>|
            #![trigger is_fresh_id(item_id), is_fresh_id(operation_id)]
            is_fresh_id(item_id)
            && is_fresh_id(operation_id)
            && prepared.0.deep_view() == add_item_with_details_operation(
                list_id@,
                name@,
                quantity.deep_view(),
                details.deep_view(),
                category.deep_view(),
                item_id,
                timestamp,
                operation_id,
                user_id@,
            )
            && prepared.1.deep_view() == (ListItemView {
                id: item_id,
                list_id: list_id@,
                name: name@,
                details: match details {
                    Some(details) => details@,
                    None => Seq::empty(),
                },
                is_checked: false,
                quantity: quantity.deep_view(),
                category: category.deep_view(),
                user_id: Some(user_id@),
            }),
{
    let item_id = generate_id();
    let operation_id = generate_id();
    let created = new_list_item(
        list_id,
        name,
        quantity,
        details,
        category,
        item_id.as_str(),
        user_id,
    );
    let request = build_add_item_with_details_operation(
        list_id,
        name,
        quantity,
        details,
        category,
        item_id.as_str(),
        timestamp,
        operation_id.as_str(),
        user_id,
    );
    (request, created)
}

/// Prepare the addition of an item that has a name only.
pub fn add_item(
    list_id: &str,
    name: &str,
    user_id: &str,
    timestamp: Double,
) -> (prepared: (PbListOperationList, ListItem))
    ensures
        exists|item_id: Seq<char>, operation_id: Seq<char>|
            #![trigger is_fresh_id(item_id), is_fresh_id(operation_id)]
            is_fresh_id(item_id)
            && is_fresh_id(operation_id)
            && prepared.0.deep_view() == add_item_with_details_operation(
                list_id@,
                name@,
                None,
                None,
                None,
                item_id,
                timestamp,
                operation_id,
                user_id@,
            )
            && prepared.1.deep_view() == (ListItemView {
                id: item_id,
                list_id: list_id@,
                name: name@,
                details: Seq::empty(),
                is_checked: false,
                quantity: None,
                category: None,
                user_id: Some(user_id@),
            }),
{
    let item_id = generate_id();
    let operation_id = generate_id();
    let created = new_list_item(list_id, name, None, None, None, item_id.as_str(), user_id);
    let request = build_add_item_with_details_operation(
        list_id,
        name,
        None,
        None,
        None,
        item_id.as_str(),
        timestamp,
        operation_id.as_str(),
        user_id,
    );
    (request, created)
}

/// Prepare the update of an item.
pub fn update_item(
    list_id: &str,
    item_id: &str,
    name: &str,
    quantity: Option<&str>,
    details: Option<&str>,
    category: Option<&str>,
    user_id: &str,
    timestamp: Double,
) -> (prepared: PbListOperationList)
    ensures
        exists|operation_id: Seq<char>|
            #![trigger is_fresh_id(operation_id)]
            is_fresh_id(operation_id)
            && prepared.deep_view() == update_item_operation(
                list_id@,
                name@,
                quantity.deep_view(),
                details.deep_view(),
                category.deep_view(),
                item_id@,
                timestamp,
                operation_id,
                user_id@,
            ),
{
    let operation_id = generate_id();
    let request = build_update_item_operation(
        list_id,
        name,
        quantity,
        details,
        category,
        item_id,
        timestamp,
        operation_id.as_str(),
        user_id,
    );
    request
}

/// Prepare the deletion of an item.
pub fn delete_item(list_id: &str, item_id: &str, user_id: &str) -> (prepared: PbListOperationList)
    ensures
        exists|operation_id: Seq<char>|
            #![trigger is_fresh_id(operation_id)]
            is_fresh_id(operation_id)
            && prepared.deep_view() == delete_item_operation(
                list_id@,
                item_id@,
                operation_id,
                user_id@,
            ),
{
    let operation_id = generate_id();
    let request = build_delete_item_operation(list_id, item_id, operation_id.as_str(), user_id);
    request
}

/// Prepare checking an item off, or taking the check mark back; `item` is the item
/// as the list holds it now.
pub fn set_item_checked(
    item: &ListItem,
    list_id: &str,
    item_id: &str,
    checked: bool,
    user_id: &str,
    timestamp: Double,
) -> (prepared: PbListOperationList)
    ensures
        exists|operation_id: Seq<char>|
            #![trigger is_fresh_id(operation_id)]
            is_fresh_id(operation_id)
            && prepared.deep_view() == set_item_checked_operation(
                item.deep_view(),
                list_id@,
                item_id@,
                checked,
                timestamp,
                operation_id,
                user_id@,
            ),
{
    let operation_id = generate_id();
    let request = build_set_item_checked_operation(
        item,
        list_id,
        item_id,
        checked,
        timestamp,
        operation_id.as_str(),
        user_id,
    );
    request
}

// Categories

/// Prepare the creation of a category under a fresh ID.
pub fn create_category(
    list_id: &str,
    category_group_id: &str,
    name: &str,
    user_id: &str,
) -> (prepared: (PbListOperationList, Category))
    ensures
        exists|category_id: Seq<char>, operation_id: Seq<char>|
            #![trigger is_fresh_id(category_id), is_fresh_id(operation_id)]
            is_fresh_id(category_id)
            && is_fresh_id(operation_id)
            && prepared.0.deep_view() == create_category_operation(
                list_id@,
                category_group_id@,
                name@,
                category_id,
                operation_id,
                user_id@,
            )
            && prepared.1.deep_view() == (CategoryView {
                id: category_id,
                name: name@,
                icon: None,
                sort_index: 0,
            }),
{
    let category_id = generate_id();
    let operation_id = generate_id();
    let created = new_category(category_id.as_str(), name);
    let request = build_create_category_operation(
        list_id,
        category_group_id,
        name,
        category_id.as_str(),
        operation_id.as_str(),
        user_id,
    );
    (request, created)
}

/// Prepare the deletion of a category.
pub fn delete_category(
    list_id: &str,
    category_id: &str,
    user_id: &str,
) -> (prepared: PbListOperationList)
    ensures
        exists|operation_id: Seq<char>|
            #![trigger is_fresh_id(operation_id)]
            is_fresh_id(operation_id)
            && prepared.deep_view() == delete_category_operation(
                list_id@,
                category_id@,
                operation_id,
                user_id@,
            ),
{
    let operation_id = generate_id();
    let request = build_delete_category_operation(
        list_id,
        category_id,
        operation_id.as_str(),
        user_id,
    );
    request
}

/// Prepare the renaming of a category.
pub fn rename_category(
    list_id: &str,
    category_group_id: &str,
    category_id: &str,
    new_name: &str,
    user_id: &str,
) -> (prepared: PbListOperationList)
    ensures
        exists|operation_id: Seq<char>|
            #![trigger is_fresh_id(operation_id)]
            is_fresh_id(operation_id)
            && prepared.deep_view() == rename_category_operation(
                list_id@,
                category_group_id@,
                category_id@,
                new_name@,
                operation_id,
                user_id@,
            ),
{
    let operation_id = generate_id();
    let request = build_rename_category_operation(
        list_id,
        category_group_id,
        category_id,
        new_name,
        operation_id.as_str(),
        user_id,
    );
    request
}

// Stores

/// Prepare the creation of a store under a fresh ID.
pub fn create_store(
    list_id: &str,
    name: &str,
    user_id: &str,
) -> (prepared: (PbListOperationList, Store))
    ensures
        exists|store_id: Seq<char>, operation_id: Seq<char>|
            #![trigger is_fresh_id(store_id), is_fresh_id(operation_id)]
            is_fresh_id(store_id)
            && is_fresh_id(operation_id)
            && prepared.0.deep_view() == create_store_operation(
                list_id@,
                name@,
                store_id,
                operation_id,
                user_id@,
            )
            && prepared.1.deep_view() == (StoreView { id: store_id, name: name@, sort_index: 0 }),
{
    let store_id = generate_id();
    let operation_id = generate_id();
    let created = new_store(store_id.as_str(), name);
    let request = build_create_store_operation(
        list_id,
        name,
        store_id.as_str(),
        operation_id.as_str(),
        user_id,
    );
    (request, created)
}

/// Prepare the renaming of a store.
pub fn update_store(
    list_id: &str,
    store_id: &str,
    new_name: &str,
    user_id: &str,
) -> (prepared: PbListOperationList)
    ensures
        exists|operation_id: Seq<char>|
            #![trigger is_fresh_id(operation_id)]
            is_fresh_id(operation_id)
            && prepared.deep_view() == update_store_operation(
                list_id@,
                store_id@,
                new_name@,
                operation_id,
                user_id@,
            ),
{
    let operation_id = generate_id();
    let request = build_update_store_operation(
        list_id,
        store_id,
        new_name,
        operation_id.as_str(),
        user_id,
    );
    request
}

/// Prepare taking a store off every item of a list. The same message serves for
/// the items of shopping lists and for those of starter lists.
pub fn remove_store_from_items(
    list_id: &str,
    store_id: &str,
    user_id: &str,
) -> (prepared: PbListOperationList)
    ensures
        exists|operation_id: Seq<char>|
            #![trigger is_fresh_id(operation_id)]
            is_fresh_id(operation_id)
            && prepared.deep_view() == remove_store_from_items_operation(
                RemoveStoreFromItemsParamsView {
                    list_id: list_id@,
                    store_id: store_id@,
                    operation_id,
                    user_id: user_id@,
                },
            ),
{
    let operation_id = generate_id();
    let request = build_remove_store_from_items_operation(
        RemoveStoreFromItemsParams {
            list_id: list_id.to_owned(),
            store_id: store_id.to_owned(),
            operation_id,
            user_id: user_id.to_owned(),
        },
    );
    request
}

/// Prepare the last step of deleting a store: the deletion of the store itself,
/// without its name.
pub fn delete_store(list_id: &str, store_id: &str, user_id: &str) -> (prepared: PbListOperationList)
    ensures
        exists|operation_id: Seq<char>|
            #![trigger is_fresh_id(operation_id)]
            is_fresh_id(operation_id)
            && prepared.deep_view() == delete_store_operation(
                DeleteStoreParamsView {
                    store_id: store_id@,
                    store_name: None,
                    list_id: list_id@,
                    operation_id,
                    user_id: user_id@,
                },
            ),
{
    let operation_id = generate_id();
    let request = build_delete_store_operation(
        DeleteStoreParams {
            store_id: store_id.to_owned(),
            store_name: None,
            list_id: list_id.to_owned(),
            operation_id,
            user_id: user_id.to_owned(),
        },
    );
    request
}

/// Prepare what deleting a store asks of one store filter: nothing if the filter
/// does not select the store, its deletion if the store is its only one, and else
/// its update to its other stores.
pub fn delete_store_filter_with_store(
    filter: &StoreFilter,
    list_id: &str,
    store_id: &str,
    user_id: &str,
) -> (prepared: Option<PbListOperationList>)
    ensures
        exists|operation_id: Seq<char>|
            #![trigger is_fresh_id(operation_id)]
            is_fresh_id(operation_id) && prepared.deep_view()
                == filter_operation_without_store(
                filter.deep_view(),
                list_id@,
                store_id@,
                operation_id,
                user_id@,
            ),
{
    let operation_id = generate_id();
    let request = build_filter_operation_without_store(
        filter,
        list_id,
        store_id,
        operation_id.as_str(),
        user_id,
    );
    request
}

// Recipe collections

/// Prepare the creation of an empty recipe collection under a fresh ID.
pub fn create_recipe_collection(
    name: &str,
    user_id: &str,
    timestamp: Double,
) -> (prepared: (PbRecipeOperationList, RecipeCollection))
    ensures
        exists|collection_id: Seq<char>, operation_id: Seq<char>|
            #![trigger is_fresh_id(collection_id), is_fresh_id(operation_id)]
            is_fresh_id(collection_id)
            && is_fresh_id(operation_id)
            && prepared.0.deep_view() == create_recipe_collection_operation(
                name@,
                collection_id,
                timestamp,
                operation_id,
                user_id@,
            )
            && prepared.1.deep_view() == (RecipeCollectionView {
                id: collection_id,
                name: name@,
                recipe_ids: Seq::empty(),
            }),
{
    let collection_id = generate_id();
    let operation_id = generate_id();
    let created = new_recipe_collection(collection_id.as_str(), name);
    let request = build_create_recipe_collection_operation(
        name,
        collection_id.as_str(),
        timestamp,
        operation_id.as_str(),
        user_id,
    );
    (request, created)
}

/// Prepare the deletion of a recipe collection.
pub fn delete_recipe_collection(
    collection_id: &str,
    user_id: &str,
) -> (prepared: PbRecipeOperationList)
    ensures
        exists|operation_id: Seq<char>|
            #![trigger is_fresh_id(operation_id)]
            is_fresh_id(operation_id)
            && prepared.deep_view() == delete_recipe_collection_operation(
                collection_id@,
                operation_id,
                user_id@,
            ),
{
    let operation_id = generate_id();
    let request = build_delete_recipe_collection_operation(
        collection_id,
        operation_id.as_str(),
        user_id,
    );
    request
}

/// Prepare the addition of a recipe to a collection; `collection` is the collection
/// as the service holds it now.
pub fn add_recipe_to_collection(
    collection: &RecipeCollection,
    recipe_id: &str,
    user_id: &str,
    timestamp: Double,
) -> (prepared: PbRecipeOperationList)
    ensures
        exists|operation_id: Seq<char>|
            #![trigger is_fresh_id(operation_id)]
            is_fresh_id(operation_id)
            && prepared.deep_view() == recipe_collection_update_operation(
                "add-recipes-to-collection"@,
                collection.deep_view().id,
                collection.deep_view().name,
                with_recipe(collection.deep_view().recipe_ids, recipe_id@),
                timestamp,
                operation_id,
                user_id@,
            ),
{
    let operation_id = generate_id();
    let request = build_add_recipe_to_collection_operation(
        collection,
        recipe_id,
        timestamp,
        operation_id.as_str(),
        user_id,
    );
    request
}

/// Prepare the removal of a recipe from a collection; `collection` is the
/// collection as the service holds it now.
pub fn remove_recipe_from_collection(
    collection: &RecipeCollection,
    recipe_id: &str,
    user_id: &str,
    timestamp: Double,
) -> (prepared: PbRecipeOperationList)
    ensures
        exists|operation_id: Seq<char>|
            #![trigger is_fresh_id(operation_id)]
            is_fresh_id(operation_id)
            && prepared.deep_view() == recipe_collection_update_operation(
                "remove-recipes-from-collection"@,
                collection.deep_view().id,
                collection.deep_view().name,
                without(collection.deep_view().recipe_ids, recipe_id@),
                timestamp,
                operation_id,
                user_id@,
            ),
{
    let operation_id = generate_id();
    let request = build_remove_recipe_from_collection_operation(
        collection,
        recipe_id,
        timestamp,
        operation_id.as_str(),
        user_id,
    );
    request
}

// Recipes

/// Prepare the creation of a recipe under a fresh ID. The two timestamps are the
/// times of the change and of the creation.
pub fn create_recipe(
    name: &str,
    ingredients: Vec<Ingredient>,
    preparation_steps: Vec<String>,
    user_id: &str,
    timestamp: Double,
    creation_timestamp: Double,
) -> (prepared: (PbRecipeOperationList, Recipe))
    ensures
        exists|recipe_id: Seq<char>, operation_id: Seq<char>|
            #![trigger is_fresh_id(recipe_id), is_fresh_id(operation_id)]
            is_fresh_id(recipe_id)
            && is_fresh_id(operation_id)
            && prepared.0.deep_view() == save_recipe_operation(
                recipe_id,
                name@,
                ingredients.deep_view().map_values(
                    |ingredient: IngredientView| pb_ingredient_of(ingredient),
                ),
                preparation_steps.deep_view(),
                timestamp,
                creation_timestamp,
                operation_id,
                user_id@,
            )
            && prepared.1.deep_view() == (RecipeView {
                id: recipe_id,
                name: name@,
                ingredients: ingredients.deep_view(),
                preparation_steps: preparation_steps.deep_view(),
                note: None,
                source_name: None,
                source_url: None,
                servings: None,
                prep_time: None,
                cook_time: None,
                rating: None,
                photo_urls: Seq::empty(),
            }),
{
    let sent = pb_ingredients(&ingredients);
    let steps = crate::sequences::clone_strings(&preparation_steps);
    let recipe_id = generate_id();
    let operation_id = generate_id();
    let created = new_recipe(recipe_id.as_str(), name, ingredients, preparation_steps);
    let request = build_save_recipe_operation(
        recipe_id.as_str(),
        name,
        sent,
        steps,
        timestamp,
        creation_timestamp,
        operation_id.as_str(),
        user_id,
    );
    (request, created)
}

/// Prepare the update of a recipe. The two timestamps are the times of the change
/// and of the creation.
pub fn update_recipe(
    recipe_id: &str,
    name: &str,
    ingredients: Vec<Ingredient>,
    preparation_steps: Vec<String>,
    user_id: &str,
    timestamp: Double,
    creation_timestamp: Double,
) -> (prepared: PbRecipeOperationList)
    ensures
        exists|operation_id: Seq<char>|
            #![trigger is_fresh_id(operation_id)]
            is_fresh_id(operation_id)
            && prepared.deep_view() == save_recipe_operation(
                recipe_id@,
                name@,
                ingredients.deep_view().map_values(
                    |ingredient: IngredientView| pb_ingredient_of(ingredient),
                ),
                preparation_steps.deep_view(),
                timestamp,
                creation_timestamp,
                operation_id,
                user_id@,
            ),
{
    let sent = pb_ingredients(&ingredients);
    let operation_id = generate_id();
    let request = build_save_recipe_operation(
        recipe_id,
        name,
        sent,
        preparation_steps,
        timestamp,
        creation_timestamp,
        operation_id.as_str(),
        user_id,
    );
    request
}

/// Prepare the deletion of a recipe.
pub fn delete_recipe(recipe_id: &str, user_id: &str) -> (prepared: PbRecipeOperationList)
    ensures
        exists|operation_id: Seq<char>|
            #![trigger is_fresh_id(operation_id)]
            is_fresh_id(operation_id)
            && prepared.deep_view() == delete_recipe_operation(recipe_id@, operation_id, user_id@),
{
    let operation_id = generate_id();
    let request = build_delete_recipe_operation(recipe_id, operation_id.as_str(), user_id);
    request
}

// Meal planning

/// Prepare the creation of a meal plan event under a fresh ID.
pub fn create_meal_plan_event(
    calendar_id: &str,
    date: &str,
    recipe_id: Option<&str>,
    title: Option<&str>,
    label_id: Option<&str>,
    user_id: &str,
) -> (prepared: (PbCalendarOperationList, MealPlanEvent))
    ensures
        exists|event_id: Seq<char>, operation_id: Seq<char>|
            #![trigger is_fresh_id(event_id), is_fresh_id(operation_id)]
            is_fresh_id(event_id)
            && is_fresh_id(operation_id)
            && prepared.0.deep_view() == create_meal_plan_event_operation(
                calendar_id@,
                event_id,
                date@,
                recipe_id.deep_view(),
                title.deep_view(),
                label_id.deep_view(),
                operation_id,
                user_id@,
            )
            && prepared.1.deep_view() == (MealPlanEventView {
                id: event_id,
                date: date@,
                title: title.deep_view(),
                recipe_id: recipe_id.deep_view(),
                label_id: label_id.deep_view(),
                details: None,
            }),
{
    let event_id = generate_id();
    let operation_id = generate_id();
    let created = new_meal_plan_event(event_id.as_str(), date, recipe_id, title, label_id);
    let request = build_create_meal_plan_event_operation(
        calendar_id,
        event_id.as_str(),
        date,
        recipe_id,
        title,
        label_id,
        operation_id.as_str(),
        user_id,
    );
    (request, created)
}

/// Prepare the update of a meal plan event.
pub fn update_meal_plan_event(
    calendar_id: &str,
    event_id: &str,
    date: &str,
    recipe_id: Option<&str>,
    title: Option<&str>,
    label_id: Option<&str>,
    user_id: &str,
) -> (prepared: PbCalendarOperationList)
    ensures
        exists|operation_id: Seq<char>|
            #![trigger is_fresh_id(operation_id)]
            is_fresh_id(operation_id)
            && prepared.deep_view() == update_meal_plan_event_operation(
                calendar_id@,
                event_id@,
                date@,
                recipe_id.deep_view(),
                title.deep_view(),
                label_id.deep_view(),
                operation_id,
                user_id@,
            ),
{
    let operation_id = generate_id();
    let request = build_update_meal_plan_event_operation(
        calendar_id,
        event_id,
        date,
        recipe_id,
        title,
        label_id,
        operation_id.as_str(),
        user_id,
    );
    request
}

/// Prepare the deletion of a meal plan event.
pub fn delete_meal_plan_event(
    calendar_id: &str,
    event_id: &str,
    user_id: &str,
) -> (prepared: PbCalendarOperationList)
    ensures
        exists|operation_id: Seq<char>|
            #![trigger is_fresh_id(operation_id)]
            is_fresh_id(operation_id)
            && prepared.deep_view() == delete_meal_plan_event_operation(
                calendar_id@,
                event_id@,
                operation_id,
                user_id@,
            ),
{
    let operation_id = generate_id();
    let request = build_delete_meal_plan_event_operation(
        calendar_id,
        event_id,
        operation_id.as_str(),
        user_id,
    );
    request
}

} // verus!
