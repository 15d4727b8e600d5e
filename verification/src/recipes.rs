//! Recipes: how they are read out of the service's responses, and the operations
//! that save and delete them.

use crate::error::AnyListError;
use crate::protobuf::anylist::double::ONE_BITS;
use crate::protobuf::anylist::pb_operation_metadata::OperationClass;
use crate::protobuf::anylist::{
    Double, PbIngredient, PbIngredientView, PbOperationMetadata, PbOperationMetadataView,
    PbRecipe, PbRecipeDataResponse, PbRecipeDataResponseView, PbRecipeOperation,
    PbRecipeOperationList, PbRecipeOperationListView, PbRecipeOperationView, PbRecipeView,
};
use crate::sequences::{
    clone_strings, filter_map, first_equal_from, lemma_filter_map_ends, lemma_filter_map_step,
    position_of,
};
use crate::text::{clone_opt, str_eq};
use vstd::prelude::*;
use vstd::string::StringExecFns;

verus! {

/// Represents an ingredient in a recipe.
#[derive(Debug, Clone)]
pub struct Ingredient {
    pub name: String,
    pub quantity: Option<String>,
    pub note: Option<String>,
    pub raw_ingredient: Option<String>,
}

/// The mathematical value of an [`Ingredient`].
#[verifier::ext_equal]
pub ghost struct IngredientView {
    pub name: Seq<char>,
    pub quantity: Option<Seq<char>>,
    pub note: Option<Seq<char>>,
    pub raw_ingredient: Option<Seq<char>>,
}

impl DeepView for Ingredient {
    type V = IngredientView;

    open spec fn deep_view(&self) -> IngredientView {
        IngredientView {
            name: self.name.deep_view(),
            quantity: self.quantity.deep_view(),
            note: self.note.deep_view(),
            raw_ingredient: self.raw_ingredient.deep_view(),
        }
    }
}

/// Represents a recipe.
#[derive(Debug, Clone)]
pub struct Recipe {
    pub id: String,
    pub name: String,
    pub ingredients: Vec<Ingredient>,
    pub preparation_steps: Vec<String>,
    pub note: Option<String>,
    pub source_name: Option<String>,
    pub source_url: Option<String>,
    pub servings: Option<String>,
    pub prep_time: Option<i32>,
    pub cook_time: Option<i32>,
    pub rating: Option<i32>,
    pub photo_urls: Vec<String>,
}

/// The mathematical value of a [`Recipe`].
#[verifier::ext_equal]
pub ghost struct RecipeView {
    pub id: Seq<char>,
    pub name: Seq<char>,
    pub ingredients: Seq<IngredientView>,
    pub preparation_steps: Seq<Seq<char>>,
    pub note: Option<Seq<char>>,
    pub source_name: Option<Seq<char>>,
    pub source_url: Option<Seq<char>>,
    pub servings: Option<Seq<char>>,
    pub prep_time: Option<i32>,
    pub cook_time: Option<i32>,
    pub rating: Option<i32>,
    pub photo_urls: Seq<Seq<char>>,
}

impl DeepView for Recipe {
    type V = RecipeView;

    open spec fn deep_view(&self) -> RecipeView {
        RecipeView {
            id: self.id.deep_view(),
            name: self.name.deep_view(),
            ingredients: self.ingredients.deep_view(),
            preparation_steps: self.preparation_steps.deep_view(),
            note: self.note.deep_view(),
            source_name: self.source_name.deep_view(),
            source_url: self.source_url.deep_view(),
            servings: self.servings.deep_view(),
            prep_time: self.prep_time.deep_view(),
            cook_time: self.cook_time.deep_view(),
            rating: self.rating.deep_view(),
            photo_urls: self.photo_urls.deep_view(),
        }
    }
}

/// The request that saves a recipe: the recipe with its ingredients and steps, at scale one.
pub open spec fn save_recipe_operation(
    recipe_id: Seq<char>,
    name: Seq<char>,
    ingredients: Seq<PbIngredientView>,
    preparation_steps: Seq<Seq<char>>,
    timestamp: Double,
    creation_timestamp: Double,
    operation_id: Seq<char>,
    user_id: Seq<char>,
) -> PbRecipeOperationListView {
    PbRecipeOperationListView {
        operations: seq![
            PbRecipeOperationView {
                metadata: Some(
                    PbOperationMetadataView {
                        operation_id: Some(operation_id),
                        handler_id: Some("save-recipe"@),
                        user_id: Some(user_id),
                        operation_class: Some(OperationClass::UndefinedOperation.number()),
                    },
                ),
                recipe: Some(
                    PbRecipeView {
                        identifier: recipe_id,
                        timestamp: Some(timestamp),
                        name: Some(name),
                        ingredients: ingredients,
                        preparation_steps: preparation_steps,
                        scale_factor: Some(Double { bits: ONE_BITS }),
                        creation_timestamp: Some(creation_timestamp),
                        ..PbRecipeView::blank()
                    },
                ),
                is_new_recipe_from_web_import: Some(false),
                ..PbRecipeOperationView::blank()
            },
        ],
    }
}

/// Build the operation that saves a recipe, new or changed, from its protobuf
/// ingredients.
pub fn build_save_recipe_operation(
    recipe_id: &str,
    name: &str,
    ingredients: Vec<PbIngredient>,
    preparation_steps: Vec<String>,
    timestamp: Double,
    creation_timestamp: Double,
    operation_id: &str,
    user_id: &str,
) -> (list: PbRecipeOperationList)
    ensures
        list.deep_view() == save_recipe_operation(
            recipe_id@,
            name@,
            ingredients.deep_view(),
            preparation_steps.deep_view(),
            timestamp,
            creation_timestamp,
            operation_id@,
            user_id@,
        ),
{
    let list = PbRecipeOperationList {
        operations: vec![
            PbRecipeOperation {
                metadata: Some(
                    PbOperationMetadata {
                        operation_id: Some(operation_id.to_owned()),
                        handler_id: Some("save-recipe".to_owned()),
                        user_id: Some(user_id.to_owned()),
                        operation_class: Some(OperationClass::UndefinedOperation.to_i32()),
                    },
                ),
                recipe: Some(
                    PbRecipe {
                        identifier: recipe_id.to_owned(),
                        timestamp: Some(timestamp),
                        name: Some(name.to_owned()),
                        ingredients: ingredients,
                        preparation_steps: preparation_steps,
                        scale_factor: Some(Double { bits: ONE_BITS }),
                        creation_timestamp: Some(creation_timestamp),
                        ..PbRecipe::default()
                    },
                ),
                is_new_recipe_from_web_import: Some(false),
                ..PbRecipeOperation::default()
            },
        ],
    };
    list
}

/// The request that deletes a recipe: its ID alone.
pub open spec fn delete_recipe_operation(
    recipe_id: Seq<char>,
    operation_id: Seq<char>,
    user_id: Seq<char>,
) -> PbRecipeOperationListView {
    PbRecipeOperationListView {
        operations: seq![
            PbRecipeOperationView {
                metadata: Some(
                    PbOperationMetadataView {
                        operation_id: Some(operation_id),
                        handler_id: Some("remove-recipe"@),
                        user_id: Some(user_id),
                        operation_class: Some(OperationClass::UndefinedOperation.number()),
                    },
                ),
                is_new_recipe_from_web_import: Some(false),
                recipe_ids: seq![recipe_id],
                ..PbRecipeOperationView::blank()
            },
        ],
    }
}

/// Build the operation that deletes a recipe.
pub fn build_delete_recipe_operation(
    recipe_id: &str,
    operation_id: &str,
    user_id: &str,
) -> (list: PbRecipeOperationList)
    ensures
        list.deep_view() == delete_recipe_operation(recipe_id@, operation_id@, user_id@),
{
    let list = PbRecipeOperationList {
        operations: vec![
            PbRecipeOperation {
                metadata: Some(
                    PbOperationMetadata {
                        operation_id: Some(operation_id.to_owned()),
                        handler_id: Some("remove-recipe".to_owned()),
                        user_id: Some(user_id.to_owned()),
                        operation_class: Some(OperationClass::UndefinedOperation.to_i32()),
                    },
                ),
                is_new_recipe_from_web_import: Some(false),
                recipe_ids: vec![recipe_id.to_owned()],
                ..PbRecipeOperation::default()
            },
        ],
    };
    assert(list.deep_view() =~~= delete_recipe_operation(recipe_id@, operation_id@, user_id@));
    list
}

/// The protobuf ingredient that an ingredient is sent as.
pub open spec fn pb_ingredient_of(ingredient: IngredientView) -> PbIngredientView {
    PbIngredientView {
        raw_ingredient: ingredient.raw_ingredient,
        name: Some(ingredient.name),
        quantity: ingredient.quantity,
        note: ingredient.note,
    }
}

/// The ingredient that a protobuf ingredient stands for, if it has a name.
pub open spec fn ingredient_of(ingredient: PbIngredientView) -> Option<IngredientView> {
    match ingredient.name {
        Some(name) => Some(
            IngredientView {
                name,
                quantity: ingredient.quantity,
                note: ingredient.note,
                raw_ingredient: ingredient.raw_ingredient,
            },
        ),
        None => None,
    }
}

/// The recipe that a protobuf recipe stands for, if it has a name.
pub open spec fn recipe_of(recipe: PbRecipeView) -> Option<RecipeView> {
    match recipe.name {
        Some(name) => Some(
            RecipeView {
                id: recipe.identifier,
                name,
                ingredients: filter_map(
                    recipe.ingredients,
                    |ingredient: PbIngredientView| ingredient_of(ingredient),
                ),
                preparation_steps: recipe.preparation_steps,
                note: recipe.note,
                source_name: recipe.source_name,
                source_url: recipe.source_url,
                servings: recipe.servings,
                prep_time: recipe.prep_time,
                cook_time: recipe.cook_time,
                rating: recipe.rating,
                photo_urls: recipe.photo_urls,
            },
        ),
        None => None,
    }
}

/// The recipes of a response: its recipes that have a name, in their order.
pub open spec fn recipes_of(response: PbRecipeDataResponseView) -> Seq<RecipeView> {
    filter_map(response.recipes, |recipe: PbRecipeView| recipe_of(recipe))
}

/// The protobuf ingredients that a run of ingredients is sent as, one for each.
pub fn pb_ingredients(ingredients: &Vec<Ingredient>) -> (result: Vec<PbIngredient>)
    ensures
        result.deep_view() == ingredients.deep_view().map_values(
            |ingredient: IngredientView| pb_ingredient_of(ingredient),
        ),
{
    let mut result: Vec<PbIngredient> = Vec::new();
    let mut i: usize = 0;
    while i < ingredients.len()
        invariant
            i <= ingredients.len(),
            result.len() == i,
            forall|k: int|
                0 <= k < i ==> (#[trigger] result[k]).deep_view() == pb_ingredient_of(
                    ingredients[k].deep_view(),
                ),
        decreases ingredients.len() - i,
    {
        let ingredient = &ingredients[i];
        result.push(
            PbIngredient {
                raw_ingredient: clone_opt(&ingredient.raw_ingredient),
                name: Some(ingredient.name.clone()),
                quantity: clone_opt(&ingredient.quantity),
                note: clone_opt(&ingredient.note),
            },
        );
        i += 1;
    }
    result
}

/// The ingredients that a run of protobuf ingredients stands for; those without a
/// name are left out.
fn ingredients_from(ingredients: &Vec<PbIngredient>) -> (result: Vec<Ingredient>)
    ensures
        result.deep_view() == filter_map(
            ingredients.deep_view(),
            |ingredient: PbIngredientView| ingredient_of(ingredient),
        ),
{
    let ghost f = |ingredient: PbIngredientView| ingredient_of(ingredient);
    let ghost all = ingredients.deep_view();
    let mut result: Vec<Ingredient> = Vec::new();
    let mut i: usize = 0;
    while i < ingredients.len()
        invariant
            i <= ingredients.len(),
            all == ingredients.deep_view(),
            f == |ingredient: PbIngredientView| ingredient_of(ingredient),
            result.deep_view() == filter_map(all.take(i as int), f),
        decreases ingredients.len() - i,
    {
        let ingredient = &ingredients[i];
        proof {
            lemma_filter_map_step(all, f, i as int);
        }
        if let Some(name) = &ingredient.name {
            let converted = Ingredient {
                name: name.clone(),
                quantity: clone_opt(&ingredient.quantity),
                note: clone_opt(&ingredient.note),
                raw_ingredient: clone_opt(&ingredient.raw_ingredient),
            };
            result.push(converted);
        }
        i += 1;
    }
    proof {
        lemma_filter_map_ends(all, f);
    }
    result
}

/// Read the recipes out of a response; recipes and ingredients without a name are
/// left out.
pub fn recipes_from_response(response: PbRecipeDataResponse) -> (recipes: Vec<Recipe>)
    ensures
        recipes.deep_view() == recipes_of(response.deep_view()),
{
    recipes_in(&response)
}

/// Read the recipes out of the user data: those of its recipe-data response, and
/// none where it has no such response.
pub fn recipes_from_user_data(response: Option<&PbRecipeDataResponse>) -> (recipes: Vec<Recipe>)
    ensures
        recipes.deep_view() == match response.deep_view() {
            Some(r) => recipes_of(r),
            None => Seq::empty(),
        },
{
    match response {
        Some(r) => recipes_in(r),
        None => {
            let recipes: Vec<Recipe> = Vec::new();
            recipes
        },
    }
}

/// The recipes that a response holds.
fn recipes_in(response: &PbRecipeDataResponse) -> (recipes: Vec<Recipe>)
    ensures
        recipes.deep_view() == recipes_of(response.deep_view()),
{
    let ghost f = |recipe: PbRecipeView| recipe_of(recipe);
    let ghost all = response.recipes.deep_view();
    let mut recipes: Vec<Recipe> = Vec::new();
    let mut i: usize = 0;
    while i < response.recipes.len()
        invariant
            i <= response.recipes.len(),
            all == response.recipes.deep_view(),
            all == response.deep_view().recipes,
            f == |recipe: PbRecipeView| recipe_of(recipe),
            recipes.deep_view() == filter_map(all.take(i as int), f),
        decreases response.recipes.len() - i,
    {
        let recipe = &response.recipes[i];
        proof {
            lemma_filter_map_step(all, f, i as int);
        }
        if let Some(name) = &recipe.name {
            let converted = Recipe {
                id: recipe.identifier.clone(),
                name: name.clone(),
                ingredients: ingredients_from(&recipe.ingredients),
                preparation_steps: clone_strings(&recipe.preparation_steps),
                note: clone_opt(&recipe.note),
                source_name: clone_opt(&recipe.source_name),
                source_url: clone_opt(&recipe.source_url),
                servings: clone_opt(&recipe.servings),
                prep_time: recipe.prep_time,
                cook_time: recipe.cook_time,
                rating: recipe.rating,
                photo_urls: clone_strings(&recipe.photo_urls),
            };
            recipes.push(converted);
        }
        i += 1;
    }
    proof {
        lemma_filter_map_ends(all, f);
    }
    recipes
}

/// Position of the first recipe with the given ID, if there is one.
pub open spec fn recipe_with_id(recipes: Seq<RecipeView>, id: Seq<char>) -> Option<int> {
    position_of(recipes.map_values(|r: RecipeView| r.id), id)
}

/// Position of the first recipe with the given name, if there is one.
pub open spec fn recipe_with_name(recipes: Seq<RecipeView>, name: Seq<char>) -> Option<int> {
    position_of(recipes.map_values(|r: RecipeView| r.name), name)
}

/// The words that report a recipe not found by its ID.
pub open spec fn recipe_id_not_found(id: Seq<char>) -> Seq<char> {
    "Recipe with ID "@ + id + " not found"@
}

/// The words that report a recipe not found by its name.
pub open spec fn recipe_name_not_found(name: Seq<char>) -> Seq<char> {
    "Recipe with name '"@ + name + "' not found"@
}

/// Pick the recipe with the given ID: the first one, if several have it.
pub fn find_recipe_by_id(recipes: Vec<Recipe>, recipe_id: &str) -> (found: Result<
    Recipe,
    AnyListError,
>)
    ensures
        match recipe_with_id(recipes.deep_view(), recipe_id@) {
            Some(i) => found matches Ok(recipe) && recipe.deep_view() == recipes.deep_view()[i],
            None => found matches Err(AnyListError::NotFound(msg)) && msg@ == recipe_id_not_found(
                recipe_id@,
            ),
        },
{
    let ghost all = recipes.deep_view();
    let ghost ids = all.map_values(|r: RecipeView| r.id);
    let mut rest = recipes;
    let mut i: usize = 0;
    while i < rest.len()
        invariant
            i <= rest.len(),
            rest.deep_view() == all,
            all == recipes.deep_view(),
            ids == all.map_values(|r: RecipeView| r.id),
            first_equal_from(ids, recipe_id@, 0) == first_equal_from(ids, recipe_id@, i as int),
        decreases rest.len() - i,
    {
        if str_eq(rest[i].id.as_str(), recipe_id) {
            let recipe = rest.remove(i);
            return Ok(recipe);
        }
        i += 1;
    }
    Err(
        AnyListError::NotFound(
            "Recipe with ID ".to_owned().concat(recipe_id).concat(" not found"),
        ),
    )
}

/// Pick the recipe with the given name: the first one, if several have it.
pub fn find_recipe_by_name(recipes: Vec<Recipe>, name: &str) -> (found: Result<
    Recipe,
    AnyListError,
>)
    ensures
        match recipe_with_name(recipes.deep_view(), name@) {
            Some(i) => found matches Ok(recipe) && recipe.deep_view() == recipes.deep_view()[i],
            None => found matches Err(AnyListError::NotFound(msg)) && msg@
                == recipe_name_not_found(name@),
        },
{
    let ghost all = recipes.deep_view();
    let ghost names = all.map_values(|r: RecipeView| r.name);
    let mut rest = recipes;
    let mut i: usize = 0;
    while i < rest.len()
        invariant
            i <= rest.len(),
            rest.deep_view() == all,
            all == recipes.deep_view(),
            names == all.map_values(|r: RecipeView| r.name),
            first_equal_from(names, name@, 0) == first_equal_from(names, name@, i as int),
        decreases rest.len() - i,
    {
        if str_eq(rest[i].name.as_str(), name) {
            let recipe = rest.remove(i);
            return Ok(recipe);
        }
        i += 1;
    }
    Err(
        AnyListError::NotFound(
            "Recipe with name '".to_owned().concat(name).concat("' not found"),
        ),
    )
}

/// The recipe that saving a new recipe asks the service to create, as the
/// application sees it.
pub fn new_recipe(
    recipe_id: &str,
    name: &str,
    ingredients: Vec<Ingredient>,
    preparation_steps: Vec<String>,
) -> (recipe: Recipe)
    ensures
        recipe.deep_view() == (RecipeView {
            id: recipe_id@,
            name: name@,
            ingredients: ingredients.deep_view(),
            preparation_steps: preparation_steps.deep_view(),
            note: None,
            source_name: None,
            source_url: None,
            servings: None,
            prep_time: None,
            cook_time: None,
            rating: None,
            photo_urls: Seq::empty(),
        }),
{
    let recipe = Recipe {
        id: recipe_id.to_owned(),
        name: name.to_owned(),
        ingredients,
        preparation_steps,
        note: None,
        source_name: None,
        source_url: None,
        servings: None,
        prep_time: None,
        cook_time: None,
        rating: None,
        photo_urls: Vec::new(),
    };
    recipe
}

} // verus!
