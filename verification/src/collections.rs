//! Recipe collections: how they are read out of the service's responses, and the
//! operations that create, delete and refill them.

use crate::error::AnyListError;
use crate::protobuf::anylist::pb_operation_metadata::OperationClass;
use crate::protobuf::anylist::{
    Double, PbOperationMetadata, PbOperationMetadataView, PbRecipeCollection,
    PbRecipeCollectionSettings, PbRecipeCollectionSettingsView, PbRecipeCollectionView,
    PbRecipeDataResponse, PbRecipeDataResponseView, PbRecipeOperation, PbRecipeOperationList,
    PbRecipeOperationListView, PbRecipeOperationView,
};
use crate::sequences::{
    clone_strings, contains_str, filter_map, first_equal_from, lemma_filter_map_ends,
    lemma_filter_map_step, position_of, without, without_str,
};
use crate::text::str_eq;
use vstd::prelude::*;
use vstd::string::StringExecFns;

verus! {

/// Represents a recipe collection.
#[derive(Debug, Clone)]
pub struct RecipeCollection {
    pub id: String,
    pub name: String,
    pub recipe_ids: Vec<String>,
}

/// The mathematical value of a [`RecipeCollection`].
#[verifier::ext_equal]
pub ghost struct RecipeCollectionView {
    pub id: Seq<char>,
    pub name: Seq<char>,
    pub recipe_ids: Seq<Seq<char>>,
}

impl DeepView for RecipeCollection {
    type V = RecipeCollectionView;

    open spec fn deep_view(&self) -> RecipeCollectionView {
        RecipeCollectionView {
            id: self.id.deep_view(),
            name: self.name.deep_view(),
            recipe_ids: self.recipe_ids.deep_view(),
        }
    }
}

/// The request that creates a recipe collection: the new collection, empty and sorted by hand.
pub open spec fn create_recipe_collection_operation(
    name: Seq<char>,
    collection_id: Seq<char>,
    timestamp: Double,
    operation_id: Seq<char>,
    user_id: Seq<char>,
) -> PbRecipeOperationListView {
    PbRecipeOperationListView {
        operations: seq![
            PbRecipeOperationView {
                metadata: Some(
                    PbOperationMetadataView {
                        operation_id: Some(operation_id),
                        handler_id: Some("new-recipe-collection"@),
                        user_id: Some(user_id),
                        operation_class: Some(OperationClass::UndefinedOperation.number()),
                    },
                ),
                recipe_collection: Some(
                    PbRecipeCollectionView {
                        identifier: collection_id,
                        timestamp: Some(timestamp),
                        name: Some(name),
                        recipe_ids: Seq::empty(),
                        collection_settings: Some(
                            PbRecipeCollectionSettingsView {
                                recipes_sort_order: Some(0),
                                show_only_recipes_with_no_collection: Some(false),
                                ..PbRecipeCollectionSettingsView::blank()
                            },
                        ),
                        ..PbRecipeCollectionView::blank()
                    },
                ),
                is_new_recipe_from_web_import: Some(false),
                ..PbRecipeOperationView::blank()
            },
        ],
    }
}

/// Build the operation that creates an empty recipe collection.
pub fn build_create_recipe_collection_operation(
    name: &str,
    collection_id: &str,
    timestamp: Double,
    operation_id: &str,
    user_id: &str,
) -> (list: PbRecipeOperationList)
    ensures
        list.deep_view() == create_recipe_collection_operation(
            name@,
            collection_id@,
            timestamp,
            operation_id@,
            user_id@,
        ),
{
    let list = PbRecipeOperationList {
        operations: vec![
            PbRecipeOperation {
                metadata: Some(
                    PbOperationMetadata {
                        operation_id: Some(operation_id.to_owned()),
                        handler_id: Some("new-recipe-collection".to_owned()),
                        user_id: Some(user_id.to_owned()),
                        operation_class: Some(OperationClass::UndefinedOperation.to_i32()),
                    },
                ),
                recipe_collection: Some(
                    PbRecipeCollection {
                        identifier: collection_id.to_owned(),
                        timestamp: Some(timestamp),
                        name: Some(name.to_owned()),
                        recipe_ids: Vec::new(),
                        collection_settings: Some(
                            PbRecipeCollectionSettings {
                                recipes_sort_order: Some(0),
                                show_only_recipes_with_no_collection: Some(false),
                                ..PbRecipeCollectionSettings::default()
                            },
                        ),
                        ..PbRecipeCollection::default()
                    },
                ),
                is_new_recipe_from_web_import: Some(false),
                ..PbRecipeOperation::default()
            },
        ],
    };
    assert(list.deep_view() =~~= create_recipe_collection_operation(
        name@,
        collection_id@,
        timestamp,
        operation_id@,
        user_id@,
    ));
    list
}

/// The request that deletes a recipe collection: its ID alone.
pub open spec fn delete_recipe_collection_operation(
    collection_id: Seq<char>,
    operation_id: Seq<char>,
    user_id: Seq<char>,
) -> PbRecipeOperationListView {
    PbRecipeOperationListView {
        operations: seq![
            PbRecipeOperationView {
                metadata: Some(
                    PbOperationMetadataView {
                        operation_id: Some(operation_id),
                        handler_id: Some("remove-recipe-collection"@),
                        user_id: Some(user_id),
                        operation_class: Some(OperationClass::UndefinedOperation.number()),
                    },
                ),
                recipe_collection_ids: seq![collection_id],
                is_new_recipe_from_web_import: Some(false),
                ..PbRecipeOperationView::blank()
            },
        ],
    }
}

/// Build the operation that deletes a recipe collection.
pub fn build_delete_recipe_collection_operation(
    collection_id: &str,
    operation_id: &str,
    user_id: &str,
) -> (list: PbRecipeOperationList)
    ensures
        list.deep_view() == delete_recipe_collection_operation(
            collection_id@,
            operation_id@,
            user_id@,
        ),
{
    let list = PbRecipeOperationList {
        operations: vec![
            PbRecipeOperation {
                metadata: Some(
                    PbOperationMetadata {
                        operation_id: Some(operation_id.to_owned()),
                        handler_id: Some("remove-recipe-collection".to_owned()),
                        user_id: Some(user_id.to_owned()),
                        operation_class: Some(OperationClass::UndefinedOperation.to_i32()),
                    },
                ),
                recipe_collection_ids: vec![collection_id.to_owned()],
                is_new_recipe_from_web_import: Some(false),
                ..PbRecipeOperation::default()
            },
        ],
    };
    assert(list.deep_view() =~~= delete_recipe_collection_operation(
        collection_id@,
        operation_id@,
        user_id@,
    ));
    list
}

/// A request that sends a collection with a new selection of recipes.
pub open spec fn recipe_collection_update_operation(
    handler_id: Seq<char>,
    collection_id: Seq<char>,
    name: Seq<char>,
    recipe_ids: Seq<Seq<char>>,
    timestamp: Double,
    operation_id: Seq<char>,
    user_id: Seq<char>,
) -> PbRecipeOperationListView {
    PbRecipeOperationListView {
        operations: seq![
            PbRecipeOperationView {
                metadata: Some(
                    PbOperationMetadataView {
                        operation_id: Some(operation_id),
                        handler_id: Some(handler_id),
                        user_id: Some(user_id),
                        operation_class: Some(OperationClass::UndefinedOperation.number()),
                    },
                ),
                recipe_collection: Some(
                    PbRecipeCollectionView {
                        identifier: collection_id,
                        timestamp: Some(timestamp),
                        name: Some(name),
                        recipe_ids: recipe_ids,
                        collection_settings: Some(
                            PbRecipeCollectionSettingsView {
                                recipes_sort_order: Some(0),
                                show_only_recipes_with_no_collection: Some(false),
                                ..PbRecipeCollectionSettingsView::blank()
                            },
                        ),
                        ..PbRecipeCollectionView::blank()
                    },
                ),
                is_new_recipe_from_web_import: Some(false),
                ..PbRecipeOperationView::blank()
            },
        ],
    }
}

/// Build an operation that sends a collection with a new selection of recipes, under
/// the given handler.
pub fn build_recipe_collection_update_operation(
    handler_id: &str,
    collection_id: &str,
    name: &str,
    recipe_ids: Vec<String>,
    timestamp: Double,
    operation_id: &str,
    user_id: &str,
) -> (list: PbRecipeOperationList)
    ensures
        list.deep_view() == recipe_collection_update_operation(
            handler_id@,
            collection_id@,
            name@,
            recipe_ids.deep_view(),
            timestamp,
            operation_id@,
            user_id@,
        ),
{
    let list = PbRecipeOperationList {
        operations: vec![
            PbRecipeOperation {
                metadata: Some(
                    PbOperationMetadata {
                        operation_id: Some(operation_id.to_owned()),
                        handler_id: Some(handler_id.to_owned()),
                        user_id: Some(user_id.to_owned()),
                        operation_class: Some(OperationClass::UndefinedOperation.to_i32()),
                    },
                ),
                recipe_collection: Some(
                    PbRecipeCollection {
                        identifier: collection_id.to_owned(),
                        timestamp: Some(timestamp),
                        name: Some(name.to_owned()),
                        recipe_ids: recipe_ids,
                        collection_settings: Some(
                            PbRecipeCollectionSettings {
                                recipes_sort_order: Some(0),
                                show_only_recipes_with_no_collection: Some(false),
                                ..PbRecipeCollectionSettings::default()
                            },
                        ),
                        ..PbRecipeCollection::default()
                    },
                ),
                is_new_recipe_from_web_import: Some(false),
                ..PbRecipeOperation::default()
            },
        ],
    };
    list
}

/// The collection that a protobuf collection stands for, if it has a name.
pub open spec fn collection_of(collection: PbRecipeCollectionView) -> Option<RecipeCollectionView> {
    match collection.name {
        Some(name) => Some(
            RecipeCollectionView {
                id: collection.identifier,
                name,
                recipe_ids: collection.recipe_ids,
            },
        ),
        None => None,
    }
}

/// The collections of a response: its collections that have a name, in their order;
/// none where there is no response.
pub open spec fn collections_of(response: Option<PbRecipeDataResponseView>) -> Seq<
    RecipeCollectionView,
> {
    match response {
        Some(r) => filter_map(
            r.recipe_collections,
            |collection: PbRecipeCollectionView| collection_of(collection),
        ),
        None => Seq::empty(),
    }
}

/// Read the recipe collections out of a response.
pub fn recipe_collections_from_response(response: Option<&PbRecipeDataResponse>) -> (collections:
    Vec<RecipeCollection>)
    ensures
        collections.deep_view() == collections_of(response.deep_view()),
{
    let mut collections: Vec<RecipeCollection> = Vec::new();
    let r = match response {
        Some(r) => r,
        None => {
            return collections;
        },
    };
    let ghost f = |collection: PbRecipeCollectionView| collection_of(collection);
    let ghost all = r.recipe_collections.deep_view();
    let mut i: usize = 0;
    while i < r.recipe_collections.len()
        invariant
            i <= r.recipe_collections.len(),
            all == r.recipe_collections.deep_view(),
            f == |collection: PbRecipeCollectionView| collection_of(collection),
            collections.deep_view() == filter_map(all.take(i as int), f),
        decreases r.recipe_collections.len() - i,
    {
        let collection = &r.recipe_collections[i];
        proof {
            lemma_filter_map_step(all, f, i as int);
        }
        if let Some(name) = &collection.name {
            let converted = RecipeCollection {
                id: collection.identifier.clone(),
                name: name.clone(),
                recipe_ids: clone_strings(&collection.recipe_ids),
            };
            collections.push(converted);
        }
        i += 1;
    }
    proof {
        lemma_filter_map_ends(all, f);
    }
    collections
}

/// Position of the first collection with the given ID, if there is one.
pub open spec fn collection_with_id(
    collections: Seq<RecipeCollectionView>,
    id: Seq<char>,
) -> Option<
    int,
> {
    position_of(collections.map_values(|c: RecipeCollectionView| c.id), id)
}

/// The words that report a collection not found by its ID.
pub open spec fn collection_not_found(id: Seq<char>) -> Seq<char> {
    "Collection with ID "@ + id + " not found"@
}

/// Pick the collection with the given ID: the first one, if several have it.
pub fn find_collection<'a>(collections: &'a Vec<RecipeCollection>, collection_id: &str) -> (found:
    Result<&'a RecipeCollection, AnyListError>)
    ensures
        match collection_with_id(collections.deep_view(), collection_id@) {
            Some(i) => found matches Ok(c) && c.deep_view() == collections.deep_view()[i],
            None => found matches Err(AnyListError::NotFound(msg)) && msg@ == collection_not_found(
                collection_id@,
            ),
        },
{
    let ghost all = collections.deep_view();
    let ghost ids = all.map_values(|c: RecipeCollectionView| c.id);
    let mut i: usize = 0;
    while i < collections.len()
        invariant
            i <= collections.len(),
            all == collections.deep_view(),
            ids == all.map_values(|c: RecipeCollectionView| c.id),
            first_equal_from(ids, collection_id@, 0) == first_equal_from(
                ids,
                collection_id@,
                i as int,
            ),
        decreases collections.len() - i,
    {
        let collection = &collections[i];
        if str_eq(collection.id.as_str(), collection_id) {
            return Ok(collection);
        }
        i += 1;
    }
    Err(
        AnyListError::NotFound(
            "Collection with ID ".to_owned().concat(collection_id).concat(" not found"),
        ),
    )
}

/// A selection of recipes with one more recipe in it: added at the end, unless it
/// is in the selection already.
pub open spec fn with_recipe(recipe_ids: Seq<Seq<char>>, recipe_id: Seq<char>) -> Seq<Seq<char>> {
    if recipe_ids.contains(recipe_id) {
        recipe_ids
    } else {
        recipe_ids.push(recipe_id)
    }
}

/// Build the operation that adds a recipe to a collection. A recipe that is in the
/// collection already is not added a second time.
pub fn build_add_recipe_to_collection_operation(
    collection: &RecipeCollection,
    recipe_id: &str,
    timestamp: Double,
    operation_id: &str,
    user_id: &str,
) -> (list: PbRecipeOperationList)
    ensures
        list.deep_view() == recipe_collection_update_operation(
            "add-recipes-to-collection"@,
            collection.deep_view().id,
            collection.deep_view().name,
            with_recipe(collection.deep_view().recipe_ids, recipe_id@),
            timestamp,
            operation_id@,
            user_id@,
        ),
{
    let mut new_recipe_ids = clone_strings(&collection.recipe_ids);
    if !contains_str(&new_recipe_ids, recipe_id) {
        let ghost before = new_recipe_ids.deep_view();
        new_recipe_ids.push(recipe_id.to_owned());
        assert(new_recipe_ids.deep_view() =~= before.push(recipe_id@));
    }
    build_recipe_collection_update_operation(
        "add-recipes-to-collection",
        collection.id.as_str(),
        collection.name.as_str(),
        new_recipe_ids,
        timestamp,
        operation_id,
        user_id,
    )
}

/// Build the operation that removes a recipe from a collection, wherever it occurs
/// in it.
pub fn build_remove_recipe_from_collection_operation(
    collection: &RecipeCollection,
    recipe_id: &str,
    timestamp: Double,
    operation_id: &str,
    user_id: &str,
) -> (list: PbRecipeOperationList)
    ensures
        list.deep_view() == recipe_collection_update_operation(
            "remove-recipes-from-collection"@,
            collection.deep_view().id,
            collection.deep_view().name,
            without(collection.deep_view().recipe_ids, recipe_id@),
            timestamp,
            operation_id@,
            user_id@,
        ),
{
    let new_recipe_ids = without_str(&collection.recipe_ids, recipe_id);
    build_recipe_collection_update_operation(
        "remove-recipes-from-collection",
        collection.id.as_str(),
        collection.name.as_str(),
        new_recipe_ids,
        timestamp,
        operation_id,
        user_id,
    )
}

/// The collection that `build_create_recipe_collection_operation` asks the service
/// to create, as the application sees it.
pub fn new_recipe_collection(collection_id: &str, name: &str) -> (collection: RecipeCollection)
    ensures
        collection.deep_view() == (RecipeCollectionView {
            id: collection_id@,
            name: name@,
            recipe_ids: Seq::empty(),
        }),
{
    let collection = RecipeCollection {
        id: collection_id.to_owned(),
        name: name.to_owned(),
        recipe_ids: Vec::new(),
    };
    collection
}

} // verus!
