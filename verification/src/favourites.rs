//! Favourite items: the starter lists from which shopping lists are filled quickly.

use crate::protobuf::anylist::{
    ListItem, ListItemView, StarterListBatchResponse, StarterListBatchResponseView,
    StarterListView, StarterListsResponseV2, StarterListsResponseV2View,
};
use crate::error::AnyListError;
use crate::sequences::{first_equal_from, position_of};
use crate::text::{clone_opt, str_eq};
use vstd::prelude::*;
use vstd::string::StringExecFns;

verus! {

/// Represents a favourite item that can be quickly added to shopping lists.
#[derive(Debug, Clone)]
pub struct FavouriteItem {
    pub id: String,
    pub list_id: String,
    pub name: String,
    pub quantity: Option<String>,
    pub details: Option<String>,
    pub category: Option<String>,
}

/// The mathematical value of a [`FavouriteItem`].
#[verifier::ext_equal]
pub ghost struct FavouriteItemView {
    pub id: Seq<char>,
    pub list_id: Seq<char>,
    pub name: Seq<char>,
    pub quantity: Option<Seq<char>>,
    pub details: Option<Seq<char>>,
    pub category: Option<Seq<char>>,
}

impl DeepView for FavouriteItem {
    type V = FavouriteItemView;

    open spec fn deep_view(&self) -> FavouriteItemView {
        FavouriteItemView {
            id: self.id.deep_view(),
            list_id: self.list_id.deep_view(),
            name: self.name.deep_view(),
            quantity: self.quantity.deep_view(),
            details: self.details.deep_view(),
            category: self.category.deep_view(),
        }
    }
}

/// Represents a favourites list (starter list).
#[derive(Debug, Clone)]
pub struct FavouritesList {
    pub id: String,
    pub name: String,
    pub items: Vec<FavouriteItem>,
    /// Associated shopping list ID (if linked to a specific list).
    pub shopping_list_id: Option<String>,
}

/// The mathematical value of a [`FavouritesList`].
#[verifier::ext_equal]
pub ghost struct FavouritesListView {
    pub id: Seq<char>,
    pub name: Seq<char>,
    pub items: Seq<FavouriteItemView>,
    pub shopping_list_id: Option<Seq<char>>,
}

impl DeepView for FavouritesList {
    type V = FavouritesListView;

    open spec fn deep_view(&self) -> FavouritesListView {
        FavouritesListView {
            id: self.id.deep_view(),
            name: self.name.deep_view(),
            items: self.items.deep_view(),
            shopping_list_id: self.shopping_list_id.deep_view(),
        }
    }
}

/// The favourite that a list item stands for, if it has a name.
pub open spec fn favourite_of(item: ListItemView, list_id: Seq<char>) -> Option<FavouriteItemView> {
    match item.name {
        Some(name) => Some(
            FavouriteItemView {
                id: item.identifier,
                list_id,
                name,
                quantity: item.quantity,
                details: item.details,
                category: item.category,
            },
        ),
        None => None,
    }
}

/// The favourites among a run of list items: the named ones, in their order.
pub open spec fn favourites_of(items: Seq<ListItemView>, list_id: Seq<char>) -> Seq<
    FavouriteItemView,
>
    decreases items.len(),
{
    if items.len() == 0 {
        Seq::empty()
    } else {
        let earlier = favourites_of(items.drop_last(), list_id);
        match favourite_of(items.last(), list_id) {
            Some(favourite) => earlier.push(favourite),
            None => earlier,
        }
    }
}

/// The favourites list that a starter list stands for.
pub open spec fn favourites_list_of(list: StarterListView) -> FavouritesListView {
    FavouritesListView {
        id: list.identifier,
        name: match list.name {
            Some(name) => name,
            None => Seq::empty(),
        },
        items: favourites_of(list.items, list.identifier),
        shopping_list_id: list.list_id,
    }
}

/// The favourites lists of a batch response: one for each response that carries a
/// starter list, in their order.
pub open spec fn favourites_lists_of(batch: StarterListBatchResponseView) -> Seq<
    FavouritesListView,
> {
    favourites_lists_upto(batch, batch.list_responses.len())
}

/// The favourites lists of the first `n` responses of a batch.
pub open spec fn favourites_lists_upto(batch: StarterListBatchResponseView, n: nat) -> Seq<
    FavouritesListView,
>
    decreases n,
{
    if n == 0 || n > batch.list_responses.len() {
        Seq::empty()
    } else {
        let earlier = favourites_lists_upto(batch, (n - 1) as nat);
        match batch.list_responses[n - 1].starter_list {
            Some(list) => earlier.push(favourites_list_of(list)),
            None => earlier,
        }
    }
}

/// Transform protobuf items to favourite items; items without a name are left out.
pub fn transform_favourite_items(items: &[ListItem], list_id: &str) -> (favourites: Vec<
    FavouriteItem,
>)
    ensures
        favourites.deep_view() == favourites_of(items.deep_view(), list_id@),
{
    let mut favourites: Vec<FavouriteItem> = Vec::new();
    let mut i: usize = 0;
    while i < items.len()
        invariant
            i <= items.len(),
            favourites.deep_view() == favourites_of(items.deep_view().take(i as int), list_id@),
        decreases items.len() - i,
    {
        let item = &items[i];
        proof {
            let prefix = items.deep_view().take(i + 1);
            assert(prefix.drop_last() =~= items.deep_view().take(i as int));
        }
        if let Some(name) = &item.name {
            let favourite = FavouriteItem {
                id: item.identifier.clone(),
                list_id: list_id.to_owned(),
                name: name.clone(),
                quantity: clone_opt(&item.quantity),
                details: clone_opt(&item.details),
                category: clone_opt(&item.category),
            };
            favourites.push(favourite);
        }
        i += 1;
    }
    assert(items.deep_view().take(items.len() as int) =~= items.deep_view());
    favourites
}

/// Convert a batch response to the favourites lists it holds.
pub fn favourites_lists_from_batch_response(batch: &StarterListBatchResponse) -> (lists: Vec<
    FavouritesList,
>)
    ensures
        lists.deep_view() == favourites_lists_of(batch.deep_view()),
{
    let mut lists: Vec<FavouritesList> = Vec::new();
    let mut i: usize = 0;
    while i < batch.list_responses.len()
        invariant
            i <= batch.list_responses.len(),
            lists.deep_view() == favourites_lists_upto(batch.deep_view(), i as nat),
        decreases batch.list_responses.len() - i,
    {
        let response = &batch.list_responses[i];
        if let Some(list) = &response.starter_list {
            let name = match &list.name {
                Some(name) => name.clone(),
                None => String::new(),
            };
            let items = list.items.as_slice();
            let favourites_list = FavouritesList {
                id: list.identifier.clone(),
                name,
                items: transform_favourite_items(items, list.identifier.as_str()),
                shopping_list_id: clone_opt(&list.list_id),
            };
            lists.push(favourites_list);
        }
        i += 1;
    }
    lists
}

/// The favourites lists of the user data: those of the favourite-items batch of
/// its starter-lists response, and none where either is missing.
pub open spec fn favourites_lists_of_user_data(response: Option<StarterListsResponseV2View>) -> Seq<
    FavouritesListView,
> {
    match response {
        Some(r) => match r.favorite_item_lists_response {
            Some(batch) => favourites_lists_of(batch),
            None => Seq::empty(),
        },
        None => Seq::empty(),
    }
}

/// Read the favourites lists out of the user data.
pub fn favourites_lists_from_user_data(response: Option<&StarterListsResponseV2>) -> (lists: Vec<
    FavouritesList,
>)
    ensures
        lists.deep_view() == favourites_lists_of_user_data(response.deep_view()),
{
    let batch = match response {
        Some(r) => match &r.favorite_item_lists_response {
            Some(batch) => Some(batch),
            None => None,
        },
        None => None,
    };
    match batch {
        Some(batch) => favourites_lists_from_batch_response(batch),
        None => {
            let lists: Vec<FavouritesList> = Vec::new();
            lists
        },
    }
}

/// The favourite items of a run of favourites lists, list after list.
pub open spec fn all_favourites_of(lists: Seq<FavouritesListView>) -> Seq<FavouriteItemView>
    decreases lists.len(),
{
    if lists.len() == 0 {
        Seq::empty()
    } else {
        all_favourites_of(lists.drop_last()) + lists.last().items
    }
}

/// A copy of a favourite item.
fn clone_favourite(item: &FavouriteItem) -> (copy: FavouriteItem)
    ensures
        copy.deep_view() == item.deep_view(),
{
    FavouriteItem {
        id: item.id.clone(),
        list_id: item.list_id.clone(),
        name: item.name.clone(),
        quantity: clone_opt(&item.quantity),
        details: clone_opt(&item.details),
        category: clone_opt(&item.category),
    }
}

/// Collect the favourite items of all favourites lists, list after list.
pub fn all_favourites(lists: &Vec<FavouritesList>) -> (items: Vec<FavouriteItem>)
    ensures
        items.deep_view() == all_favourites_of(lists.deep_view()),
{
    let ghost all = lists.deep_view();
    let mut items: Vec<FavouriteItem> = Vec::new();
    let mut i: usize = 0;
    while i < lists.len()
        invariant
            i <= lists.len(),
            all == lists.deep_view(),
            items.deep_view() == all_favourites_of(all.take(i as int)),
        decreases lists.len() - i,
    {
        let list = &lists[i];
        let ghost before = items.deep_view();
        let ghost own = list.items.deep_view();
        proof {
            assert(all.take(i + 1).drop_last() =~= all.take(i as int));
        }
        let mut j: usize = 0;
        while j < list.items.len()
            invariant
                j <= list.items.len(),
                own == list.items.deep_view(),
                items.deep_view() == before + own.take(j as int),
            decreases list.items.len() - j,
        {
            let copy = clone_favourite(&list.items[j]);
            items.push(copy);
            assert(before + own.take(j + 1) =~= (before + own.take(j as int)).push(own[j as int]));
            j += 1;
        }
        i += 1;
    }
    assert(all.take(all.len() as int) =~= all);
    items
}

/// Position of the first favourites list that belongs to the given shopping list,
/// if there is one.
pub open spec fn favourites_list_for(
    lists: Seq<FavouritesListView>,
    shopping_list_id: Seq<char>,
) -> Option<
    int,
> {
    position_of(
        lists.map_values(|list: FavouritesListView| list.shopping_list_id),
        Some(shopping_list_id),
    )
}

/// The words that report that a shopping list has no favourites list.
pub open spec fn no_favourites_for(shopping_list_id: Seq<char>) -> Seq<char> {
    "No favourites list for shopping list "@ + shopping_list_id
}

/// Pick the favourites list that belongs to a shopping list: the first one, if
/// several do.
pub fn find_favourites_for_list(lists: Vec<FavouritesList>, shopping_list_id: &str) -> (found:
    Result<FavouritesList, AnyListError>)
    ensures
        match favourites_list_for(lists.deep_view(), shopping_list_id@) {
            Some(i) => found matches Ok(list) && list.deep_view() == lists.deep_view()[i],
            None => found matches Err(AnyListError::NotFound(msg)) && msg@ == no_favourites_for(
                shopping_list_id@,
            ),
        },
{
    let ghost all = lists.deep_view();
    let ghost ids = all.map_values(|list: FavouritesListView| list.shopping_list_id);
    let mut rest = lists;
    let mut i: usize = 0;
    while i < rest.len()
        invariant
            i <= rest.len(),
            rest.deep_view() == all,
            all == lists.deep_view(),
            ids == all.map_values(|list: FavouritesListView| list.shopping_list_id),
            first_equal_from(ids, Some(shopping_list_id@), 0) == first_equal_from(
                ids,
                Some(shopping_list_id@),
                i as int,
            ),
        decreases rest.len() - i,
    {
        let matches = match &rest[i].shopping_list_id {
            Some(id) => str_eq(id.as_str(), shopping_list_id),
            None => false,
        };
        if matches {
            let list = rest.remove(i);
            return Ok(list);
        }
        i += 1;
    }
    Err(
        AnyListError::NotFound(
            "No favourites list for shopping list ".to_owned().concat(shopping_list_id),
        ),
    )
}

/// Pick the favourites list that new favourites go to: the first one. Fails when
/// there is none.
pub fn default_favourites_list(lists: &Vec<FavouritesList>) -> (found: Result<
    &FavouritesList,
    AnyListError,
>)
    ensures
        lists.len() > 0 ==> (found matches Ok(list) && list.deep_view() == lists.deep_view()[0]),
        lists.len() == 0 ==> (found matches Err(AnyListError::NotFound(msg)) && msg@
            == "No favourites list found"@),
{
    if lists.len() > 0 {
        Ok(&lists[0])
    } else {
        Err(AnyListError::NotFound("No favourites list found".to_owned()))
    }
}

} // verus!
