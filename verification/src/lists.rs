//! Shopping lists as the application sees them, and how they are read out of the
//! service's responses.

use crate::error::AnyListError;
use crate::protobuf::anylist::{
    ListItem as PbListItem, ListItemView as PbListItemView, PbEmailUserIdPair,
    PbEmailUserIdPairView, ShoppingListView, ShoppingListsResponse,
    ShoppingListsResponseView,
};
use crate::sequences::{
    filter_map, first_equal_from, lemma_filter_map_ends, lemma_filter_map_step, position_of,
};
use crate::text::{clone_opt, str_eq};
use vstd::prelude::*;
use vstd::string::StringExecFns;

verus! {

/// User information for list collaborators.
#[derive(Debug, Clone)]
pub struct UserInfo {
    pub user_id: String,
    pub email: Option<String>,
    pub full_name: Option<String>,
}

/// The mathematical value of an [`UserInfo`].
#[verifier::ext_equal]
pub ghost struct UserInfoView {
    pub user_id: Seq<char>,
    pub email: Option<Seq<char>>,
    pub full_name: Option<Seq<char>>,
}

impl DeepView for UserInfo {
    type V = UserInfoView;

    open spec fn deep_view(&self) -> UserInfoView {
        UserInfoView {
            user_id: self.user_id.deep_view(),
            email: self.email.deep_view(),
            full_name: self.full_name.deep_view(),
        }
    }
}

/// Represents a shopping list item.
#[derive(Debug, Clone)]
pub struct ListItem {
    pub id: String,
    pub list_id: String,
    pub name: String,
    pub details: String,
    pub is_checked: bool,
    pub quantity: Option<String>,
    pub category: Option<String>,
    pub user_id: Option<String>,
}

/// The mathematical value of a [`ListItem`].
#[verifier::ext_equal]
pub ghost struct ListItemView {
    pub id: Seq<char>,
    pub list_id: Seq<char>,
    pub name: Seq<char>,
    pub details: Seq<char>,
    pub is_checked: bool,
    pub quantity: Option<Seq<char>>,
    pub category: Option<Seq<char>>,
    pub user_id: Option<Seq<char>>,
}

impl DeepView for ListItem {
    type V = ListItemView;

    open spec fn deep_view(&self) -> ListItemView {
        ListItemView {
            id: self.id.deep_view(),
            list_id: self.list_id.deep_view(),
            name: self.name.deep_view(),
            details: self.details.deep_view(),
            is_checked: self.is_checked.deep_view(),
            quantity: self.quantity.deep_view(),
            category: self.category.deep_view(),
            user_id: self.user_id.deep_view(),
        }
    }
}

/// Represents a shopping list.
#[derive(Debug, Clone)]
pub struct List {
    pub id: String,
    pub name: String,
    pub items: Vec<ListItem>,
    pub shared_users: Vec<UserInfo>,
}

/// The mathematical value of a [`List`].
#[verifier::ext_equal]
pub ghost struct ListView {
    pub id: Seq<char>,
    pub name: Seq<char>,
    pub items: Seq<ListItemView>,
    pub shared_users: Seq<UserInfoView>,
}

impl DeepView for List {
    type V = ListView;

    open spec fn deep_view(&self) -> ListView {
        ListView {
            id: self.id.deep_view(),
            name: self.name.deep_view(),
            items: self.items.deep_view(),
            shared_users: self.shared_users.deep_view(),
        }
    }
}

/// The list item that a protobuf item stands for, if it has a name and a list.
pub open spec fn list_item_of(item: PbListItemView) -> Option<ListItemView> {
    match (item.name, item.list_id) {
        (Some(name), Some(list_id)) => Some(
            ListItemView {
                id: item.identifier,
                list_id,
                name,
                details: match item.details {
                    Some(details) => details,
                    None => Seq::empty(),
                },
                is_checked: match item.checked {
                    Some(checked) => checked,
                    None => false,
                },
                quantity: item.quantity,
                category: item.category,
                user_id: item.user_id,
            },
        ),
        _ => None,
    }
}

/// The collaborator that an email and user-ID pair stands for.
pub open spec fn user_info_of(user: PbEmailUserIdPairView) -> UserInfoView {
    UserInfoView {
        user_id: match user.user_id {
            Some(user_id) => user_id,
            None => Seq::empty(),
        },
        email: user.email,
        full_name: user.full_name,
    }
}

/// The list that a protobuf list stands for, if it has a name.
pub open spec fn list_of(list: ShoppingListView) -> Option<ListView> {
    match list.name {
        Some(name) => Some(
            ListView {
                id: list.identifier,
                name,
                items: filter_map(list.items, |item: PbListItemView| list_item_of(item)),
                shared_users: list.shared_users.map_values(
                    |user: PbEmailUserIdPairView| user_info_of(user),
                ),
            },
        ),
        None => None,
    }
}

/// The lists of a response: its new lists that have a name, in their order.
pub open spec fn lists_of(response: ShoppingListsResponseView) -> Seq<ListView> {
    filter_map(response.new_lists, |list: ShoppingListView| list_of(list))
}

/// The words that report a list not found by its ID.
pub open spec fn list_id_not_found(list_id: Seq<char>) -> Seq<char> {
    "List with ID "@ + list_id + " not found"@
}

/// The words that report a list not found by its name.
pub open spec fn list_name_not_found(name: Seq<char>) -> Seq<char> {
    "List with name '"@ + name + "' not found"@
}

/// Transform protobuf items to list items; items without a name or a list are left
/// out, missing details read as empty and a missing check mark as unchecked.
pub fn transform_api_list_item(items: Vec<PbListItem>) -> (result: Vec<ListItem>)
    ensures
        result.deep_view() == filter_map(
            items.deep_view(),
            |item: PbListItemView| list_item_of(item),
        ),
{
    let slice = items.as_slice();
    list_items_from(slice)
}

/// The list items that a run of protobuf items stands for.
fn list_items_from(items: &[PbListItem]) -> (result: Vec<ListItem>)
    ensures
        result.deep_view() == filter_map(
            items.deep_view(),
            |item: PbListItemView| list_item_of(item),
        ),
{
    let ghost f = |item: PbListItemView| list_item_of(item);
    let mut result: Vec<ListItem> = Vec::new();
    let mut i: usize = 0;
    while i < items.len()
        invariant
            i <= items.len(),
            f == |item: PbListItemView| list_item_of(item),
            result.deep_view() == filter_map(items.deep_view().take(i as int), f),
        decreases items.len() - i,
    {
        let item = &items[i];
        proof {
            lemma_filter_map_step(items.deep_view(), f, i as int);
        }
        if let (Some(name), Some(list_id)) = (&item.name, &item.list_id) {
            let details = match &item.details {
                Some(details) => details.clone(),
                None => String::new(),
            };
            let is_checked = match item.checked {
                Some(checked) => checked,
                None => false,
            };
            let converted = ListItem {
                id: item.identifier.clone(),
                list_id: list_id.clone(),
                name: name.clone(),
                details,
                is_checked,
                quantity: clone_opt(&item.quantity),
                category: clone_opt(&item.category),
                user_id: clone_opt(&item.user_id),
            };
            result.push(converted);
        }
        i += 1;
    }
    proof {
        lemma_filter_map_ends(items.deep_view(), f);
    }
    result
}

/// Transform email and user-ID pairs to collaborators, one for each pair.
pub fn transform_shared_users(users: Vec<PbEmailUserIdPair>) -> (result: Vec<UserInfo>)
    ensures
        result.deep_view() == users.deep_view().map_values(
            |user: PbEmailUserIdPairView| user_info_of(user),
        ),
{
    let slice = users.as_slice();
    user_infos_from(slice)
}

/// The collaborators that a run of email and user-ID pairs stands for.
fn user_infos_from(users: &[PbEmailUserIdPair]) -> (result: Vec<UserInfo>)
    ensures
        result.deep_view() == users.deep_view().map_values(
            |user: PbEmailUserIdPairView| user_info_of(user),
        ),
{
    let mut result: Vec<UserInfo> = Vec::new();
    let mut i: usize = 0;
    while i < users.len()
        invariant
            i <= users.len(),
            result.len() == i,
            forall|k: int|
                0 <= k < i ==> (#[trigger] result[k]).deep_view() == user_info_of(
                    users[k].deep_view(),
                ),
        decreases users.len() - i,
    {
        let user = &users[i];
        let user_id = match &user.user_id {
            Some(user_id) => user_id.clone(),
            None => String::new(),
        };
        result.push(
            UserInfo {
                user_id,
                email: clone_opt(&user.email),
                full_name: clone_opt(&user.full_name),
            },
        );
        i += 1;
    }
    result
}

/// Read the shopping lists out of a response.
pub fn lists_from_response(response: ShoppingListsResponse) -> (lists: Vec<List>)
    ensures
        lists.deep_view() == lists_of(response.deep_view()),
{
    lists_in(&response)
}

/// Read the shopping lists out of the user data: those of its shopping-lists
/// response, and none where it has no such response.
pub fn lists_from_user_data(response: Option<&ShoppingListsResponse>) -> (lists: Vec<List>)
    ensures
        lists.deep_view() == match response.deep_view() {
            Some(r) => lists_of(r),
            None => Seq::empty(),
        },
{
    match response {
        Some(r) => lists_in(r),
        None => {
            let lists: Vec<List> = Vec::new();
            lists
        },
    }
}

/// The shopping lists that a response holds.
fn lists_in(response: &ShoppingListsResponse) -> (lists: Vec<List>)
    ensures
        lists.deep_view() == lists_of(response.deep_view()),
{
    let ghost f = |list: ShoppingListView| list_of(list);
    let ghost all = response.deep_view().new_lists;
    let mut lists: Vec<List> = Vec::new();
    let mut i: usize = 0;
    while i < response.new_lists.len()
        invariant
            i <= response.new_lists.len(),
            response.new_lists.deep_view() == all,
            all == response.deep_view().new_lists,
            f == |list: ShoppingListView| list_of(list),
            lists.deep_view() == filter_map(all.take(i as int), f),
        decreases response.new_lists.len() - i,
    {
        let list = &response.new_lists[i];
        proof {
            lemma_filter_map_step(all, f, i as int);
        }
        if let Some(name) = &list.name {
            let items = list.items.as_slice();
            let users = list.shared_users.as_slice();
            let converted = List {
                id: list.identifier.clone(),
                name: name.clone(),
                items: list_items_from(items),
                shared_users: user_infos_from(users),
            };
            lists.push(converted);
        }
        i += 1;
    }
    proof {
        lemma_filter_map_ends(all, f);
    }
    lists
}

/// Position of the first list with the given ID, if there is one.
pub open spec fn list_with_id(lists: Seq<ListView>, list_id: Seq<char>) -> Option<int> {
    position_of(lists.map_values(|list: ListView| list.id), list_id)
}

/// Position of the first list with the given name, if there is one.
pub open spec fn list_with_name(lists: Seq<ListView>, name: Seq<char>) -> Option<int> {
    position_of(lists.map_values(|list: ListView| list.name), name)
}

/// Pick the list with the given ID: the first one, if several have it.
pub fn find_list_by_id(lists: Vec<List>, list_id: &str) -> (found: Result<List, AnyListError>)
    ensures
        match list_with_id(lists.deep_view(), list_id@) {
            Some(i) => found matches Ok(list) && list.deep_view() == lists.deep_view()[i],
            None => found matches Err(AnyListError::NotFound(msg)) && msg@ == list_id_not_found(
                list_id@,
            ),
        },
{
    let ghost all = lists.deep_view();
    let ghost ids = all.map_values(|list: ListView| list.id);
    let mut rest = lists;
    let mut i: usize = 0;
    while i < rest.len()
        invariant
            i <= rest.len(),
            rest.deep_view() == all,
            all == lists.deep_view(),
            ids == all.map_values(|list: ListView| list.id),
            first_equal_from(ids, list_id@, 0) == first_equal_from(ids, list_id@, i as int),
        decreases rest.len() - i,
    {
        if str_eq(rest[i].id.as_str(), list_id) {
            let list = rest.remove(i);
            return Ok(list);
        }
        i += 1;
    }
    Err(
        AnyListError::NotFound(
            "List with ID ".to_owned().concat(list_id).concat(" not found"),
        ),
    )
}

/// Pick the list with the given name: the first one, if several have it.
pub fn find_list_by_name(lists: Vec<List>, name: &str) -> (found: Result<List, AnyListError>)
    ensures
        match list_with_name(lists.deep_view(), name@) {
            Some(i) => found matches Ok(list) && list.deep_view() == lists.deep_view()[i],
            None => found matches Err(AnyListError::NotFound(msg)) && msg@ == list_name_not_found(
                name@,
            ),
        },
{
    let ghost all = lists.deep_view();
    let ghost names = all.map_values(|list: ListView| list.name);
    let mut rest = lists;
    let mut i: usize = 0;
    while i < rest.len()
        invariant
            i <= rest.len(),
            rest.deep_view() == all,
            all == lists.deep_view(),
            names == all.map_values(|list: ListView| list.name),
            first_equal_from(names, name@, 0) == first_equal_from(names, name@, i as int),
        decreases rest.len() - i,
    {
        if str_eq(rest[i].name.as_str(), name) {
            let list = rest.remove(i);
            return Ok(list);
        }
        i += 1;
    }
    Err(
        AnyListError::NotFound(
            "List with name '".to_owned().concat(name).concat("' not found"),
        ),
    )
}

} // verus!
