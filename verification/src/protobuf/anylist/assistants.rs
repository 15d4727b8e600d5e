//! Voice-assistant integrations.

use vstd::prelude::*;

verus! {

/// The `PbAlexaUser` message: alexa user.
#[derive(Clone, PartialEq, Debug)]
pub struct PbAlexaUser {
    pub identifier: Option<String>,
    pub alexa_user_id: Option<String>,
    pub anylist_user_id: Option<String>,
    pub has_list_read_permission: Option<bool>,
    pub has_list_write_permission: Option<bool>,
    pub is_skill_enabled: Option<bool>,
    pub account_linked_timestamp: Option<String>,
    pub skill_enabled_timestamp: Option<String>,
    pub skill_permission_timestamp: Option<String>,
    pub alexa_api_endpoint: Option<String>,
}

/// The mathematical value of a [`PbAlexaUser`].
#[verifier::ext_equal]
pub ghost struct PbAlexaUserView {
    pub identifier: Option<Seq<char>>,
    pub alexa_user_id: Option<Seq<char>>,
    pub anylist_user_id: Option<Seq<char>>,
    pub has_list_read_permission: Option<bool>,
    pub has_list_write_permission: Option<bool>,
    pub is_skill_enabled: Option<bool>,
    pub account_linked_timestamp: Option<Seq<char>>,
    pub skill_enabled_timestamp: Option<Seq<char>>,
    pub skill_permission_timestamp: Option<Seq<char>>,
    pub alexa_api_endpoint: Option<Seq<char>>,
}

impl PbAlexaUserView {
    /// The message with no field set.
    pub open spec fn blank() -> PbAlexaUserView {
        PbAlexaUserView {
            identifier: None,
            alexa_user_id: None,
            anylist_user_id: None,
            has_list_read_permission: None,
            has_list_write_permission: None,
            is_skill_enabled: None,
            account_linked_timestamp: None,
            skill_enabled_timestamp: None,
            skill_permission_timestamp: None,
            alexa_api_endpoint: None,
        }
    }
}

impl DeepView for PbAlexaUser {
    type V = PbAlexaUserView;

    open spec fn deep_view(&self) -> PbAlexaUserView {
        PbAlexaUserView {
            identifier: self.identifier.deep_view(),
            alexa_user_id: self.alexa_user_id.deep_view(),
            anylist_user_id: self.anylist_user_id.deep_view(),
            has_list_read_permission: self.has_list_read_permission.deep_view(),
            has_list_write_permission: self.has_list_write_permission.deep_view(),
            is_skill_enabled: self.is_skill_enabled.deep_view(),
            account_linked_timestamp: self.account_linked_timestamp.deep_view(),
            skill_enabled_timestamp: self.skill_enabled_timestamp.deep_view(),
            skill_permission_timestamp: self.skill_permission_timestamp.deep_view(),
            alexa_api_endpoint: self.alexa_api_endpoint.deep_view(),
        }
    }
}

impl Default for PbAlexaUser {
    /// The message with no field set.
    fn default() -> (message: Self)
        ensures
            message.deep_view() == PbAlexaUserView::blank(),
    {
        PbAlexaUser {
            identifier: None,
            alexa_user_id: None,
            anylist_user_id: None,
            has_list_read_permission: None,
            has_list_write_permission: None,
            is_skill_enabled: None,
            account_linked_timestamp: None,
            skill_enabled_timestamp: None,
            skill_permission_timestamp: None,
            alexa_api_endpoint: None,
        }
    }
}

/// The `PbAlexaList` message: alexa list.
#[derive(Clone, PartialEq, Debug)]
pub struct PbAlexaList {
    pub identifier: Option<String>,
    pub alexa_list_id: Option<String>,
    pub anylist_list_id: Option<String>,
    pub alexa_user_id: Option<String>,
    pub name: Option<String>,
    pub items: Vec<PbAlexaListItem>,
    pub state: Option<String>,
    pub version: Option<i32>,
}

/// The mathematical value of a [`PbAlexaList`].
#[verifier::ext_equal]
pub ghost struct PbAlexaListView {
    pub identifier: Option<Seq<char>>,
    pub alexa_list_id: Option<Seq<char>>,
    pub anylist_list_id: Option<Seq<char>>,
    pub alexa_user_id: Option<Seq<char>>,
    pub name: Option<Seq<char>>,
    pub items: Seq<PbAlexaListItemView>,
    pub state: Option<Seq<char>>,
    pub version: Option<i32>,
}

impl PbAlexaListView {
    /// The message with no field set.
    pub open spec fn blank() -> PbAlexaListView {
        PbAlexaListView {
            identifier: None,
            alexa_list_id: None,
            anylist_list_id: None,
            alexa_user_id: None,
            name: None,
            items: Seq::empty(),
            state: None,
            version: None,
        }
    }
}

impl DeepView for PbAlexaList {
    type V = PbAlexaListView;

    open spec fn deep_view(&self) -> PbAlexaListView {
        PbAlexaListView {
            identifier: self.identifier.deep_view(),
            alexa_list_id: self.alexa_list_id.deep_view(),
            anylist_list_id: self.anylist_list_id.deep_view(),
            alexa_user_id: self.alexa_user_id.deep_view(),
            name: self.name.deep_view(),
            items: self.items.deep_view(),
            state: self.state.deep_view(),
            version: self.version.deep_view(),
        }
    }
}

impl Default for PbAlexaList {
    /// The message with no field set.
    fn default() -> (message: Self)
        ensures
            message.deep_view() == PbAlexaListView::blank(),
    {
        let message = PbAlexaList {
            identifier: None,
            alexa_list_id: None,
            anylist_list_id: None,
            alexa_user_id: None,
            name: None,
            items: Vec::new(),
            state: None,
            version: None,
        };
        assert(message.deep_view() =~~= PbAlexaListView::blank());
        message
    }
}

/// The `PbAlexaListItem` message: alexa list item.
#[derive(Clone, PartialEq, Debug)]
pub struct PbAlexaListItem {
    pub identifier: Option<String>,
    pub alexa_item_id: Option<String>,
    pub anylist_item_id: Option<String>,
    pub alexa_list_id: Option<String>,
    pub alexa_user_id: Option<String>,
    pub version: Option<i32>,
    pub item_value: Option<String>,
    pub status: Option<String>,
}

/// The mathematical value of a [`PbAlexaListItem`].
#[verifier::ext_equal]
pub ghost struct PbAlexaListItemView {
    pub identifier: Option<Seq<char>>,
    pub alexa_item_id: Option<Seq<char>>,
    pub anylist_item_id: Option<Seq<char>>,
    pub alexa_list_id: Option<Seq<char>>,
    pub alexa_user_id: Option<Seq<char>>,
    pub version: Option<i32>,
    pub item_value: Option<Seq<char>>,
    pub status: Option<Seq<char>>,
}

impl PbAlexaListItemView {
    /// The message with no field set.
    pub open spec fn blank() -> PbAlexaListItemView {
        PbAlexaListItemView {
            identifier: None,
            alexa_item_id: None,
            anylist_item_id: None,
            alexa_list_id: None,
            alexa_user_id: None,
            version: None,
            item_value: None,
            status: None,
        }
    }
}

impl DeepView for PbAlexaListItem {
    type V = PbAlexaListItemView;

    open spec fn deep_view(&self) -> PbAlexaListItemView {
        PbAlexaListItemView {
            identifier: self.identifier.deep_view(),
            alexa_item_id: self.alexa_item_id.deep_view(),
            anylist_item_id: self.anylist_item_id.deep_view(),
            alexa_list_id: self.alexa_list_id.deep_view(),
            alexa_user_id: self.alexa_user_id.deep_view(),
            version: self.version.deep_view(),
            item_value: self.item_value.deep_view(),
            status: self.status.deep_view(),
        }
    }
}

impl Default for PbAlexaListItem {
    /// The message with no field set.
    fn default() -> (message: Self)
        ensures
            message.deep_view() == PbAlexaListItemView::blank(),
    {
        PbAlexaListItem {
            identifier: None,
            alexa_item_id: None,
            anylist_item_id: None,
            alexa_list_id: None,
            alexa_user_id: None,
            version: None,
            item_value: None,
            status: None,
        }
    }
}

/// The `PbAlexaListOperation` message: alexa list operation.
#[derive(Clone, PartialEq, Debug)]
pub struct PbAlexaListOperation {
    pub identifier: Option<String>,
    pub operation_type: Option<String>,
    pub alexa_user_id: Option<String>,
    pub operation_items: Vec<PbAlexaListItem>,
    pub operation_lists: Vec<PbAlexaList>,
}

/// The mathematical value of a [`PbAlexaListOperation`].
#[verifier::ext_equal]
pub ghost struct PbAlexaListOperationView {
    pub identifier: Option<Seq<char>>,
    pub operation_type: Option<Seq<char>>,
    pub alexa_user_id: Option<Seq<char>>,
    pub operation_items: Seq<PbAlexaListItemView>,
    pub operation_lists: Seq<PbAlexaListView>,
}

impl PbAlexaListOperationView {
    /// The message with no field set.
    pub open spec fn blank() -> PbAlexaListOperationView {
        PbAlexaListOperationView {
            identifier: None,
            operation_type: None,
            alexa_user_id: None,
            operation_items: Seq::empty(),
            operation_lists: Seq::empty(),
        }
    }
}

impl DeepView for PbAlexaListOperation {
    type V = PbAlexaListOperationView;

    open spec fn deep_view(&self) -> PbAlexaListOperationView {
        PbAlexaListOperationView {
            identifier: self.identifier.deep_view(),
            operation_type: self.operation_type.deep_view(),
            alexa_user_id: self.alexa_user_id.deep_view(),
            operation_items: self.operation_items.deep_view(),
            operation_lists: self.operation_lists.deep_view(),
        }
    }
}

impl Default for PbAlexaListOperation {
    /// The message with no field set.
    fn default() -> (message: Self)
        ensures
            message.deep_view() == PbAlexaListOperationView::blank(),
    {
        let message = PbAlexaListOperation {
            identifier: None,
            operation_type: None,
            alexa_user_id: None,
            operation_items: Vec::new(),
            operation_lists: Vec::new(),
        };
        assert(message.deep_view() =~~= PbAlexaListOperationView::blank());
        message
    }
}

/// The `PbAlexaTask` message: alexa task.
#[derive(Clone, PartialEq, Debug)]
pub struct PbAlexaTask {
    pub identifier: Option<String>,
    pub alexa_user_id: Option<String>,
    pub event_json: Option<String>,
    pub list_operation: Option<PbAlexaListOperation>,
}

/// The mathematical value of a [`PbAlexaTask`].
#[verifier::ext_equal]
pub ghost struct PbAlexaTaskView {
    pub identifier: Option<Seq<char>>,
    pub alexa_user_id: Option<Seq<char>>,
    pub event_json: Option<Seq<char>>,
    pub list_operation: Option<PbAlexaListOperationView>,
}

impl PbAlexaTaskView {
    /// The message with no field set.
    pub open spec fn blank() -> PbAlexaTaskView {
        PbAlexaTaskView {
            identifier: None,
            alexa_user_id: None,
            event_json: None,
            list_operation: None,
        }
    }
}

impl DeepView for PbAlexaTask {
    type V = PbAlexaTaskView;

    open spec fn deep_view(&self) -> PbAlexaTaskView {
        PbAlexaTaskView {
            identifier: self.identifier.deep_view(),
            alexa_user_id: self.alexa_user_id.deep_view(),
            event_json: self.event_json.deep_view(),
            list_operation: self.list_operation.deep_view(),
        }
    }
}

impl Default for PbAlexaTask {
    /// The message with no field set.
    fn default() -> (message: Self)
        ensures
            message.deep_view() == PbAlexaTaskView::blank(),
    {
        PbAlexaTask {
            identifier: None,
            alexa_user_id: None,
            event_json: None,
            list_operation: None,
        }
    }
}

/// The `PbGoogleAssistantUser` message: google assistant user.
#[derive(Clone, PartialEq, Debug)]
pub struct PbGoogleAssistantUser {
    pub identifier: Option<String>,
    pub anylist_user_id: Option<String>,
    pub list_actions_api_refresh_token: Option<String>,
    pub is_google_assistant_account_linked: Option<bool>,
    pub is_active_google_assistant_provider: Option<bool>,
    pub anylist_refresh_token: Option<String>,
    pub anylist_access_token: Option<String>,
}

/// The mathematical value of a [`PbGoogleAssistantUser`].
#[verifier::ext_equal]
pub ghost struct PbGoogleAssistantUserView {
    pub identifier: Option<Seq<char>>,
    pub anylist_user_id: Option<Seq<char>>,
    pub list_actions_api_refresh_token: Option<Seq<char>>,
    pub is_google_assistant_account_linked: Option<bool>,
    pub is_active_google_assistant_provider: Option<bool>,
    pub anylist_refresh_token: Option<Seq<char>>,
    pub anylist_access_token: Option<Seq<char>>,
}

impl PbGoogleAssistantUserView {
    /// The message with no field set.
    pub open spec fn blank() -> PbGoogleAssistantUserView {
        PbGoogleAssistantUserView {
            identifier: None,
            anylist_user_id: None,
            list_actions_api_refresh_token: None,
            is_google_assistant_account_linked: None,
            is_active_google_assistant_provider: None,
            anylist_refresh_token: None,
            anylist_access_token: None,
        }
    }
}

impl DeepView for PbGoogleAssistantUser {
    type V = PbGoogleAssistantUserView;

    open spec fn deep_view(&self) -> PbGoogleAssistantUserView {
        PbGoogleAssistantUserView {
            identifier: self.identifier.deep_view(),
            anylist_user_id: self.anylist_user_id.deep_view(),
            list_actions_api_refresh_token: self.list_actions_api_refresh_token.deep_view(),
            is_google_assistant_account_linked: self.is_google_assistant_account_linked.deep_view(),
            is_active_google_assistant_provider: self.is_active_google_assistant_provider.deep_view(),
            anylist_refresh_token: self.anylist_refresh_token.deep_view(),
            anylist_access_token: self.anylist_access_token.deep_view(),
        }
    }
}

impl Default for PbGoogleAssistantUser {
    /// The message with no field set.
    fn default() -> (message: Self)
        ensures
            message.deep_view() == PbGoogleAssistantUserView::blank(),
    {
        PbGoogleAssistantUser {
            identifier: None,
            anylist_user_id: None,
            list_actions_api_refresh_token: None,
            is_google_assistant_account_linked: None,
            is_active_google_assistant_provider: None,
            anylist_refresh_token: None,
            anylist_access_token: None,
        }
    }
}

/// The `PbGoogleAssistantList` message: google assistant list.
#[derive(Clone, PartialEq, Debug)]
pub struct PbGoogleAssistantList {
    pub identifier: Option<String>,
    pub google_assistant_list_id: Option<String>,
    pub anylist_list_id: Option<String>,
    pub anylist_user_id: Option<String>,
    pub title: Option<String>,
    pub items: Vec<PbGoogleAssistantListItem>,
    pub is_archived: Option<bool>,
    pub create_time: Option<String>,
    pub update_time: Option<String>,
}

/// The mathematical value of a [`PbGoogleAssistantList`].
#[verifier::ext_equal]
pub ghost struct PbGoogleAssistantListView {
    pub identifier: Option<Seq<char>>,
    pub google_assistant_list_id: Option<Seq<char>>,
    pub anylist_list_id: Option<Seq<char>>,
    pub anylist_user_id: Option<Seq<char>>,
    pub title: Option<Seq<char>>,
    pub items: Seq<PbGoogleAssistantListItemView>,
    pub is_archived: Option<bool>,
    pub create_time: Option<Seq<char>>,
    pub update_time: Option<Seq<char>>,
}

impl PbGoogleAssistantListView {
    /// The message with no field set.
    pub open spec fn blank() -> PbGoogleAssistantListView {
        PbGoogleAssistantListView {
            identifier: None,
            google_assistant_list_id: None,
            anylist_list_id: None,
            anylist_user_id: None,
            title: None,
            items: Seq::empty(),
            is_archived: None,
            create_time: None,
            update_time: None,
        }
    }
}

impl DeepView for PbGoogleAssistantList {
    type V = PbGoogleAssistantListView;

    open spec fn deep_view(&self) -> PbGoogleAssistantListView {
        PbGoogleAssistantListView {
            identifier: self.identifier.deep_view(),
            google_assistant_list_id: self.google_assistant_list_id.deep_view(),
            anylist_list_id: self.anylist_list_id.deep_view(),
            anylist_user_id: self.anylist_user_id.deep_view(),
            title: self.title.deep_view(),
            items: self.items.deep_view(),
            is_archived: self.is_archived.deep_view(),
            create_time: self.create_time.deep_view(),
            update_time: self.update_time.deep_view(),
        }
    }
}

impl Default for PbGoogleAssistantList {
    /// The message with no field set.
    fn default() -> (message: Self)
        ensures
            message.deep_view() == PbGoogleAssistantListView::blank(),
    {
        let message = PbGoogleAssistantList {
            identifier: None,
            google_assistant_list_id: None,
            anylist_list_id: None,
            anylist_user_id: None,
            title: None,
            items: Vec::new(),
            is_archived: None,
            create_time: None,
            update_time: None,
        };
        assert(message.deep_view() =~~= PbGoogleAssistantListView::blank());
        message
    }
}

/// The `PbGoogleAssistantListItem` message: google assistant list item.
#[derive(Clone, PartialEq, Debug)]
pub struct PbGoogleAssistantListItem {
    pub identifier: Option<String>,
    pub google_assistant_item_id: Option<String>,
    pub anylist_item_id: Option<String>,
    pub google_assistant_list_id: Option<String>,
    pub anylist_user_id: Option<String>,
    pub content: Option<String>,
    pub is_checked: Option<bool>,
    pub create_time: Option<String>,
    pub update_time: Option<String>,
}

/// The mathematical value of a [`PbGoogleAssistantListItem`].
#[verifier::ext_equal]
pub ghost struct PbGoogleAssistantListItemView {
    pub identifier: Option<Seq<char>>,
    pub google_assistant_item_id: Option<Seq<char>>,
    pub anylist_item_id: Option<Seq<char>>,
    pub google_assistant_list_id: Option<Seq<char>>,
    pub anylist_user_id: Option<Seq<char>>,
    pub content: Option<Seq<char>>,
    pub is_checked: Option<bool>,
    pub create_time: Option<Seq<char>>,
    pub update_time: Option<Seq<char>>,
}

impl PbGoogleAssistantListItemView {
    /// The message with no field set.
    pub open spec fn blank() -> PbGoogleAssistantListItemView {
        PbGoogleAssistantListItemView {
            identifier: None,
            google_assistant_item_id: None,
            anylist_item_id: None,
            google_assistant_list_id: None,
            anylist_user_id: None,
            content: None,
            is_checked: None,
            create_time: None,
            update_time: None,
        }
    }
}

impl DeepView for PbGoogleAssistantListItem {
    type V = PbGoogleAssistantListItemView;

    open spec fn deep_view(&self) -> PbGoogleAssistantListItemView {
        PbGoogleAssistantListItemView {
            identifier: self.identifier.deep_view(),
            google_assistant_item_id: self.google_assistant_item_id.deep_view(),
            anylist_item_id: self.anylist_item_id.deep_view(),
            google_assistant_list_id: self.google_assistant_list_id.deep_view(),
            anylist_user_id: self.anylist_user_id.deep_view(),
            content: self.content.deep_view(),
            is_checked: self.is_checked.deep_view(),
            create_time: self.create_time.deep_view(),
            update_time: self.update_time.deep_view(),
        }
    }
}

impl Default for PbGoogleAssistantListItem {
    /// The message with no field set.
    fn default() -> (message: Self)
        ensures
            message.deep_view() == PbGoogleAssistantListItemView::blank(),
    {
        PbGoogleAssistantListItem {
            identifier: None,
            google_assistant_item_id: None,
            anylist_item_id: None,
            google_assistant_list_id: None,
            anylist_user_id: None,
            content: None,
            is_checked: None,
            create_time: None,
            update_time: None,
        }
    }
}

/// The `PbGoogleAssistantListOperation` message: google assistant list operation.
#[derive(Clone, PartialEq, Debug)]
pub struct PbGoogleAssistantListOperation {
    pub identifier: Option<String>,
    pub operation_type: Option<String>,
    pub anylist_user_id: Option<String>,
    pub operation_items: Vec<PbGoogleAssistantListItem>,
    pub operation_lists: Vec<PbGoogleAssistantList>,
}

/// The mathematical value of a [`PbGoogleAssistantListOperation`].
#[verifier::ext_equal]
pub ghost struct PbGoogleAssistantListOperationView {
    pub identifier: Option<Seq<char>>,
    pub operation_type: Option<Seq<char>>,
    pub anylist_user_id: Option<Seq<char>>,
    pub operation_items: Seq<PbGoogleAssistantListItemView>,
    pub operation_lists: Seq<PbGoogleAssistantListView>,
}

impl PbGoogleAssistantListOperationView {
    /// The message with no field set.
    pub open spec fn blank() -> PbGoogleAssistantListOperationView {
        PbGoogleAssistantListOperationView {
            identifier: None,
            operation_type: None,
            anylist_user_id: None,
            operation_items: Seq::empty(),
            operation_lists: Seq::empty(),
        }
    }
}

impl DeepView for PbGoogleAssistantListOperation {
    type V = PbGoogleAssistantListOperationView;

    open spec fn deep_view(&self) -> PbGoogleAssistantListOperationView {
        PbGoogleAssistantListOperationView {
            identifier: self.identifier.deep_view(),
            operation_type: self.operation_type.deep_view(),
            anylist_user_id: self.anylist_user_id.deep_view(),
            operation_items: self.operation_items.deep_view(),
            operation_lists: self.operation_lists.deep_view(),
        }
    }
}

impl Default for PbGoogleAssistantListOperation {
    /// The message with no field set.
    fn default() -> (message: Self)
        ensures
            message.deep_view() == PbGoogleAssistantListOperationView::blank(),
    {
        let message = PbGoogleAssistantListOperation {
            identifier: None,
            operation_type: None,
            anylist_user_id: None,
            operation_items: Vec::new(),
            operation_lists: Vec::new(),
        };
        assert(message.deep_view() =~~= PbGoogleAssistantListOperationView::blank());
        message
    }
}

/// The `PbGoogleAssistantTask` message: google assistant task.
#[derive(Clone, PartialEq, Debug)]
pub struct PbGoogleAssistantTask {
    pub identifier: Option<String>,
    pub anylist_user_id: Option<String>,
    pub list_operation: Option<PbGoogleAssistantListOperation>,
}

/// The mathematical value of a [`PbGoogleAssistantTask`].
#[verifier::ext_equal]
pub ghost struct PbGoogleAssistantTaskView {
    pub identifier: Option<Seq<char>>,
    pub anylist_user_id: Option<Seq<char>>,
    pub list_operation: Option<PbGoogleAssistantListOperationView>,
}

impl PbGoogleAssistantTaskView {
    /// The message with no field set.
    pub open spec fn blank() -> PbGoogleAssistantTaskView {
        PbGoogleAssistantTaskView {
            identifier: None,
            anylist_user_id: None,
            list_operation: None,
        }
    }
}

impl DeepView for PbGoogleAssistantTask {
    type V = PbGoogleAssistantTaskView;

    open spec fn deep_view(&self) -> PbGoogleAssistantTaskView {
        PbGoogleAssistantTaskView {
            identifier: self.identifier.deep_view(),
            anylist_user_id: self.anylist_user_id.deep_view(),
            list_operation: self.list_operation.deep_view(),
        }
    }
}

impl Default for PbGoogleAssistantTask {
    /// The message with no field set.
    fn default() -> (message: Self)
        ensures
            message.deep_view() == PbGoogleAssistantTaskView::blank(),
    {
        PbGoogleAssistantTask {
            identifier: None,
            anylist_user_id: None,
            list_operation: None,
        }
    }
}

} // verus!
