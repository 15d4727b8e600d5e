//! The closed set of change notifications and the text frames that announce them.

use crate::text::str_eq;
use vstd::prelude::*;

verus! {

/// Events that can be received via real-time sync.
#[derive(Debug, Clone, Copy, PartialEq, Eq, Structural)]
pub enum SyncEvent {
    /// Shopping lists have changed.
    ShoppingListsChanged,
    /// Categorized items have changed.
    CategorizedItemsChanged,
    /// List folders have changed.
    ListFoldersChanged,
    /// List settings have changed.
    ListSettingsChanged,
    /// Starter lists have changed.
    StarterListsChanged,
    /// Starter list order has changed.
    StarterListOrderChanged,
    /// Starter list settings have changed.
    StarterListSettingsChanged,
    /// Mobile app settings have changed.
    MobileAppSettingsChanged,
    /// User categories have changed.
    UserCategoriesChanged,
    /// Recipe data has changed.
    RecipeDataChanged,
    /// Meal plan calendar has changed.
    MealPlanCalendarChanged,
    /// Account info has changed.
    AccountInfoChanged,
    /// Subscription info has changed.
    SubscriptionInfoChanged,
    /// The user account has been deleted.
    AccountDeleted,
    /// Liveness pulse; consumed by the connection and never handed to the application.
    Heartbeat,
}

impl SyncEvent {
    /// The text frame that announces this event: the one table of the wire vocabulary.
    pub open spec fn message(self) -> Seq<char> {
        match self {
            SyncEvent::Heartbeat => "--heartbeat--"@,
            SyncEvent::ShoppingListsChanged => "refresh-shopping-lists"@,
            SyncEvent::CategorizedItemsChanged => "refresh-categorized-items"@,
            SyncEvent::ListFoldersChanged => "refresh-list-folders"@,
            SyncEvent::ListSettingsChanged => "refresh-list-settings"@,
            SyncEvent::StarterListsChanged => "refresh-starter-lists"@,
            SyncEvent::StarterListOrderChanged => "refresh-ordered-starter-list-ids"@,
            SyncEvent::StarterListSettingsChanged => "refresh-starter-list-settings"@,
            SyncEvent::MobileAppSettingsChanged => "refresh-mobile-app-settings"@,
            SyncEvent::UserCategoriesChanged => "refresh-user-categories"@,
            SyncEvent::RecipeDataChanged => "refresh-user-recipe-data"@,
            SyncEvent::MealPlanCalendarChanged => "refresh-meal-plan-calendar"@,
            SyncEvent::AccountInfoChanged => "refresh-account-info"@,
            SyncEvent::SubscriptionInfoChanged => "refresh-subscription-info"@,
            SyncEvent::AccountDeleted => "did-delete-account"@,
        }
    }

    /// What a text frame decodes to: the event whose frame it is, or nothing.
    pub open spec fn decode(msg: Seq<char>) -> Option<SyncEvent> {
        if exists|e: SyncEvent| e.message() == msg {
            Some(choose|e: SyncEvent| e.message() == msg)
        } else {
            None
        }
    }

    /// The text frame that announces this event.
    pub fn as_message(&self) -> (msg: &'static str)
        ensures
            msg@ == self.message(),
    {
        match self {
            SyncEvent::Heartbeat => "--heartbeat--",
            SyncEvent::ShoppingListsChanged => "refresh-shopping-lists",
            SyncEvent::CategorizedItemsChanged => "refresh-categorized-items",
            SyncEvent::ListFoldersChanged => "refresh-list-folders",
            SyncEvent::ListSettingsChanged => "refresh-list-settings",
            SyncEvent::StarterListsChanged => "refresh-starter-lists",
            SyncEvent::StarterListOrderChanged => "refresh-ordered-starter-list-ids",
            SyncEvent::StarterListSettingsChanged => "refresh-starter-list-settings",
            SyncEvent::MobileAppSettingsChanged => "refresh-mobile-app-settings",
            SyncEvent::UserCategoriesChanged => "refresh-user-categories",
            SyncEvent::RecipeDataChanged => "refresh-user-recipe-data",
            SyncEvent::MealPlanCalendarChanged => "refresh-meal-plan-calendar",
            SyncEvent::AccountInfoChanged => "refresh-account-info",
            SyncEvent::SubscriptionInfoChanged => "refresh-subscription-info",
            SyncEvent::AccountDeleted => "did-delete-account",
        }
    }

    /// Parse a text frame into the event it announces; a frame outside the
    /// vocabulary yields `None`.
    pub fn from_message(msg: &str) -> (event: Option<SyncEvent>)
        ensures
            event == Self::decode(msg@),
    {
        let event = if str_eq(msg, "--heartbeat--") {
            Some(SyncEvent::Heartbeat)
        } else if str_eq(msg, "refresh-shopping-lists") {
            Some(SyncEvent::ShoppingListsChanged)
        } else if str_eq(msg, "refresh-categorized-items") {
            Some(SyncEvent::CategorizedItemsChanged)
        } else if str_eq(msg, "refresh-list-folders") {
            Some(SyncEvent::ListFoldersChanged)
        } else if str_eq(msg, "refresh-list-settings") {
            Some(SyncEvent::ListSettingsChanged)
        } else if str_eq(msg, "refresh-starter-lists") {
            Some(SyncEvent::StarterListsChanged)
        } else if str_eq(msg, "refresh-ordered-starter-list-ids") {
            Some(SyncEvent::StarterListOrderChanged)
        } else if str_eq(msg, "refresh-starter-list-settings") {
            Some(SyncEvent::StarterListSettingsChanged)
        } else if str_eq(msg, "refresh-mobile-app-settings") {
            Some(SyncEvent::MobileAppSettingsChanged)
        } else if str_eq(msg, "refresh-user-categories") {
            Some(SyncEvent::UserCategoriesChanged)
        } else if str_eq(msg, "refresh-user-recipe-data") {
            Some(SyncEvent::RecipeDataChanged)
        } else if str_eq(msg, "refresh-meal-plan-calendar") {
            Some(SyncEvent::MealPlanCalendarChanged)
        } else if str_eq(msg, "refresh-account-info") {
            Some(SyncEvent::AccountInfoChanged)
        } else if str_eq(msg, "refresh-subscription-info") {
            Some(SyncEvent::SubscriptionInfoChanged)
        } else if str_eq(msg, "did-delete-account") {
            Some(SyncEvent::AccountDeleted)
        } else {
            None
        };
        proof {
            lemma_decode_is_exact(msg@);
            match event {
                Some(e) => {
                    assert(e.message() == msg@);
                },
                None => {
                    assert forall|e: SyncEvent| e.message() != msg@ by {}
                },
            }
        }
        event
    }
}

/// No two events share a text frame.
pub proof fn lemma_message_injective(a: SyncEvent, b: SyncEvent)
    ensures
        a.message() == b.message() <==> a == b,
{
    reveal_strlit("--heartbeat--");
    reveal_strlit("refresh-shopping-lists");
    reveal_strlit("refresh-categorized-items");
    reveal_strlit("refresh-list-folders");
    reveal_strlit("refresh-list-settings");
    reveal_strlit("refresh-starter-lists");
    reveal_strlit("refresh-ordered-starter-list-ids");
    reveal_strlit("refresh-starter-list-settings");
    reveal_strlit("refresh-mobile-app-settings");
    reveal_strlit("refresh-user-categories");
    reveal_strlit("refresh-user-recipe-data");
    reveal_strlit("refresh-meal-plan-calendar");
    reveal_strlit("refresh-account-info");
    reveal_strlit("refresh-subscription-info");
    reveal_strlit("did-delete-account");
    assert("--heartbeat--"@.len() == 13);
    assert("refresh-shopping-lists"@.len() == 22);
    assert("refresh-categorized-items"@.len() == 25);
    assert("refresh-list-folders"@.len() == 20);
    assert("refresh-list-settings"@.len() == 21);
    assert("refresh-starter-lists"@.len() == 21);
    assert("refresh-ordered-starter-list-ids"@.len() == 32);
    assert("refresh-starter-list-settings"@.len() == 29);
    assert("refresh-mobile-app-settings"@.len() == 27);
    assert("refresh-user-categories"@.len() == 23);
    assert("refresh-user-recipe-data"@.len() == 24);
    assert("refresh-meal-plan-calendar"@.len() == 26);
    assert("refresh-account-info"@.len() == 20);
    assert("refresh-subscription-info"@.len() == 25);
    assert("did-delete-account"@.len() == 18);
    assert("refresh-categorized-items"@[8] == 'c');
    assert("refresh-subscription-info"@[8] == 's');
    assert("refresh-list-folders"@[8] == 'l');
    assert("refresh-account-info"@[8] == 'a');
    assert("refresh-list-settings"@[8] == 'l');
    assert("refresh-starter-lists"@[8] == 's');
}

/// A frame decodes to an event exactly when it is that event's frame, and to
/// nothing exactly when it is no event's frame.
pub proof fn lemma_decode_is_exact(msg: Seq<char>)
    ensures
        forall|e: SyncEvent| SyncEvent::decode(msg) == Some(e) <==> msg == e.message(),
        SyncEvent::decode(msg) is None <==> forall|e: SyncEvent| e.message() != msg,
{
    assert forall|e: SyncEvent| SyncEvent::decode(msg) == Some(e) <==> msg == e.message() by {
        if msg == e.message() {
            let chosen = choose|c: SyncEvent| c.message() == msg;
            lemma_message_injective(chosen, e);
        }
    }
}

/// Round trip: every event's own frame decodes to that event.
pub proof fn lemma_decode_message(e: SyncEvent)
    ensures
        SyncEvent::decode(e.message()) == Some(e),
{
    lemma_decode_is_exact(e.message());
}

} // verus!
