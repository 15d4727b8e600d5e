use anylist_rs::realtime::events::SyncEvent;

#[test]
fn test_parse_heartbeat() {
    assert_eq!(
        SyncEvent::from_message("--heartbeat--"),
        Some(SyncEvent::Heartbeat)
    );
}

#[test]
fn test_parse_shopping_lists_changed() {
    assert_eq!(
        SyncEvent::from_message("refresh-shopping-lists"),
        Some(SyncEvent::ShoppingListsChanged)
    );
}

#[test]
fn test_parse_account_deleted() {
    assert_eq!(
        SyncEvent::from_message("did-delete-account"),
        Some(SyncEvent::AccountDeleted)
    );
}

#[test]
fn test_parse_unknown_message() {
    assert_eq!(SyncEvent::from_message("unknown-message"), None);
}

#[test]
fn test_all_known_messages() {
    let messages = vec![
        ("--heartbeat--", SyncEvent::Heartbeat),
        ("refresh-shopping-lists", SyncEvent::ShoppingListsChanged),
        (
            "refresh-categorized-items",
            SyncEvent::CategorizedItemsChanged,
        ),
        ("refresh-list-folders", SyncEvent::ListFoldersChanged),
        ("refresh-list-settings", SyncEvent::ListSettingsChanged),
        ("refresh-starter-lists", SyncEvent::StarterListsChanged),
        (
            "refresh-ordered-starter-list-ids",
            SyncEvent::StarterListOrderChanged,
        ),
        (
            "refresh-starter-list-settings",
            SyncEvent::StarterListSettingsChanged,
        ),
        (
            "refresh-mobile-app-settings",
            SyncEvent::MobileAppSettingsChanged,
        ),
        ("refresh-user-categories", SyncEvent::UserCategoriesChanged),
        ("refresh-user-recipe-data", SyncEvent::RecipeDataChanged),
        (
            "refresh-meal-plan-calendar",
            SyncEvent::MealPlanCalendarChanged,
        ),
        ("refresh-account-info", SyncEvent::AccountInfoChanged),
        (
            "refresh-subscription-info",
            SyncEvent::SubscriptionInfoChanged,
        ),
        ("did-delete-account", SyncEvent::AccountDeleted),
    ];

    for (msg, expected) in messages {
        assert_eq!(
            SyncEvent::from_message(msg),
            Some(expected),
            "Failed to parse: {}",
            msg
        );
    }
}

#[test]
fn every_event_round_trips_through_its_frame() {
    let all = [
        SyncEvent::ShoppingListsChanged,
        SyncEvent::CategorizedItemsChanged,
        SyncEvent::ListFoldersChanged,
        SyncEvent::ListSettingsChanged,
        SyncEvent::StarterListsChanged,
        SyncEvent::StarterListOrderChanged,
        SyncEvent::StarterListSettingsChanged,
        SyncEvent::MobileAppSettingsChanged,
        SyncEvent::UserCategoriesChanged,
        SyncEvent::RecipeDataChanged,
        SyncEvent::MealPlanCalendarChanged,
        SyncEvent::AccountInfoChanged,
        SyncEvent::SubscriptionInfoChanged,
        SyncEvent::AccountDeleted,
        SyncEvent::Heartbeat,
    ];
    for event in all {
        assert_eq!(SyncEvent::from_message(event.as_message()), Some(event));
    }
}

#[test]
fn frames_are_case_sensitive_and_exact() {
    assert_eq!(SyncEvent::from_message("--HEARTBEAT--"), None);
    assert_eq!(SyncEvent::from_message("--heartbeat-- "), None);
    assert_eq!(SyncEvent::from_message(""), None);
    assert_eq!(SyncEvent::from_message("refresh-shopping-list"), None);
}
