use anylist_rs::meal_planning::{
    build_create_meal_plan_event_operation, build_delete_meal_plan_event_operation,
    build_update_meal_plan_event_operation, day_in_range, events_in_range,
    meal_plan_events_between, new_meal_plan_event, recipe_ids_of,
};
use anylist_rs::protobuf::anylist::{PbCalendarEvent, PbCalendarOperation, PbCalendarResponse, PbOperationMetadata};
use anylist_rs::AnyListError;

fn event(id: &str, date: Option<&str>, recipe: Option<&str>) -> PbCalendarEvent {
    PbCalendarEvent {
        identifier: id.to_string(),
        date: date.map(|d| d.to_string()),
        recipe_id: recipe.map(|r| r.to_string()),
        title: Some("Dinner".to_string()),
        ..Default::default()
    }
}

fn response() -> PbCalendarResponse {
    PbCalendarResponse {
        calendar_id: "cal".to_string(),
        events: vec![
            event("before", Some("2024-02-28"), None),
            event("first", Some("2024-02-29"), Some("r1")),
            event("undated", None, Some("r2")),
            event("garbled", Some("29.02.2024"), Some("r3")),
            event("inside", Some("2024-03-15"), None),
            event("last", Some("2024-12-31"), Some("r4")),
            event("after", Some("2025-01-01"), Some("r5")),
        ],
        ..Default::default()
    }
}

#[test]
fn events_between_two_dates_both_included() {
    let r = response();
    let events = meal_plan_events_between(Some(&r), "2024-02-29", "2024-12-31").unwrap();
    let ids: Vec<&str> = events.iter().map(|e| e.id.as_str()).collect();
    assert_eq!(ids, vec!["first", "inside", "last"]);
    assert_eq!(events[0].date, "2024-02-29");
    assert_eq!(events[0].title, Some("Dinner".to_string()));
    assert_eq!(events[0].recipe_id, Some("r1".to_string()));
    assert_eq!(events[0].details, None);
    assert_eq!(recipe_ids_of(&events), vec!["r1".to_string(), "r4".to_string()]);
}

#[test]
fn events_of_an_empty_span_or_no_response() {
    let r = response();
    assert!(meal_plan_events_between(Some(&r), "2024-03-16", "2024-03-14").unwrap().is_empty());
    assert!(meal_plan_events_between(None, "2024-01-01", "2024-12-31").unwrap().is_empty());
    let one_day = meal_plan_events_between(Some(&r), "2024-03-15", "2024-03-15").unwrap();
    assert_eq!(one_day.len(), 1);
}

#[test]
fn unreadable_dates_are_refused() {
    let r = response();
    match meal_plan_events_between(Some(&r), "yesterday", "also wrong") {
        Err(AnyListError::Other(msg)) => assert!(msg.starts_with("Invalid start date: "), "{}", msg),
        other => panic!("unexpected: {:?}", other),
    }
    match meal_plan_events_between(Some(&r), "2024-01-01", "2024-02-30") {
        Err(AnyListError::Other(msg)) => assert!(msg.starts_with("Invalid end date: "), "{}", msg),
        other => panic!("unexpected: {:?}", other),
    }
}

#[test]
fn days_compare_by_year_then_day_of_year() {
    assert!(day_in_range(Some((2024, 60)), (2024, 60), (2024, 60)));
    assert!(day_in_range(Some((2024, 1)), (2023, 365), (2024, 2)));
    assert!(!day_in_range(Some((2024, 1)), (2024, 2), (2024, 3)));
    assert!(!day_in_range(Some((2025, 1)), (2024, 1), (2024, 366)));
    assert!(day_in_range(Some((-1, 5)), (-2, 300), (0, 1)));
    assert!(!day_in_range(None, (0, 1), (9999, 365)));
    let r = response();
    let ids: Vec<String> =
        events_in_range(Some(&r), (2024, 60), (2024, 75)).into_iter().map(|e| e.id).collect();
    assert_eq!(ids, vec!["first".to_string(), "inside".to_string()]);
}

fn meta(handler: &str) -> Option<PbOperationMetadata> {
    Some(PbOperationMetadata {
        operation_id: Some("op".to_string()),
        handler_id: Some(handler.to_string()),
        user_id: Some("me".to_string()),
        operation_class: Some(0),
    })
}

#[test]
fn create_and_update_event_operations() {
    let list = build_create_meal_plan_event_operation(
        "cal", "e1", "2024-03-15", Some("r1"), None, Some("lbl"), "op", "me",
    );
    assert_eq!(list.operations.len(), 1);
    let op = &list.operations[0];
    assert_eq!(op.metadata, meta("create-meal-event"));
    assert_eq!(op.calendar_id, Some("cal".to_string()));
    assert!(op.event_ids.is_empty());
    let sent = op.updated_event.as_ref().unwrap();
    assert_eq!(sent.identifier, "e1");
    assert_eq!(sent.logical_timestamp, Some(1));
    assert_eq!(sent.calendar_id, Some("cal".to_string()));
    assert_eq!(sent.date, Some("2024-03-15".to_string()));
    assert_eq!(sent.title, None);
    assert_eq!(sent.details, None);
    assert_eq!(sent.recipe_id, Some("r1".to_string()));
    assert_eq!(sent.label_id, Some("lbl".to_string()));
    assert_eq!(sent.order_added_sort_index, Some(0));
    assert_eq!(sent.recipe_scale_factor.map(|s| f64::from_bits(s.to_bits())), Some(1.0));

    let list = build_update_meal_plan_event_operation(
        "cal", "e1", "2024-03-16", None, Some("Leftovers"), None, "op", "me",
    );
    let op = &list.operations[0];
    assert_eq!(op.metadata, meta("update-meal-event"));
    let sent = op.updated_event.as_ref().unwrap();
    assert_eq!(sent.title, Some("Leftovers".to_string()));
    assert_eq!(sent.recipe_id, None);
}

#[test]
fn delete_event_operation() {
    let list = build_delete_meal_plan_event_operation("cal", "e1", "op", "me");
    let expected = PbCalendarOperation {
        metadata: meta("delete-meal-event"),
        calendar_id: Some("cal".to_string()),
        event_ids: vec!["e1".to_string()],
        ..Default::default()
    };
    assert_eq!(list.operations, vec![expected]);
}

#[test]
fn a_new_event_holds_what_was_given() {
    let event = new_meal_plan_event("e1", "2024-03-15", Some("r1"), Some("Dinner"), None);
    assert_eq!(event.id, "e1");
    assert_eq!(event.date, "2024-03-15");
    assert_eq!(event.recipe_id, Some("r1".to_string()));
    assert_eq!(event.title, Some("Dinner".to_string()));
    assert_eq!(event.label_id, None);
    assert_eq!(event.details, None);
}
