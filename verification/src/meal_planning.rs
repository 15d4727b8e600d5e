//! The meal-planning calendar: the events of a span of days, and the operations
//! that create, change and delete events.

use crate::error::AnyListError;
use crate::protobuf::anylist::double::ONE_BITS;
use crate::protobuf::anylist::pb_operation_metadata::OperationClass;
use crate::protobuf::anylist::{
    Double, PbCalendarEvent, PbCalendarEventView, PbCalendarOperation, PbCalendarOperationList,
    PbCalendarOperationListView, PbCalendarOperationView, PbCalendarResponse,
    PbOperationMetadata, PbOperationMetadataView,
};
use crate::sequences::{filter_map, lemma_filter_map_ends, lemma_filter_map_step};
use crate::text::{clone_opt, owned_opt};
use chrono::Datelike;
use vstd::prelude::*;
use vstd::string::StringExecFns;

verus! {

/// Represents a meal plan event.
#[derive(Debug, Clone)]
pub struct MealPlanEvent {
    pub id: String,
    pub date: String,
    pub title: Option<String>,
    pub recipe_id: Option<String>,
    pub label_id: Option<String>,
    pub details: Option<String>,
}

/// The mathematical value of a [`MealPlanEvent`].
#[verifier::ext_equal]
pub ghost struct MealPlanEventView {
    pub id: Seq<char>,
    pub date: Seq<char>,
    pub title: Option<Seq<char>>,
    pub recipe_id: Option<Seq<char>>,
    pub label_id: Option<Seq<char>>,
    pub details: Option<Seq<char>>,
}

impl DeepView for MealPlanEvent {
    type V = MealPlanEventView;

    open spec fn deep_view(&self) -> MealPlanEventView {
        MealPlanEventView {
            id: self.id.deep_view(),
            date: self.date.deep_view(),
            title: self.title.deep_view(),
            recipe_id: self.recipe_id.deep_view(),
            label_id: self.label_id.deep_view(),
            details: self.details.deep_view(),
        }
    }
}

/// The request that creates an event: the new event, for a recipe, a title or both, at scale one.
pub open spec fn create_meal_plan_event_operation(
    calendar_id: Seq<char>,
    event_id: Seq<char>,
    date: Seq<char>,
    recipe_id: Option<Seq<char>>,
    title: Option<Seq<char>>,
    label_id: Option<Seq<char>>,
    operation_id: Seq<char>,
    user_id: Seq<char>,
) -> PbCalendarOperationListView {
    PbCalendarOperationListView {
        operations: seq![
            PbCalendarOperationView {
                metadata: Some(
                    PbOperationMetadataView {
                        operation_id: Some(operation_id),
                        handler_id: Some("create-meal-event"@),
                        user_id: Some(user_id),
                        operation_class: Some(OperationClass::UndefinedOperation.number()),
                    },
                ),
                calendar_id: Some(calendar_id),
                updated_event: Some(
                    PbCalendarEventView {
                        identifier: event_id,
                        logical_timestamp: Some(1),
                        calendar_id: Some(calendar_id),
                        date: Some(date),
                        title: title,
                        recipe_id: recipe_id,
                        label_id: label_id,
                        order_added_sort_index: Some(0),
                        recipe_scale_factor: Some(Double { bits: ONE_BITS }),
                        ..PbCalendarEventView::blank()
                    },
                ),
                ..PbCalendarOperationView::blank()
            },
        ],
    }
}

/// Build the operation that creates a meal plan event.
pub fn build_create_meal_plan_event_operation(
    calendar_id: &str,
    event_id: &str,
    date: &str,
    recipe_id: Option<&str>,
    title: Option<&str>,
    label_id: Option<&str>,
    operation_id: &str,
    user_id: &str,
) -> (list: PbCalendarOperationList)
    ensures
        list.deep_view() == create_meal_plan_event_operation(
            calendar_id@,
            event_id@,
            date@,
            recipe_id.deep_view(),
            title.deep_view(),
            label_id.deep_view(),
            operation_id@,
            user_id@,
        ),
{
    let list = PbCalendarOperationList {
        operations: vec![
            PbCalendarOperation {
                metadata: Some(
                    PbOperationMetadata {
                        operation_id: Some(operation_id.to_owned()),
                        handler_id: Some("create-meal-event".to_owned()),
                        user_id: Some(user_id.to_owned()),
                        operation_class: Some(OperationClass::UndefinedOperation.to_i32()),
                    },
                ),
                calendar_id: Some(calendar_id.to_owned()),
                updated_event: Some(
                    PbCalendarEvent {
                        identifier: event_id.to_owned(),
                        logical_timestamp: Some(1),
                        calendar_id: Some(calendar_id.to_owned()),
                        date: Some(date.to_owned()),
                        title: owned_opt(title),
                        recipe_id: owned_opt(recipe_id),
                        label_id: owned_opt(label_id),
                        order_added_sort_index: Some(0),
                        recipe_scale_factor: Some(Double { bits: ONE_BITS }),
                        ..PbCalendarEvent::default()
                    },
                ),
                ..PbCalendarOperation::default()
            },
        ],
    };
    list
}

/// The request that updates an event: the event as it shall be.
pub open spec fn update_meal_plan_event_operation(
    calendar_id: Seq<char>,
    event_id: Seq<char>,
    date: Seq<char>,
    recipe_id: Option<Seq<char>>,
    title: Option<Seq<char>>,
    label_id: Option<Seq<char>>,
    operation_id: Seq<char>,
    user_id: Seq<char>,
) -> PbCalendarOperationListView {
    PbCalendarOperationListView {
        operations: seq![
            PbCalendarOperationView {
                metadata: Some(
                    PbOperationMetadataView {
                        operation_id: Some(operation_id),
                        handler_id: Some("update-meal-event"@),
                        user_id: Some(user_id),
                        operation_class: Some(OperationClass::UndefinedOperation.number()),
                    },
                ),
                calendar_id: Some(calendar_id),
                updated_event: Some(
                    PbCalendarEventView {
                        identifier: event_id,
                        logical_timestamp: Some(1),
                        calendar_id: Some(calendar_id),
                        date: Some(date),
                        title: title,
                        recipe_id: recipe_id,
                        label_id: label_id,
                        order_added_sort_index: Some(0),
                        recipe_scale_factor: Some(Double { bits: ONE_BITS }),
                        ..PbCalendarEventView::blank()
                    },
                ),
                ..PbCalendarOperationView::blank()
            },
        ],
    }
}

/// Build the operation that replaces a meal plan event by a new version of it.
pub fn build_update_meal_plan_event_operation(
    calendar_id: &str,
    event_id: &str,
    date: &str,
    recipe_id: Option<&str>,
    title: Option<&str>,
    label_id: Option<&str>,
    operation_id: &str,
    user_id: &str,
) -> (list: PbCalendarOperationList)
    ensures
        list.deep_view() == update_meal_plan_event_operation(
            calendar_id@,
            event_id@,
            date@,
            recipe_id.deep_view(),
            title.deep_view(),
            label_id.deep_view(),
            operation_id@,
            user_id@,
        ),
{
    let list = PbCalendarOperationList {
        operations: vec![
            PbCalendarOperation {
                metadata: Some(
                    PbOperationMetadata {
                        operation_id: Some(operation_id.to_owned()),
                        handler_id: Some("update-meal-event".to_owned()),
                        user_id: Some(user_id.to_owned()),
                        operation_class: Some(OperationClass::UndefinedOperation.to_i32()),
                    },
                ),
                calendar_id: Some(calendar_id.to_owned()),
                updated_event: Some(
                    PbCalendarEvent {
                        identifier: event_id.to_owned(),
                        logical_timestamp: Some(1),
                        calendar_id: Some(calendar_id.to_owned()),
                        date: Some(date.to_owned()),
                        title: owned_opt(title),
                        recipe_id: owned_opt(recipe_id),
                        label_id: owned_opt(label_id),
                        order_added_sort_index: Some(0),
                        recipe_scale_factor: Some(Double { bits: ONE_BITS }),
                        ..PbCalendarEvent::default()
                    },
                ),
                ..PbCalendarOperation::default()
            },
        ],
    };
    list
}

/// The request that deletes an event: its ID alone.
pub open spec fn delete_meal_plan_event_operation(
    calendar_id: Seq<char>,
    event_id: Seq<char>,
    operation_id: Seq<char>,
    user_id: Seq<char>,
) -> PbCalendarOperationListView {
    PbCalendarOperationListView {
        operations: seq![
            PbCalendarOperationView {
                metadata: Some(
                    PbOperationMetadataView {
                        operation_id: Some(operation_id),
                        handler_id: Some("delete-meal-event"@),
                        user_id: Some(user_id),
                        operation_class: Some(OperationClass::UndefinedOperation.number()),
                    },
                ),
                calendar_id: Some(calendar_id),
                event_ids: seq![event_id],
                ..PbCalendarOperationView::blank()
            },
        ],
    }
}

/// Build the operation that deletes a meal plan event.
pub fn build_delete_meal_plan_event_operation(
    calendar_id: &str,
    event_id: &str,
    operation_id: &str,
    user_id: &str,
) -> (list: PbCalendarOperationList)
    ensures
        list.deep_view() == delete_meal_plan_event_operation(
            calendar_id@,
            event_id@,
            operation_id@,
            user_id@,
        ),
{
    let list = PbCalendarOperationList {
        operations: vec![
            PbCalendarOperation {
                metadata: Some(
                    PbOperationMetadata {
                        operation_id: Some(operation_id.to_owned()),
                        handler_id: Some("delete-meal-event".to_owned()),
                        user_id: Some(user_id.to_owned()),
                        operation_class: Some(OperationClass::UndefinedOperation.to_i32()),
                    },
                ),
                calendar_id: Some(calendar_id.to_owned()),
                event_ids: vec![event_id.to_owned()],
                ..PbCalendarOperation::default()
            },
        ],
    };
    assert(list.deep_view() =~~= delete_meal_plan_event_operation(
        calendar_id@,
        event_id@,
        operation_id@,
        user_id@,
    ));
    list
}

/// A calendar day as year and day of the year, the latter counted from one.
pub type Day = (i32, u32);

/// The format in which the service writes a day: year, month and day of the month.
pub open spec fn day_format() -> Seq<char> {
    "%Y-%m-%d"@
}

/// Names the day that `chrono::NaiveDate::parse_from_str` reads from a text under
/// a format, as its year and its day of the year; `None` where it reports an error.
pub uninterp spec fn parsed_day(text: Seq<char>, format: Seq<char>) -> Option<Day>;

/// The error with which `chrono` refuses a text that is no date.
#[verifier::external_type_specification]
#[verifier::external_body]
pub struct ExParseError(chrono::ParseError);

/// Calls `chrono::NaiveDate::parse_from_str` and hands the date out as its year
/// and its day of the year, which together identify it. What is read depends on text
/// and format alone; the contract ties it to its name.
#[verifier::external_body]
fn parse_day(text: &str, format: &str) -> (parsed: Result<Day, chrono::ParseError>)
    ensures
        match parsed {
            Ok(day) => parsed_day(text@, format@) == Some(day),
            Err(_) => parsed_day(text@, format@) is None,
        },
{
    chrono::NaiveDate::parse_from_str(text, format).map(|date| (date.year(), date.ordinal()))
}

/// The words in which `chrono` describes a parse error, through its `Display`.
#[verifier::external_body]
fn parse_error_text(error: &chrono::ParseError) -> (text: String) {
    error.to_string()
}

/// Whether day `a` is day `b` or comes before it.
pub open spec fn not_after(a: Day, b: Day) -> bool {
    a.0 < b.0 || (a.0 == b.0 && a.1 <= b.1)
}

/// Whether a day was read and lies in the span from `start` to `end`, both included.
pub open spec fn within(day: Option<Day>, start: Day, end: Day) -> bool {
    match day {
        Some(d) => not_after(start, d) && not_after(d, end),
        None => false,
    }
}

/// Whether a day was read and lies in the span from `start` to `end`, both included.
pub fn day_in_range(day: Option<Day>, start: Day, end: Day) -> (inside: bool)
    ensures
        inside == within(day, start, end),
{
    match day {
        Some(d) => {
            let from_start = start.0 < d.0 || (start.0 == d.0 && start.1 <= d.1);
            let to_end = d.0 < end.0 || (d.0 == end.0 && d.1 <= end.1);
            from_start && to_end
        },
        None => false,
    }
}

/// The event that a protobuf event stands for; a missing date reads as empty.
pub open spec fn event_of(event: PbCalendarEventView) -> MealPlanEventView {
    MealPlanEventView {
        id: event.identifier,
        date: match event.date {
            Some(date) => date,
            None => Seq::empty(),
        },
        title: event.title,
        recipe_id: event.recipe_id,
        label_id: event.label_id,
        details: event.details,
    }
}

/// Whether an event has a date that can be read and lies in the span.
pub open spec fn event_within(event: PbCalendarEventView, start: Day, end: Day) -> bool {
    match event.date {
        Some(date) => within(parsed_day(date, day_format()), start, end),
        None => false,
    }
}

/// The events of a run of protobuf events that lie in the span, in their order.
pub open spec fn events_within(events: Seq<PbCalendarEventView>, start: Day, end: Day) -> Seq<
    MealPlanEventView,
>
    decreases events.len(),
{
    if events.len() == 0 {
        Seq::empty()
    } else if event_within(events.last(), start, end) {
        events_within(events.drop_last(), start, end).push(event_of(events.last()))
    } else {
        events_within(events.drop_last(), start, end)
    }
}

/// Pick the events of a calendar response that lie in a span of days, both ends
/// included. Events without a date, or with one that cannot be read, are left out;
/// there are none where there is no response.
pub fn events_in_range(response: Option<&PbCalendarResponse>, start: Day, end: Day) -> (events: Vec<
    MealPlanEvent,
>)
    ensures
        events.deep_view() == match response.deep_view() {
            Some(r) => events_within(r.events, start, end),
            None => Seq::empty(),
        },
{
    let mut events: Vec<MealPlanEvent> = Vec::new();
    let r = match response {
        Some(r) => r,
        None => {
            return events;
        },
    };
    let ghost all = r.events.deep_view();
    let mut i: usize = 0;
    while i < r.events.len()
        invariant
            i <= r.events.len(),
            all == r.events.deep_view(),
            all == r.deep_view().events,
            events.deep_view() == events_within(all.take(i as int), start, end),
        decreases r.events.len() - i,
    {
        let event = &r.events[i];
        proof {
            assert(all.take(i + 1).drop_last() =~= all.take(i as int));
        }
        let inside = match &event.date {
            Some(date) => {
                let day = match parse_day(date.as_str(), "%Y-%m-%d") {
                    Ok(day) => Some(day),
                    Err(_) => None,
                };
                day_in_range(day, start, end)
            },
            None => false,
        };
        if inside {
            let date = match &event.date {
                Some(date) => date.clone(),
                None => String::new(),
            };
            let converted = MealPlanEvent {
                id: event.identifier.clone(),
                date,
                title: clone_opt(&event.title),
                recipe_id: clone_opt(&event.recipe_id),
                label_id: clone_opt(&event.label_id),
                details: clone_opt(&event.details),
            };
            events.push(converted);
        }
        i += 1;
    }
    assert(all.take(all.len() as int) =~= all);
    events
}

/// Pick the events of a calendar response that lie between two dates, both
/// included, each written as year, month and day. Fails when either date cannot be
/// read, the start date first.
pub fn meal_plan_events_between(
    response: Option<&PbCalendarResponse>,
    start_date: &str,
    end_date: &str,
) -> (events: Result<Vec<MealPlanEvent>, AnyListError>)
    ensures
        match (parsed_day(start_date@, day_format()), parsed_day(end_date@, day_format())) {
            (None, _) => events matches Err(AnyListError::Other(msg))
                && "Invalid start date: "@.is_prefix_of(msg@),
            (Some(_), None) => events matches Err(AnyListError::Other(msg))
                && "Invalid end date: "@.is_prefix_of(msg@),
            (Some(start), Some(end)) => events matches Ok(found) && found.deep_view()
                == match response.deep_view() {
                Some(r) => events_within(r.events, start, end),
                None => Seq::empty(),
            },
        },
{
    let start = match parse_day(start_date, "%Y-%m-%d") {
        Ok(day) => day,
        Err(error) => {
            let reason = parse_error_text(&error);
            let msg = "Invalid start date: ".to_owned().concat(reason.as_str());
            return Err(AnyListError::Other(msg));
        },
    };
    let end = match parse_day(end_date, "%Y-%m-%d") {
        Ok(day) => day,
        Err(error) => {
            let reason = parse_error_text(&error);
            let msg = "Invalid end date: ".to_owned().concat(reason.as_str());
            return Err(AnyListError::Other(msg));
        },
    };
    Ok(events_in_range(response, start, end))
}

/// The recipes of a run of events: the recipe of each event that has one, in the
/// order of the events. These are the recipes whose ingredients go onto a list when
/// a meal plan is added to it.
pub fn recipe_ids_of(events: &Vec<MealPlanEvent>) -> (recipe_ids: Vec<String>)
    ensures
        recipe_ids.deep_view() == filter_map(
            events.deep_view(),
            |event: MealPlanEventView| event.recipe_id,
        ),
{
    let ghost f = |event: MealPlanEventView| event.recipe_id;
    let ghost all = events.deep_view();
    let mut recipe_ids: Vec<String> = Vec::new();
    let mut i: usize = 0;
    while i < events.len()
        invariant
            i <= events.len(),
            all == events.deep_view(),
            f == |event: MealPlanEventView| event.recipe_id,
            recipe_ids.deep_view() == filter_map(all.take(i as int), f),
        decreases events.len() - i,
    {
        let event = &events[i];
        proof {
            lemma_filter_map_step(all, f, i as int);
        }
        if let Some(recipe_id) = &event.recipe_id {
            recipe_ids.push(recipe_id.clone());
        }
        i += 1;
    }
    proof {
        lemma_filter_map_ends(all, f);
    }
    recipe_ids
}

/// The event that `build_create_meal_plan_event_operation` asks the service to
/// create, as the application sees it.
pub fn new_meal_plan_event(
    event_id: &str,
    date: &str,
    recipe_id: Option<&str>,
    title: Option<&str>,
    label_id: Option<&str>,
) -> (event: MealPlanEvent)
    ensures
        event.deep_view() == (MealPlanEventView {
            id: event_id@,
            date: date@,
            title: title.deep_view(),
            recipe_id: recipe_id.deep_view(),
            label_id: label_id.deep_view(),
            details: None,
        }),
{
    MealPlanEvent {
        id: event_id.to_owned(),
        date: date.to_owned(),
        title: owned_opt(title),
        recipe_id: owned_opt(recipe_id),
        label_id: owned_opt(label_id),
        details: None,
    }
}

} // verus!
