//! The meal-planning calendar.

use crate::protobuf::anylist::double::Double;
use crate::protobuf::anylist::operations::{
    PbOperationMetadata,
    PbOperationMetadataView,
};
use vstd::prelude::*;

verus! {

/// The `PbCalendar` message: calendar.
#[derive(Clone, PartialEq, Debug)]
pub struct PbCalendar {
    pub identifier: String,
    pub logical_clock_time: Option<u64>,
}

/// The mathematical value of a [`PbCalendar`].
#[verifier::ext_equal]
pub ghost struct PbCalendarView {
    pub identifier: Seq<char>,
    pub logical_clock_time: Option<u64>,
}

impl PbCalendarView {
    /// The message with no field set.
    pub open spec fn blank() -> PbCalendarView {
        PbCalendarView {
            identifier: Seq::empty(),
            logical_clock_time: None,
        }
    }
}

impl DeepView for PbCalendar {
    type V = PbCalendarView;

    open spec fn deep_view(&self) -> PbCalendarView {
        PbCalendarView {
            identifier: self.identifier.deep_view(),
            logical_clock_time: self.logical_clock_time.deep_view(),
        }
    }
}

impl Default for PbCalendar {
    /// The message with no field set.
    fn default() -> (message: Self)
        ensures
            message.deep_view() == PbCalendarView::blank(),
    {
        PbCalendar {
            identifier: String::new(),
            logical_clock_time: None,
        }
    }
}

/// The `PbCalendarEvent` message: calendar event.
#[derive(Clone, PartialEq, Debug)]
pub struct PbCalendarEvent {
    pub identifier: String,
    pub logical_timestamp: Option<u64>,
    pub calendar_id: Option<String>,
    pub date: Option<String>,
    pub title: Option<String>,
    pub details: Option<String>,
    pub recipe_id: Option<String>,
    pub label_id: Option<String>,
    pub order_added_sort_index: Option<i32>,
    pub recipe_scale_factor: Option<Double>,
}

/// The mathematical value of a [`PbCalendarEvent`].
#[verifier::ext_equal]
pub ghost struct PbCalendarEventView {
    pub identifier: Seq<char>,
    pub logical_timestamp: Option<u64>,
    pub calendar_id: Option<Seq<char>>,
    pub date: Option<Seq<char>>,
    pub title: Option<Seq<char>>,
    pub details: Option<Seq<char>>,
    pub recipe_id: Option<Seq<char>>,
    pub label_id: Option<Seq<char>>,
    pub order_added_sort_index: Option<i32>,
    pub recipe_scale_factor: Option<Double>,
}

impl PbCalendarEventView {
    /// The message with no field set.
    pub open spec fn blank() -> PbCalendarEventView {
        PbCalendarEventView {
            identifier: Seq::empty(),
            logical_timestamp: None,
            calendar_id: None,
            date: None,
            title: None,
            details: None,
            recipe_id: None,
            label_id: None,
            order_added_sort_index: None,
            recipe_scale_factor: None,
        }
    }
}

impl DeepView for PbCalendarEvent {
    type V = PbCalendarEventView;

    open spec fn deep_view(&self) -> PbCalendarEventView {
        PbCalendarEventView {
            identifier: self.identifier.deep_view(),
            logical_timestamp: self.logical_timestamp.deep_view(),
            calendar_id: self.calendar_id.deep_view(),
            date: self.date.deep_view(),
            title: self.title.deep_view(),
            details: self.details.deep_view(),
            recipe_id: self.recipe_id.deep_view(),
            label_id: self.label_id.deep_view(),
            order_added_sort_index: self.order_added_sort_index.deep_view(),
            recipe_scale_factor: self.recipe_scale_factor.deep_view(),
        }
    }
}

impl Default for PbCalendarEvent {
    /// The message with no field set.
    fn default() -> (message: Self)
        ensures
            message.deep_view() == PbCalendarEventView::blank(),
    {
        PbCalendarEvent {
            identifier: String::new(),
            logical_timestamp: None,
            calendar_id: None,
            date: None,
            title: None,
            details: None,
            recipe_id: None,
            label_id: None,
            order_added_sort_index: None,
            recipe_scale_factor: None,
        }
    }
}

/// The `PbCalendarLabel` message: calendar label.
#[derive(Clone, PartialEq, Debug)]
pub struct PbCalendarLabel {
    pub identifier: String,
    pub logical_timestamp: Option<u64>,
    pub calendar_id: Option<String>,
    pub hex_color: Option<String>,
    pub name: Option<String>,
    pub sort_index: Option<i32>,
}

/// The mathematical value of a [`PbCalendarLabel`].
#[verifier::ext_equal]
pub ghost struct PbCalendarLabelView {
    pub identifier: Seq<char>,
    pub logical_timestamp: Option<u64>,
    pub calendar_id: Option<Seq<char>>,
    pub hex_color: Option<Seq<char>>,
    pub name: Option<Seq<char>>,
    pub sort_index: Option<i32>,
}

impl PbCalendarLabelView {
    /// The message with no field set.
    pub open spec fn blank() -> PbCalendarLabelView {
        PbCalendarLabelView {
            identifier: Seq::empty(),
            logical_timestamp: None,
            calendar_id: None,
            hex_color: None,
            name: None,
            sort_index: None,
        }
    }
}

impl DeepView for PbCalendarLabel {
    type V = PbCalendarLabelView;

    open spec fn deep_view(&self) -> PbCalendarLabelView {
        PbCalendarLabelView {
            identifier: self.identifier.deep_view(),
            logical_timestamp: self.logical_timestamp.deep_view(),
            calendar_id: self.calendar_id.deep_view(),
            hex_color: self.hex_color.deep_view(),
            name: self.name.deep_view(),
            sort_index: self.sort_index.deep_view(),
        }
    }
}

impl Default for PbCalendarLabel {
    /// The message with no field set.
    fn default() -> (message: Self)
        ensures
            message.deep_view() == PbCalendarLabelView::blank(),
    {
        PbCalendarLabel {
            identifier: String::new(),
            logical_timestamp: None,
            calendar_id: None,
            hex_color: None,
            name: None,
            sort_index: None,
        }
    }
}

/// The `PbCalendarResponse` message: calendar response.
#[derive(Clone, PartialEq, Debug)]
pub struct PbCalendarResponse {
    pub calendar_id: String,
    pub is_full_sync: Option<bool>,
    pub logical_timestamp: Option<u64>,
    pub events: Vec<PbCalendarEvent>,
    pub deleted_event_ids: Vec<String>,
    pub labels: Vec<PbCalendarLabel>,
    pub deleted_label_ids: Vec<String>,
}

/// The mathematical value of a [`PbCalendarResponse`].
#[verifier::ext_equal]
pub ghost struct PbCalendarResponseView {
    pub calendar_id: Seq<char>,
    pub is_full_sync: Option<bool>,
    pub logical_timestamp: Option<u64>,
    pub events: Seq<PbCalendarEventView>,
    pub deleted_event_ids: Seq<Seq<char>>,
    pub labels: Seq<PbCalendarLabelView>,
    pub deleted_label_ids: Seq<Seq<char>>,
}

impl PbCalendarResponseView {
    /// The message with no field set.
    pub open spec fn blank() -> PbCalendarResponseView {
        PbCalendarResponseView {
            calendar_id: Seq::empty(),
            is_full_sync: None,
            logical_timestamp: None,
            events: Seq::empty(),
            deleted_event_ids: Seq::empty(),
            labels: Seq::empty(),
            deleted_label_ids: Seq::empty(),
        }
    }
}

impl DeepView for PbCalendarResponse {
    type V = PbCalendarResponseView;

    open spec fn deep_view(&self) -> PbCalendarResponseView {
        PbCalendarResponseView {
            calendar_id: self.calendar_id.deep_view(),
            is_full_sync: self.is_full_sync.deep_view(),
            logical_timestamp: self.logical_timestamp.deep_view(),
            events: self.events.deep_view(),
            deleted_event_ids: self.deleted_event_ids.deep_view(),
            labels: self.labels.deep_view(),
            deleted_label_ids: self.deleted_label_ids.deep_view(),
        }
    }
}

impl Default for PbCalendarResponse {
    /// The message with no field set.
    fn default() -> (message: Self)
        ensures
            message.deep_view() == PbCalendarResponseView::blank(),
    {
        let message = PbCalendarResponse {
            calendar_id: String::new(),
            is_full_sync: None,
            logical_timestamp: None,
            events: Vec::new(),
            deleted_event_ids: Vec::new(),
            labels: Vec::new(),
            deleted_label_ids: Vec::new(),
        };
        assert(message.deep_view() =~~= PbCalendarResponseView::blank());
        message
    }
}

/// The `PbCalendarOperation` message: calendar operation.
#[derive(Clone, PartialEq, Debug)]
pub struct PbCalendarOperation {
    pub metadata: Option<PbOperationMetadata>,
    pub calendar_id: Option<String>,
    pub updated_event: Option<PbCalendarEvent>,
    pub original_event: Option<PbCalendarEvent>,
    pub updated_label: Option<PbCalendarLabel>,
    pub original_label: Option<PbCalendarLabel>,
    pub sorted_label_ids: Vec<String>,
    pub event_ids: Vec<String>,
    pub updated_events: Vec<PbCalendarEvent>,
    pub original_events: Vec<PbCalendarEvent>,
}

/// The mathematical value of a [`PbCalendarOperation`].
#[verifier::ext_equal]
pub ghost struct PbCalendarOperationView {
    pub metadata: Option<PbOperationMetadataView>,
    pub calendar_id: Option<Seq<char>>,
    pub updated_event: Option<PbCalendarEventView>,
    pub original_event: Option<PbCalendarEventView>,
    pub updated_label: Option<PbCalendarLabelView>,
    pub original_label: Option<PbCalendarLabelView>,
    pub sorted_label_ids: Seq<Seq<char>>,
    pub event_ids: Seq<Seq<char>>,
    pub updated_events: Seq<PbCalendarEventView>,
    pub original_events: Seq<PbCalendarEventView>,
}

impl PbCalendarOperationView {
    /// The message with no field set.
    pub open spec fn blank() -> PbCalendarOperationView {
        PbCalendarOperationView {
            metadata: None,
            calendar_id: None,
            updated_event: None,
            original_event: None,
            updated_label: None,
            original_label: None,
            sorted_label_ids: Seq::empty(),
            event_ids: Seq::empty(),
            updated_events: Seq::empty(),
            original_events: Seq::empty(),
        }
    }
}

impl DeepView for PbCalendarOperation {
    type V = PbCalendarOperationView;

    open spec fn deep_view(&self) -> PbCalendarOperationView {
        PbCalendarOperationView {
            metadata: self.metadata.deep_view(),
            calendar_id: self.calendar_id.deep_view(),
            updated_event: self.updated_event.deep_view(),
            original_event: self.original_event.deep_view(),
            updated_label: self.updated_label.deep_view(),
            original_label: self.original_label.deep_view(),
            sorted_label_ids: self.sorted_label_ids.deep_view(),
            event_ids: self.event_ids.deep_view(),
            updated_events: self.updated_events.deep_view(),
            original_events: self.original_events.deep_view(),
        }
    }
}

impl Default for PbCalendarOperation {
    /// The message with no field set.
    fn default() -> (message: Self)
        ensures
            message.deep_view() == PbCalendarOperationView::blank(),
    {
        let message = PbCalendarOperation {
            metadata: None,
            calendar_id: None,
            updated_event: None,
            original_event: None,
            updated_label: None,
            original_label: None,
            sorted_label_ids: Vec::new(),
            event_ids: Vec::new(),
            updated_events: Vec::new(),
            original_events: Vec::new(),
        };
        assert(message.deep_view() =~~= PbCalendarOperationView::blank());
        message
    }
}

/// The `PbCalendarOperationList` message: calendar operation list.
#[derive(Clone, PartialEq, Debug)]
pub struct PbCalendarOperationList {
    pub operations: Vec<PbCalendarOperation>,
}

/// The mathematical value of a [`PbCalendarOperationList`].
#[verifier::ext_equal]
pub ghost struct PbCalendarOperationListView {
    pub operations: Seq<PbCalendarOperationView>,
}

impl PbCalendarOperationListView {
    /// The message with no field set.
    pub open spec fn blank() -> PbCalendarOperationListView {
        PbCalendarOperationListView {
            operations: Seq::empty(),
        }
    }
}

impl DeepView for PbCalendarOperationList {
    type V = PbCalendarOperationListView;

    open spec fn deep_view(&self) -> PbCalendarOperationListView {
        PbCalendarOperationListView {
            operations: self.operations.deep_view(),
        }
    }
}

impl Default for PbCalendarOperationList {
    /// The message with no field set.
    fn default() -> (message: Self)
        ensures
            message.deep_view() == PbCalendarOperationListView::blank(),
    {
        let message = PbCalendarOperationList {
            operations: Vec::new(),
        };
        assert(message.deep_view() =~~= PbCalendarOperationListView::blank());
        message
    }
}

} // verus!
