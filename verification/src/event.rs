//! Download events and the flat record that the C event callback receives.
use vstd::prelude::*;
use crate::ctext::{or_empty, CText};

verus! {

/// Kind of a download event, in the order of the C enumeration (0 to 10).
#[derive(Debug, Clone, Copy, PartialEq, Eq, Structural)]
pub enum EventType {
    PrefetchError,
    Pulling,
    PullError,
    PullTimeout,
    PullProgress,
    Pushing,
    PushError,
    PushProgress,
    Flushing,
    FlushError,
    Finished,
}

/// A byte range of the file, start inclusive, end exclusive.
#[derive(Debug, Clone, Copy, PartialEq, Eq, Structural)]
pub struct ProgressRange {
    pub start: u64,
    pub end: u64,
}

/// An event reported by the downloader while a task runs. `usize` values
/// identify the worker; messages are the UTF-8 bytes of the error text.
pub enum Event {
    PrefetchError(Vec<u8>),
    Pulling(usize),
    PullError(usize, Vec<u8>),
    PullTimeout(usize),
    PullProgress(usize, ProgressRange),
    Pushing(usize, ProgressRange),
    PushError(usize, ProgressRange, Vec<u8>),
    PushProgress(usize, ProgressRange),
    Flushing,
    FlushError(Vec<u8>),
    Finished(usize),
}

/// The arguments of one call of the C event callback: kind, worker id (0 when
/// the event has none), message (only for error events) and byte range (0..0
/// when the event has none).
pub struct CEvent {
    pub event_type: EventType,
    pub id: usize,
    pub message: Option<CText>,
    pub range_start: u64,
    pub range_end: u64,
}

/// A `CEvent` taken by its view.
pub struct CEventView {
    pub event_type: EventType,
    pub id: usize,
    pub message: Option<Seq<u8>>,
    pub range_start: u64,
    pub range_end: u64,
}

impl View for CEvent {
    type V = CEventView;

    open spec fn view(&self) -> CEventView {
        CEventView {
            event_type: self.event_type,
            id: self.id,
            message: match self.message {
                Some(m) => Some(m@),
                None => None,
            },
            range_start: self.range_start,
            range_end: self.range_end,
        }
    }
}

/// The record built from its parts.
pub open spec fn c_event_parts(
    event_type: EventType,
    id: usize,
    message: Option<Seq<u8>>,
    range: ProgressRange,
) -> CEventView {
    CEventView {
        event_type,
        id,
        message,
        range_start: range.start,
        range_end: range.end,
    }
}

/// The empty range reported for events without one.
pub open spec fn no_range() -> ProgressRange {
    ProgressRange { start: 0, end: 0 }
}

/// The callback record for `event`. Messages become C strings (empty when the
/// text holds a NUL byte).
pub open spec fn c_event_of(event: Event) -> CEventView {
    match event {
        Event::PrefetchError(e) => c_event_parts(
            EventType::PrefetchError,
            0,
            Some(or_empty(e@)),
            no_range(),
        ),
        Event::Pulling(id) => c_event_parts(EventType::Pulling, id, None, no_range()),
        Event::PullError(id, e) => c_event_parts(
            EventType::PullError,
            id,
            Some(or_empty(e@)),
            no_range(),
        ),
        Event::PullTimeout(id) => c_event_parts(EventType::PullTimeout, id, None, no_range()),
        Event::PullProgress(id, range) => c_event_parts(
            EventType::PullProgress,
            id,
            None,
            range,
        ),
        Event::Pushing(id, range) => c_event_parts(EventType::Pushing, id, None, range),
        Event::PushError(id, range, e) => c_event_parts(
            EventType::PushError,
            id,
            Some(or_empty(e@)),
            range,
        ),
        Event::PushProgress(id, range) => c_event_parts(
            EventType::PushProgress,
            id,
            None,
            range,
        ),
        Event::Flushing => c_event_parts(EventType::Flushing, 0, None, no_range()),
        Event::FlushError(e) => c_event_parts(
            EventType::FlushError,
            0,
            Some(or_empty(e@)),
            no_range(),
        ),
        Event::Finished(id) => c_event_parts(EventType::Finished, id, None, no_range()),
    }
}

/// Event kinds that report a failure and carry a message.
pub open spec fn is_error_type(t: EventType) -> bool {
    t == EventType::PrefetchError || t == EventType::PullError || t == EventType::PushError
        || t == EventType::FlushError
}

/// Event kinds that report a byte range.
pub open spec fn is_range_type(t: EventType) -> bool {
    t == EventType::PullProgress || t == EventType::Pushing || t == EventType::PushError
        || t == EventType::PushProgress
}

impl CEvent {
    /// Flattens `event` into the arguments of the C event callback.
    pub fn from_event(event: &Event) -> (r: CEvent)
        ensures
            r@ == c_event_of(*event),
    {
        let zero = ProgressRange { start: 0, end: 0 };
        let (event_type, id, message, range) = match event {
            Event::PrefetchError(e) => (
                EventType::PrefetchError,
                0,
                Some(CText::from_bytes_or_empty(e.as_slice())),
                zero,
            ),
            Event::Pulling(id) => (EventType::Pulling, *id, None, zero),
            Event::PullError(id, e) => (
                EventType::PullError,
                *id,
                Some(CText::from_bytes_or_empty(e.as_slice())),
                zero,
            ),
            Event::PullTimeout(id) => (EventType::PullTimeout, *id, None, zero),
            Event::PullProgress(id, range) => (EventType::PullProgress, *id, None, *range),
            Event::Pushing(id, range) => (EventType::Pushing, *id, None, *range),
            Event::PushError(id, range, e) => (
                EventType::PushError,
                *id,
                Some(CText::from_bytes_or_empty(e.as_slice())),
                *range,
            ),
            Event::PushProgress(id, range) => (EventType::PushProgress, *id, None, *range),
            Event::Flushing => (EventType::Flushing, 0, None, zero),
            Event::FlushError(e) => (
                EventType::FlushError,
                0,
                Some(CText::from_bytes_or_empty(e.as_slice())),
                zero,
            ),
            Event::Finished(id) => (EventType::Finished, *id, None, zero),
        };
        CEvent { event_type, id, message, range_start: range.start, range_end: range.end }
    }
}

/// Law: a callback record carries a message exactly when the event reports a
/// failure, and a non-empty range field only when the event reports a range.
pub proof fn law_event_record_shape(event: Event)
    ensures
        c_event_of(event).message is Some <==> is_error_type(c_event_of(event).event_type),
        !is_range_type(c_event_of(event).event_type) ==> c_event_of(event).range_start == 0
            && c_event_of(event).range_end == 0,
        !(event is Pulling || event is PullError || event is PullTimeout || event is PullProgress
            || event is Pushing || event is PushError || event is PushProgress
            || event is Finished) ==> c_event_of(event).id == 0,
{
}

/// The callback record with the given fields.
pub open spec fn record(
    event_type: EventType,
    id: usize,
    message: Option<Seq<u8>>,
    range_start: u64,
    range_end: u64,
) -> CEventView {
    CEventView { event_type, id, message, range_start, range_end }
}

/// Law: each event becomes the record of its own kind; an event that names a
/// worker passes that worker's id on (others give 0), an error event passes
/// its message on as a C string, and an event that names a byte range passes
/// that range on (others give 0..0).
pub proof fn law_event_fields(id: usize, range: ProgressRange, e: Vec<u8>)
    ensures
        c_event_of(Event::PrefetchError(e)) == record(EventType::PrefetchError, 0, Some(or_empty(e@)), 0, 0),
        c_event_of(Event::Pulling(id)) == record(EventType::Pulling, id, None, 0, 0),
        c_event_of(Event::PullError(id, e)) == record(EventType::PullError, id, Some(or_empty(e@)), 0, 0),
        c_event_of(Event::PullTimeout(id)) == record(EventType::PullTimeout, id, None, 0, 0),
        c_event_of(Event::PullProgress(id, range)) == record(
            EventType::PullProgress,
            id,
            None,
            range.start,
            range.end,
        ),
        c_event_of(Event::Pushing(id, range)) == record(
            EventType::Pushing,
            id,
            None,
            range.start,
            range.end,
        ),
        c_event_of(Event::PushError(id, range, e)) == record(
            EventType::PushError,
            id,
            Some(or_empty(e@)),
            range.start,
            range.end,
        ),
        c_event_of(Event::PushProgress(id, range)) == record(
            EventType::PushProgress,
            id,
            None,
            range.start,
            range.end,
        ),
        c_event_of(Event::Flushing) == record(EventType::Flushing, 0, None, 0, 0),
        c_event_of(Event::FlushError(e)) == record(EventType::FlushError, 0, Some(or_empty(e@)), 0, 0),
        c_event_of(Event::Finished(id)) == record(EventType::Finished, id, None, 0, 0),
{
}

} // verus!
