//! Log events of spans: a time and fields that describe the event.

use vstd::prelude::*;

verus! {

/// A field of a log event: a name and a value.
#[derive(Debug)]
pub struct EventField {
    name: String,
    value: String,
}

impl View for EventField {
    type V = (Seq<char>, Seq<char>);

    closed spec fn view(&self) -> (Seq<char>, Seq<char>) {
        (self.name@, self.value@)
    }
}

impl EventField {
    /// A field of the given name and value.
    pub fn new(name: String, value: String) -> (r: Self)
        ensures
            r@ == (name@, value@),
    {
        EventField { name, value }
    }

    /// The name.
    pub fn name(&self) -> (r: &str)
        ensures
            r@ == self@.0,
    {
        self.name.as_str()
    }

    /// The value.
    pub fn value(&self) -> (r: &str)
        ensures
            r@ == self@.1,
    {
        self.value.as_str()
    }
}

/// The views of event fields.
pub open spec fn fields_view(f: Seq<EventField>) -> Seq<(Seq<char>, Seq<char>)> {
    f.map_values(|e: EventField| e@)
}

/// A log event: its time, and any extra fields to describe the event.
#[derive(Debug)]
pub struct LogEvent {
    timestamp: i64,
    fields: Box<[EventField]>,
}

impl LogEvent {
    /// The time of the event.
    pub closed spec fn timestamp_view(&self) -> i64 {
        self.timestamp
    }

    /// The fields of the event.
    pub closed spec fn fields_view(&self) -> Seq<(Seq<char>, Seq<char>)> {
        fields_view(self.fields@)
    }

    /// An event at `timestamp` with the given fields.
    pub fn new(timestamp: i64, fields: Box<[EventField]>) -> (r: Self)
        ensures
            r.timestamp_view() == timestamp,
            r.fields_view() == fields_view(fields@),
    {
        LogEvent { timestamp, fields }
    }

    /// The time of the event.
    pub fn timestamp(&self) -> (r: i64)
        ensures
            r == self.timestamp_view(),
    {
        self.timestamp
    }

    /// The fields of the event.
    pub fn fields(&self) -> (r: &[EventField])
        ensures
            fields_view(r@) == self.fields_view(),
    {
        &self.fields
    }
}

} // verus!
