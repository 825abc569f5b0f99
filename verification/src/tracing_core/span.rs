//! Spans of the classic agent.

use crate::common::system_time::{clock_reading, read_clock, TimePeriod};
use crate::tracing_core::log::LogEvent;
use crate::tracing_core::segment_ref::SegmentRef;
use crate::tracing_core::tag::Tag;
use vstd::prelude::*;

verus! {

/// The views of tags.
pub open spec fn tags_view(t: Seq<Tag>) -> Seq<(Seq<char>, Seq<char>)> {
    t.map_values(|x: Tag| x@)
}

/// The operations of a span.
pub trait Span {
    /// Start the span with the current system time
    fn start(&mut self);
    /// Start the span at `timestamp`, in milliseconds since the Unix epoch.
    fn start_with_timestamp(&mut self, timestamp: u64);
    /// Add a new tag to the span
    fn tag(&mut self, tag: Tag);
    /// Add a log event to the span
    fn log(&mut self, log: LogEvent);
    /// Indicate error occurred during the span execution.
    fn error_occurred(&mut self);
    /// Set the component id represented by this span.
    /// Component id is pre-definition in the SkyWalking OAP backend component-libraries.yml file.
    fn set_component_id(&mut self, component_id: i32);
    /// End the span with the current system time.
    /// End just means sealing the end time, still need to call Context::finish_span to officially finish span and archive it for further reporting.
    fn end(&mut self);
    /// End the span at `timestamp`, in milliseconds since the Unix epoch.
    fn end_with_timestamp(&mut self, timestamp: u64);
    /// Return true if the span has been set end time
    fn is_ended(&self) -> bool;
    /// Return true if the span is an entry span
    fn is_entry(&self) -> bool;
    /// Return true if the span is an exit span
    fn is_exit(&self) -> bool;
    /// Return span id.
    fn span_id(&self) -> i32;
    /// Return the replicated existing tags.
    fn tags(&self) -> Vec<Tag>;
}

/// The view of a [TracingSpan].
pub struct TracingSpanView {
    pub operation_name: Seq<char>,
    pub span_id: i32,
    pub parent_span_id: i32,
    pub start_time: u64,
    pub end_time: u64,
    pub is_entry: bool,
    pub is_exit: bool,
    pub peer: Option<Seq<char>>,
    pub error_occurred: bool,
    pub component_id: Option<i32>,
    pub tags: Seq<(Seq<char>, Seq<char>)>,
    pub logs: Seq<LogEvent>,
    pub refs: Seq<SegmentRef>,
}

/// A span: an operation of the traced process, its time, and what was
/// recorded of it.
pub struct TracingSpan {
    /// The operation name represents the logic process of this span
    operation_name: String,
    span_id: i32,
    parent_span_id: i32,
    /// The timestamp of the span start time
    start_time: u64,
    /// The timestamp of the span end time
    end_time: u64,
    /// As an entry span
    is_entry: bool,
    /// As an exit span
    is_exit: bool,
    /// The peer network address when as an RPC related span.
    /// Typically used in exit span, representing the target server address.
    peer: Option<String>,
    /// Tag this span in error status.
    error_occurred: bool,
    /// Component id is defined in the main repo to represent the library kind.
    component_id: Option<i32>,
    tags: Vec<Tag>,
    logs: Vec<LogEvent>,
    /// The references to the segments this span continues.
    refs: Vec<SegmentRef>,
}

impl View for TracingSpan {
    type V = TracingSpanView;

    closed spec fn view(&self) -> TracingSpanView {
        TracingSpanView {
            operation_name: self.operation_name@,
            span_id: self.span_id,
            parent_span_id: self.parent_span_id,
            start_time: self.start_time,
            end_time: self.end_time,
            is_entry: self.is_entry,
            is_exit: self.is_exit,
            peer: match self.peer {
                Some(p) => Some(p@),
                None => None,
            },
            error_occurred: self.error_occurred,
            component_id: self.component_id,
            tags: tags_view(self.tags@),
            logs: self.logs@,
            refs: self.refs@,
        }
    }
}

/// A span just created: no times, kind, peer, error, component, tags, logs or
/// references.
pub open spec fn fresh_span(operation_name: Seq<char>, span_id: i32, parent_span_id: i32) -> TracingSpanView {
    TracingSpanView {
        operation_name,
        span_id,
        parent_span_id,
        start_time: 0,
        end_time: 0,
        is_entry: false,
        is_exit: false,
        peer: None,
        error_occurred: false,
        component_id: None,
        tags: Seq::empty(),
        logs: Seq::empty(),
        refs: Seq::empty(),
    }
}

/// A clock reading in milliseconds taken where it is positive, else
/// `previous`.
pub open spec fn reading_or(t: i64, previous: u64) -> u64 {
    if t > 0 {
        t as u64
    } else {
        previous
    }
}

/// The milliseconds of the current time, or `previous` where the clock stands
/// before the epoch.
fn now_millis_or(previous: u64) -> (r: u64)
    ensures
        exists|t: i64| clock_reading(TimePeriod::Start, t) && r == #[trigger] reading_or(t, previous),
{
    let t = read_clock(TimePeriod::Start);
    let r = if t > 0 {
        t as u64
    } else {
        previous
    };
    assert(clock_reading(TimePeriod::Start, t) && r == reading_or(t, previous));
    r
}

impl TracingSpan {
    /// Create a new entry span
    pub fn new_entry_span(operation_name: String, span_id: i32, parent_span_id: i32) -> (r: TracingSpan)
        ensures
            r@ == (TracingSpanView { is_entry: true, ..fresh_span(operation_name@, span_id, parent_span_id) }),
    {
        let mut span = TracingSpan::_new(operation_name, span_id, parent_span_id);
        span.is_entry = true;
        span
    }

    /// Create a new exit span
    pub fn new_exit_span(operation_name: String, span_id: i32, parent_span_id: i32, peer: String) -> (r: TracingSpan)
        ensures
            r@ == (TracingSpanView {
                is_exit: true,
                peer: Some(peer@),
                ..fresh_span(operation_name@, span_id, parent_span_id)
            }),
    {
        let mut span = TracingSpan::_new(operation_name, span_id, parent_span_id);
        span.is_exit = true;
        span.peer = Some(peer);
        span
    }

    /// Create a new local span
    pub fn new_local_span(operation_name: String, span_id: i32, parent_span_id: i32) -> (r: TracingSpan)
        ensures
            r@ == fresh_span(operation_name@, span_id, parent_span_id),
    {
        TracingSpan::_new(operation_name, span_id, parent_span_id)
    }

    /// Create a span and set the limited internal values
    pub fn _new(operation_name: String, span_id: i32, parent_span_id: i32) -> (r: Self)
        ensures
            r@ == fresh_span(operation_name@, span_id, parent_span_id),
    {
        let r = TracingSpan {
            operation_name,
            span_id,
            parent_span_id,
            start_time: 0,
            end_time: 0,
            is_entry: false,
            is_exit: false,
            peer: None,
            error_occurred: false,
            component_id: None,
            tags: Vec::new(),
            logs: Vec::new(),
            refs: Vec::new(),
        };
        assert(tags_view(r.tags@) =~= Seq::<(Seq<char>, Seq<char>)>::empty());
        r
    }

    /// Add a reference to a segment this span continues.
    pub fn _add_ref(&mut self, reference: SegmentRef)
        ensures
            final(self)@ == (TracingSpanView { refs: old(self)@.refs.push(reference), ..old(self)@ }),
    {
        self.refs.push(reference);
    }

    /// The operation name.
    pub fn operation_name(&self) -> (r: &str)
        ensures
            r@ == self@.operation_name,
    {
        self.operation_name.as_str()
    }

    /// The id of the parent span.
    pub fn parent_span_id(&self) -> (r: i32)
        ensures
            r == self@.parent_span_id,
    {
        self.parent_span_id
    }

    /// The start time.
    pub fn start_time(&self) -> (r: u64)
        ensures
            r == self@.start_time,
    {
        self.start_time
    }

    /// The end time.
    pub fn end_time(&self) -> (r: u64)
        ensures
            r == self@.end_time,
    {
        self.end_time
    }

    /// The log events.
    pub fn logs(&self) -> (r: &Vec<LogEvent>)
        ensures
            r@ == self@.logs,
    {
        &self.logs
    }

    /// The references.
    pub fn refs(&self) -> (r: &Vec<SegmentRef>)
        ensures
            r@ == self@.refs,
    {
        &self.refs
    }
}

impl Span for TracingSpan {
    /// The start time becomes the clock's reading, where it is positive.
    fn start(&mut self)
        ensures
            exists|t: i64|
                clock_reading(TimePeriod::Start, t) && final(self)@ == (TracingSpanView {
                    start_time: #[trigger] reading_or(t, old(self)@.start_time),
                    ..old(self)@
                }),
    {
        let ghost previous = self.start_time;
        self.start_time = now_millis_or(self.start_time);
        proof {
            let t = choose|t: i64|
                clock_reading(TimePeriod::Start, t) && self.start_time == reading_or(t, previous);
            assert(self@ == (TracingSpanView {
                start_time: reading_or(t, old(self)@.start_time),
                ..old(self)@
            }));
        }
    }

    fn start_with_timestamp(&mut self, timestamp: u64)
        ensures
            final(self)@ == (TracingSpanView { start_time: timestamp, ..old(self)@ }),
    {
        self.start_time = timestamp;
    }

    fn tag(&mut self, tag: Tag)
        ensures
            final(self)@ == (TracingSpanView { tags: old(self)@.tags.push(tag@), ..old(self)@ }),
    {
        let ghost before = self.tags@;
        let ghost t = tag@;
        self.tags.push(tag);
        assert(tags_view(self.tags@) =~= tags_view(before).push(t));
    }

    fn log(&mut self, log: LogEvent)
        ensures
            final(self)@ == (TracingSpanView { logs: old(self)@.logs.push(log), ..old(self)@ }),
    {
        self.logs.push(log);
    }

    fn error_occurred(&mut self)
        ensures
            final(self)@ == (TracingSpanView { error_occurred: true, ..old(self)@ }),
    {
        self.error_occurred = true;
    }

    fn set_component_id(&mut self, component_id: i32)
        ensures
            final(self)@ == (TracingSpanView { component_id: Some(component_id), ..old(self)@ }),
    {
        self.component_id = Some(component_id);
    }

    /// The end time becomes the clock's reading, where it is positive, and
    /// else the start time.
    fn end(&mut self)
        ensures
            exists|t: i64|
                clock_reading(TimePeriod::Start, t) && final(self)@ == (TracingSpanView {
                    end_time: #[trigger] reading_or(t, old(self)@.start_time),
                    ..old(self)@
                }),
    {
        let ghost previous = self.start_time;
        self.end_time = now_millis_or(self.start_time);
        proof {
            let t = choose|t: i64|
                clock_reading(TimePeriod::Start, t) && self.end_time == reading_or(t, previous);
            assert(self@ == (TracingSpanView {
                end_time: reading_or(t, old(self)@.start_time),
                ..old(self)@
            }));
        }
    }

    fn end_with_timestamp(&mut self, timestamp: u64)
        ensures
            final(self)@ == (TracingSpanView { end_time: timestamp, ..old(self)@ }),
    {
        self.end_time = timestamp;
    }

    fn is_ended(&self) -> (r: bool)
        ensures
            r == (self@.end_time != 0),
    {
        self.end_time != 0
    }

    fn is_entry(&self) -> (r: bool)
        ensures
            r == self@.is_entry,
    {
        self.is_entry
    }

    fn is_exit(&self) -> (r: bool)
        ensures
            r == self@.is_exit,
    {
        self.is_exit
    }

    fn span_id(&self) -> (r: i32)
        ensures
            r == self@.span_id,
    {
        self.span_id
    }

    fn tags(&self) -> (r: Vec<Tag>)
        ensures
            tags_view(r@) == self@.tags,
    {
        let mut tags: Vec<Tag> = Vec::new();
        let mut i: usize = 0;
        while i < self.tags.len()
            invariant
                i <= self.tags@.len(),
                tags_view(tags@) == tags_view(self.tags@.take(i as int)),
            decreases self.tags@.len() - i,
        {
            let ghost before = tags@;
            tags.push(self.tags[i].clone());
            assert(tags_view(tags@) =~= tags_view(before).push(self.tags@[i as int]@));
            assert(self.tags@.take(i + 1).drop_last() =~= self.tags@.take(i as int));
            i = i + 1;
            assert(tags_view(self.tags@.take(i as int)) =~= tags_view(self.tags@.take(i - 1)).push(
                self.tags@[i - 1]@,
            ));
        }
        assert(self.tags@.take(self.tags@.len() as int) =~= self.tags@);
        tags
    }
}

} // verus!
