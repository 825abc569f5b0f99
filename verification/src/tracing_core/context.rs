//! The tracing context of the classic agent: it numbers the spans of a
//! segment and keeps them when they finish.

use crate::tracing_core::context_carrier::{Extractable, Injectable};
use crate::common::system_time::{clock_reading, TimePeriod};
use crate::tracing_core::context_listener::{answered, ask_instance_id, ContextListener};
use crate::tracing_core::id::{IDGenerator, ID};
use crate::common::strings::owned;
use crate::tracing_core::segment_ref::{from_text_spec, SegmentRef, SegmentRefType};
use crate::tracing_core::span::{fresh_span, Span, TracingSpan, TracingSpanView};
use vstd::prelude::*;

verus! {

/// The key of the header that carries the segment reference.
pub const SW6_HEADER_KEY: &'static str = "sw6";

/// `header` is what the extractor `e` gave back when asked for the `sw6`
/// header.
pub open spec fn sw6_header_of<E: Extractable>(e: &E, header: &str) -> bool {
    exists|key: String|
        key@ == SW6_HEADER_KEY@ && #[trigger] call_ensures(<E as Extractable>::extract, (e, key), header)
}

/// The references an entry span takes from the header text `header`: the
/// reference it reads as, or none where it does not read as one.
pub open spec fn refs_from_header(header: Seq<char>, refs: Seq<SegmentRef>) -> bool {
    match from_text_spec(header) {
        Some(v) => refs.len() == 1 && refs[0]@ == v,
        None => refs.len() == 0,
    }
}

/// The spans a context creates and finishes.
pub trait Context {
    /// One more span id is left.
    spec fn can_create_span(&self) -> bool;

    /// Create an entry span belonging this context
    fn create_entry_span<E: Extractable>(
        &mut self,
        operation_name: String,
        parent: Option<&TracingSpan>,
        extractor: &E,
    ) -> TracingSpan
        requires
            old(self).can_create_span(),
    ;

    /// Create an exit span belonging this context
    fn create_exit_span<I: Injectable>(
        &mut self,
        operation_name: String,
        parent: Option<&TracingSpan>,
        peer: String,
        injector: &I,
    ) -> TracingSpan
        requires
            old(self).can_create_span(),
    ;

    /// Create an local span belonging this context
    fn create_local_span(&mut self, operation_name: String, parent: Option<&TracingSpan>) -> TracingSpan
        requires
            old(self).can_create_span(),
    ;

    /// Finish the given span. The span is only being accept if it belongs to this context.
    /// Return err if the span was created by another context.
    fn finish_span(&mut self, span: TracingSpan);
}

/// The view of a [TracingContext].
pub struct TracingContextView {
    /// The id of the span created last; -1 before the first.
    pub next_seq: int,
    pub primary_trace_id: ID,
    /// The trace id is still the one generated here, not taken from a
    /// reference.
    pub self_generated_id: bool,
    pub finished_spans: Seq<TracingSpanView>,
}

/// The views of spans.
pub open spec fn spans_view(s: Seq<TracingSpan>) -> Seq<TracingSpanView> {
    s.map_values(|x: TracingSpan| x@)
}

/// The id of the parent of a span: that of `parent`, or -1.
pub open spec fn parent_id(parent: Option<&TracingSpan>) -> i32 {
    match parent {
        Some(p) => p@.span_id,
        None => -1i32,
    }
}

/// A segment of the classic agent: its trace id, and its finished spans.
pub struct TracingContext {
    /// Span id sequence. Indicate the number of created spans.
    next_seq: i32,
    primary_trace_id: ID,
    self_generated_id: bool,
    finished_spans: Vec<TracingSpan>,
}

impl View for TracingContext {
    type V = TracingContextView;

    closed spec fn view(&self) -> TracingContextView {
        TracingContextView {
            next_seq: self.next_seq as int,
            primary_trace_id: self.primary_trace_id,
            self_generated_id: self.self_generated_id,
            finished_spans: spans_view(self.finished_spans@),
        }
    }
}

impl TracingContext {
    /// Create a new instance: `None` where the listener has not registered
    /// the service instance; else a context with a trace id generated for the
    /// instance, and no spans.
    pub fn new<L: ContextListener>(reporter: &L) -> (r: Option<TracingContext>)
        ensures
            r matches Some(c) ==> c@.next_seq == -1 && c@.self_generated_id
                && c@.finished_spans.len() == 0,
            exists|answer: Option<i32>|
                #[trigger] answered(reporter, answer) && (r is Some <==> answer is Some) && (r matches Some(
                    c,
                ) ==> c@.primary_trace_id.spec_part1() == answer->0 && c@.primary_trace_id.spec_part3()
                    == 0),
    {
        TracingContext::from_instance_id(ask_instance_id(reporter))
    }

    /// The context for what the listener answered of the service instance:
    /// none where it is not registered; else a context with a trace id
    /// generated for the instance, and no spans.
    pub fn from_instance_id(instance_id: Option<i32>) -> (r: Option<TracingContext>)
        ensures
            r is Some <==> instance_id is Some,
            r matches Some(c) ==> c@.next_seq == -1 && c@.self_generated_id
                && c@.finished_spans.len() == 0 && c@.primary_trace_id.spec_part1()
                == instance_id->0 && c@.primary_trace_id.spec_part3() == 0,
            r matches Some(c) ==> clock_reading(TimePeriod::Start, c@.primary_trace_id.spec_part2()),
    {
        match instance_id {
            None => None,
            Some(id) => Some(TracingContext::with_trace_id(IDGenerator::new_id(id))),
        }
    }

    /// A context with the given generated trace id, and no spans.
    pub fn with_trace_id(primary_trace_id: ID) -> (r: TracingContext)
        ensures
            r@ == (TracingContextView {
                next_seq: -1,
                primary_trace_id,
                self_generated_id: true,
                finished_spans: Seq::empty(),
            }),
    {
        let r = TracingContext {
            next_seq: -1,
            primary_trace_id,
            self_generated_id: true,
            finished_spans: Vec::new(),
        };
        assert(spans_view(r.finished_spans@) =~= Seq::<TracingSpanView>::empty());
        r
    }

    /// One more span id is left.
    pub fn has_span_ids_left(&self) -> (r: bool)
        ensures
            r == (self@.next_seq < i32::MAX),
    {
        self.next_seq < i32::MAX
    }

    /// The trace id.
    pub fn primary_trace_id(&self) -> (r: ID)
        ensures
            r == self@.primary_trace_id,
    {
        self.primary_trace_id
    }

    /// The finished spans, in the order they finished.
    pub fn finished_spans(&self) -> (r: &Vec<TracingSpan>)
        ensures
            spans_view(r@) == self@.finished_spans,
    {
        &self.finished_spans
    }

    /// Fetch the next id for new span
    fn next_span_id(&mut self) -> (r: i32)
        requires
            old(self)@.next_seq < i32::MAX,
        ensures
            r == old(self)@.next_seq + 1,
            final(self)@ == (TracingContextView { next_seq: old(self)@.next_seq + 1, ..old(self)@ }),
    {
        self.next_seq = self.next_seq + 1;
        self.next_seq
    }

    /// An entry span named `operation_name` under the span `parent_span_id`
    /// (-1 for none). Where an extractor is given and its `sw6` header reads
    /// as a reference, the span takes the reference, and the first such
    /// reference gives the context its trace id.
    pub fn entry_span<E: Extractable>(
        &mut self,
        operation_name: String,
        parent_span_id: i32,
        extractor: Option<&E>,
    ) -> (r: TracingSpan)
        requires
            old(self)@.next_seq < i32::MAX,
        ensures
            entry_span_created(old(self)@, final(self)@, r@, operation_name@, parent_span_id),
            extractor is None ==> r@.refs.len() == 0,
            extractor matches Some(e) ==> exists|header: &str|
                #[trigger] sw6_header_of(e, header) && refs_from_header(header@, r@.refs),
    {
        let id = self.next_span_id();
        let mut entry_span = TracingSpan::new_entry_span(operation_name, id, parent_span_id);
        if let Some(extractor) = extractor {
            let key = owned(SW6_HEADER_KEY);
            let ghost asked = key;
            let extract = <E as Extractable>::extract;
            let header = extract(extractor, key);
            assert(sw6_header_of(extractor, header));
            match SegmentRef::from_text(header) {
                Some(reference) => {
                    if self.self_generated_id {
                        self.self_generated_id = false;
                        self.primary_trace_id = reference.get_trace_id();
                    }
                    entry_span._add_ref(reference);
                },
                _ => {},
            }
        }
        entry_span
    }

    /// A local span named `operation_name` under the span `parent_span_id`
    /// (-1 for none).
    pub fn local_span(&mut self, operation_name: String, parent_span_id: i32) -> (r: TracingSpan)
        requires
            old(self)@.next_seq < i32::MAX,
        ensures
            r@ == fresh_span(operation_name@, (old(self)@.next_seq + 1) as i32, parent_span_id),
            final(self)@ == (TracingContextView { next_seq: old(self)@.next_seq + 1, ..old(self)@ }),
    {
        let id = self.next_span_id();
        TracingSpan::new_local_span(operation_name, id, parent_span_id)
    }
}

/// `r` is the entry span that context `before` creates, named
/// `operation_name` under `parent_span_id`, and `after` the context then: the
/// span has the next id and at most the reference of the header; a reference
/// replaces the generated trace id, once.
pub open spec fn entry_span_created(
    before: TracingContextView,
    after: TracingContextView,
    r: TracingSpanView,
    operation_name: Seq<char>,
    parent_span_id: i32,
) -> bool {
    &&& r.refs.len() <= 1
    &&& r == (TracingSpanView {
        is_entry: true,
        refs: r.refs,
        ..fresh_span(operation_name, (before.next_seq + 1) as i32, parent_span_id)
    })
    &&& after.next_seq == before.next_seq + 1
    &&& after.finished_spans == before.finished_spans
    &&& r.refs.len() == 1 ==> r.refs[0]@.ref_type == SegmentRefType::CROSS_PROCESS
    &&& if r.refs.len() == 1 && before.self_generated_id {
        !after.self_generated_id && after.primary_trace_id == r.refs[0]@.trace_id
    } else {
        after.self_generated_id == before.self_generated_id && after.primary_trace_id
            == before.primary_trace_id
    }
}

impl Context for TracingContext {
    open spec fn can_create_span(&self) -> bool {
        self@.next_seq < i32::MAX
    }

    /// The entry span takes the reference in the `sw6` header, where it reads;
    /// the first such reference gives the context its trace id.
    fn create_entry_span<E: Extractable>(
        &mut self,
        operation_name: String,
        parent: Option<&TracingSpan>,
        extractor: &E,
    ) -> (r: TracingSpan)
        ensures
            entry_span_created(old(self)@, final(self)@, r@, operation_name@, parent_id(parent)),
            exists|header: &str| #[trigger] sw6_header_of(extractor, header) && refs_from_header(header@, r@.refs),
    {
        let parent_span_id = match parent {
            None => -1,
            Some(s) => s.span_id(),
        };
        self.entry_span(operation_name, parent_span_id, Some(extractor))
    }

    fn create_exit_span<I: Injectable>(
        &mut self,
        operation_name: String,
        parent: Option<&TracingSpan>,
        peer: String,
        injector: &I,
    ) -> (r: TracingSpan)
        ensures
            r@ == (TracingSpanView {
                is_exit: true,
                peer: Some(peer@),
                ..fresh_span(operation_name@, (old(self)@.next_seq + 1) as i32, parent_id(parent))
            }),
            final(self)@ == (TracingContextView { next_seq: old(self)@.next_seq + 1, ..old(self)@ }),
    {
        let _ = injector;
        let parent_span_id = match parent {
            None => -1,
            Some(s) => s.span_id(),
        };
        let id = self.next_span_id();
        TracingSpan::new_exit_span(operation_name, id, parent_span_id, peer)
    }

    fn create_local_span(&mut self, operation_name: String, parent: Option<&TracingSpan>) -> (r: TracingSpan)
        ensures
            r@ == fresh_span(operation_name@, (old(self)@.next_seq + 1) as i32, parent_id(parent)),
            final(self)@ == (TracingContextView { next_seq: old(self)@.next_seq + 1, ..old(self)@ }),
    {
        let parent_span_id = match parent {
            None => -1,
            Some(s) => s.span_id(),
        };
        self.local_span(operation_name, parent_span_id)
    }

    /// The span is ended, where it is not yet, and kept with the finished
    /// spans.
    fn finish_span(&mut self, span: TracingSpan)
        ensures
            final(self)@.next_seq == old(self)@.next_seq,
            final(self)@.primary_trace_id == old(self)@.primary_trace_id,
            final(self)@.self_generated_id == old(self)@.self_generated_id,
            final(self)@.finished_spans.len() == old(self)@.finished_spans.len() + 1,
            final(self)@.finished_spans.drop_last() == old(self)@.finished_spans,
            span@.end_time != 0 ==> final(self)@.finished_spans.last() == span@,
            span@.end_time == 0 ==> final(self)@.finished_spans.last() == (TracingSpanView {
                end_time: final(self)@.finished_spans.last().end_time,
                ..span@
            }),
    {
        let mut span = span;
        if !span.is_ended() {
            span.end();
        }
        let ghost before = self.finished_spans@;
        let ghost sv = span@;
        self.finished_spans.push(span);
        assert(spans_view(self.finished_spans@) =~= spans_view(before).push(sv));
        assert(spans_view(self.finished_spans@).drop_last() =~= spans_view(before));
    }
}

} // verus!
