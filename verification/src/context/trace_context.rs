//! The tracing context of the `context` API: spans are created on an active
//! stack, addressed by their place in it, and archived when they finish.

use crate::common::random_generator::{fresh_id, is_lower_hex, new_id};
use crate::common::strings::owned;
use crate::common::system_time::{clock_reading, read_clock, TimePeriod};
use crate::context::span::Span;
use crate::proto::v3::{
    logs_view, pairs_view, refs_view, spans_view, LogView, RefType, SegmentObject, SegmentObjectView, SegmentReference,
    SegmentReferenceView, SpanLayer, SpanObject, SpanObjectView, SpanType,
};
use crate::trace::propagation::context::PropagationContext;
use crate::trace::span::{new_span_view, SKYWALKING_RUST_COMPONENT_ID};
use crate::trace::trace_context::ContextSnapshotView;
use vstd::prelude::*;

verus! {

/// The view of a [TracingContext].
pub struct TracingContextView {
    pub trace_id: Seq<char>,
    pub trace_segment_id: Seq<char>,
    pub service: Seq<char>,
    pub service_instance: Seq<char>,
    /// The span id that the next span gets; also the number of spans created.
    pub next_span_id: int,
    /// The span objects of the spans created and not yet finished, the
    /// innermost last.
    pub active: Seq<SpanObjectView>,
    /// The span objects of the finished spans, in the order they finished.
    pub finalized: Seq<SpanObjectView>,
    /// The operation name of the span created last.
    pub primary_endpoint_name: Seq<char>,
}

impl TracingContextView {
    /// The span id of the active span, or -1 without one.
    pub open spec fn top_span_id(self) -> int {
        if self.active.len() > 0 {
            self.active.last().span_id as int
        } else {
            -1
        }
    }

    /// The context once `obj` became the active span.
    pub open spec fn with_span(self, obj: SpanObjectView) -> TracingContextView {
        TracingContextView {
            next_span_id: self.next_span_id + 1,
            active: self.active.push(obj),
            primary_endpoint_name: obj.operation_name,
            ..self
        }
    }

    /// The span object that a new span of this kind gets, as the next span.
    pub open spec fn next_span(
        self,
        operation_name: Seq<char>,
        remote_peer: Seq<char>,
        span_type: SpanType,
        span_layer: SpanLayer,
        start_time: i64,
    ) -> SpanObjectView {
        new_span_view(
            self.next_span_id as i32,
            self.top_span_id() as i32,
            operation_name,
            remote_peer,
            span_type,
            span_layer,
            false,
            start_time,
        )
    }

    /// The context once the active span finished at `end_time`: its object,
    /// with the end time, is archived.
    pub open spec fn after_finish(self, end_time: i64) -> TracingContextView {
        TracingContextView {
            active: self.active.drop_last(),
            finalized: self.finalized.push(SpanObjectView { end_time, ..self.active.last() }),
            ..self
        }
    }

    /// The context whose span at `index` in the active stack is now `obj`.
    pub open spec fn with_active_at(self, index: int, obj: SpanObjectView) -> TracingContextView {
        TracingContextView { active: self.active.update(index, obj), ..self }
    }
}

/// The cross-process reference that an entry span created with `p` gets in
/// a context of trace `trace_id`.
pub open spec fn propagated_reference(trace_id: Seq<char>, p: &PropagationContext) -> SegmentReferenceView {
    SegmentReferenceView {
        ref_type: RefType::CrossProcess.spec_value(),
        trace_id,
        parent_trace_segment_id: p.parent_trace_segment_id@,
        parent_span_id: p.parent_span_id,
        parent_service: p.parent_service@,
        parent_service_instance: p.parent_service_instance@,
        parent_endpoint: p.destination_endpoint@,
        network_address_used_at_peer: p.destination_address@,
    }
}

/// The cross-thread reference that snapshot `s` gives in context `v`.
pub open spec fn thread_reference(v: TracingContextView, s: ContextSnapshotView) -> SegmentReferenceView {
    SegmentReferenceView {
        ref_type: RefType::CrossThread.spec_value(),
        trace_id: s.trace_id,
        parent_trace_segment_id: s.trace_segment_id,
        parent_span_id: s.span_id,
        parent_service: v.service,
        parent_service_instance: v.service_instance,
        parent_endpoint: s.parent_endpoint,
        network_address_used_at_peer: Seq::empty(),
    }
}

/// The context `v` continued from the snapshot `s`: for a valid snapshot it
/// takes the snapshot's trace id, and the active span, if any, gets the
/// cross-thread reference.
pub open spec fn continued_view(v: TracingContextView, s: ContextSnapshotView) -> TracingContextView {
    if s.is_valid() {
        TracingContextView {
            trace_id: s.trace_id,
            active: if v.active.len() > 0 {
                v.active.update(
                    v.active.len() - 1,
                    SpanObjectView {
                        refs: v.active.last().refs.push(thread_reference(v, s)),
                        ..v.active.last()
                    },
                )
            } else {
                v.active
            },
            ..v
        }
    } else {
        v
    }
}

/// The tracing context of the `context` API.
#[derive(Debug)]
pub struct TracingContext {
    trace_id: String,
    trace_segment_id: String,
    service: String,
    service_instance: String,
    next_span_id: i32,
    active: Vec<SpanObject>,
    finalized: Vec<SpanObject>,
    primary_endpoint_name: String,
}

impl View for TracingContext {
    type V = TracingContextView;

    closed spec fn view(&self) -> TracingContextView {
        TracingContextView {
            trace_id: self.trace_id@,
            trace_segment_id: self.trace_segment_id@,
            service: self.service@,
            service_instance: self.service_instance@,
            next_span_id: self.next_span_id as int,
            active: spans_view(self.active@),
            finalized: spans_view(self.finalized@),
            primary_endpoint_name: self.primary_endpoint_name@,
        }
    }
}

impl TracingContext {
    /// A context of the given ids, with no spans yet.
    pub fn with_ids(service_name: &str, instance_name: &str, trace_id: String, trace_segment_id: String) -> (r: Self)
        ensures
            r@ == (TracingContextView {
                trace_id: trace_id@,
                trace_segment_id: trace_segment_id@,
                service: service_name@,
                service_instance: instance_name@,
                next_span_id: 0,
                active: Seq::empty(),
                finalized: Seq::empty(),
                primary_endpoint_name: Seq::empty(),
            }),
    {
        let r = TracingContext {
            trace_id,
            trace_segment_id,
            service: owned(service_name),
            service_instance: owned(instance_name),
            next_span_id: 0,
            active: Vec::new(),
            finalized: Vec::new(),
            primary_endpoint_name: String::new(),
        };
        assert(spans_view(r.active@) =~= Seq::<SpanObjectView>::empty());
        assert(spans_view(r.finalized@) =~= Seq::<SpanObjectView>::empty());
        r
    }

    /// Generate a new trace context, with fresh random trace and segment ids.
    pub fn new(service_name: &str, instance_name: &str) -> (r: Self)
        ensures
            r@.trace_id.len() == 32,
            r@.trace_segment_id.len() == 32,
            forall|i: int| 0 <= i < 32 ==> is_lower_hex(#[trigger] r@.trace_id[i]),
            forall|i: int| 0 <= i < 32 ==> is_lower_hex(#[trigger] r@.trace_segment_id[i]),
            fresh_id(r@.trace_id),
            fresh_id(r@.trace_segment_id),
            r@.service == service_name@,
            r@.service_instance == instance_name@,
            r@.next_span_id == 0,
            r@.active == Seq::<SpanObjectView>::empty(),
            r@.finalized == Seq::<SpanObjectView>::empty(),
            r@.primary_endpoint_name == Seq::<char>::empty(),
    {
        let trace_id = new_id();
        let trace_segment_id = new_id();
        Self::with_ids(service_name, instance_name, trace_id, trace_segment_id)
    }

    /// Get trace id.
    pub fn trace_id(&self) -> (r: &str)
        ensures
            r@ == self@.trace_id,
    {
        self.trace_id.as_str()
    }

    /// Get trace segment id.
    pub fn trace_segment_id(&self) -> (r: &str)
        ensures
            r@ == self@.trace_segment_id,
    {
        self.trace_segment_id.as_str()
    }

    /// Get service name.
    pub fn service(&self) -> (r: &str)
        ensures
            r@ == self@.service,
    {
        self.service.as_str()
    }

    /// Get service instance.
    pub fn service_instance(&self) -> (r: &str)
        ensures
            r@ == self@.service_instance,
    {
        self.service_instance.as_str()
    }

    /// The span object of the span finished last, if any.
    pub fn last_span(&self) -> (r: Option<SpanObject>)
        ensures
            self@.finalized.len() == 0 ==> r is None,
            self@.finalized.len() > 0 ==> (r matches Some(o) && o@ == self@.finalized.last()),
    {
        let n = self.finalized.len();
        if n == 0 {
            None
        } else {
            Some(self.finalized[n - 1].clone())
        }
    }

    /// The span id of the active span, if any.
    pub fn peek_active_span_id(&self) -> (r: Option<i32>)
        ensures
            self@.active.len() == 0 ==> r is None,
            self@.active.len() > 0 ==> r == Some(self@.active.last().span_id),
    {
        let n = self.active.len();
        if n == 0 {
            None
        } else {
            Some(self.active[n - 1].span_id)
        }
    }

    /// Push `span` as the active span, its operation name the primary
    /// endpoint name; the span id counter moves on.
    fn push_active_span(&mut self, span: SpanObject) -> (r: Span)
        requires
            old(self)@.next_span_id < i32::MAX,
            0 <= old(self)@.next_span_id,
        ensures
            final(self)@ == old(self)@.with_span(span@),
            r.spec_index() == old(self)@.active.len(),
    {
        self.next_span_id = self.next_span_id + 1;
        self.primary_endpoint_name = span.operation_name.clone();
        let ghost before = self.active@;
        self.active.push(span);
        assert(spans_view(self.active@) =~= spans_view(before).push(span@));
        Span::new(self.active.len() - 1)
    }

    /// Create a span of the given kind as the active span, its start at
    /// `start_time`.
    fn create_span_at(
        &mut self,
        operation_name: &str,
        remote_peer: &str,
        span_type: SpanType,
        span_layer: SpanLayer,
        start_time: i64,
    ) -> (r: Span)
        requires
            0 <= old(self)@.next_span_id < i32::MAX,
        ensures
            final(self)@ == old(self)@.with_span(
                old(self)@.next_span(operation_name@, remote_peer@, span_type, span_layer, start_time),
            ),
            r.spec_index() == old(self)@.active.len(),
    {
        let parent_span_id = match self.peek_active_span_id() {
            Some(id) => id,
            None => -1,
        };
        let obj = SpanObject {
            span_id: self.next_span_id,
            parent_span_id,
            start_time,
            end_time: 0,
            refs: Vec::new(),
            operation_name: owned(operation_name),
            peer: owned(remote_peer),
            span_type: span_type.value(),
            span_layer: span_layer.value(),
            component_id: SKYWALKING_RUST_COMPONENT_ID,
            is_error: false,
            tags: Vec::new(),
            logs: Vec::new(),
            skip_analysis: false,
        };
        assert(refs_view(obj.refs@) =~= Seq::<SegmentReferenceView>::empty());
        assert(pairs_view(obj.tags@) =~= Seq::<(Seq<char>, Seq<char>)>::empty());
        assert(logs_view(obj.logs@) =~= Seq::<LogView>::empty());
        assert(obj@ == old(self)@.next_span(operation_name@, remote_peer@, span_type, span_layer, start_time));
        self.push_active_span(obj)
    }

    /// Create a new entry span, which is an initiator of collection of spans,
    /// its start at `start_time`; its layer is HTTP.
    pub fn create_entry_span_at(&mut self, operation_name: &str, start_time: i64) -> (r: Span)
        requires
            0 <= old(self)@.next_span_id < i32::MAX,
        ensures
            final(self)@ == old(self)@.with_span(
                old(self)@.next_span(operation_name@, Seq::empty(), SpanType::Entry, SpanLayer::Http, start_time),
            ),
            r.spec_index() == old(self)@.active.len(),
    {
        proof {
            reveal_strlit("");
            assert(""@ =~= Seq::<char>::empty());
        }
        self.create_span_at(operation_name, "", SpanType::Entry, SpanLayer::Http, start_time)
    }

    /// Create a new entry span at the current time.
    pub fn create_entry_span(&mut self, operation_name: &str) -> (r: Span)
        requires
            0 <= old(self)@.next_span_id < i32::MAX,
        ensures
            exists|start_time: i64|
                clock_reading(TimePeriod::Start, start_time) && final(self)@ == old(self)@.with_span(
                    #[trigger] old(self)@.next_span(operation_name@, Seq::empty(), SpanType::Entry, SpanLayer::Http, start_time),
                ),
            r.spec_index() == old(self)@.active.len(),
    {
        let t = read_clock(TimePeriod::Start);
        self.create_entry_span_at(operation_name, t)
    }

    /// Create a new entry span, its start at `start_time`, carrying a
    /// cross-process reference to the propagated parent.
    pub fn create_entry_span_with_propagation_at(
        &mut self,
        operation_name: &str,
        propagation: &PropagationContext,
        start_time: i64,
    ) -> (r: Span)
        requires
            0 <= old(self)@.next_span_id < i32::MAX,
        ensures
            final(self)@ == old(self)@.with_span(
                SpanObjectView {
                    refs: seq![propagated_reference(old(self)@.trace_id, propagation)],
                    ..old(self)@.next_span(operation_name@, Seq::empty(), SpanType::Entry, SpanLayer::Http, start_time)
                },
            ),
            r.spec_index() == old(self)@.active.len(),
    {
        let span = self.create_entry_span_at(operation_name, start_time);
        let reference = SegmentReference {
            ref_type: RefType::CrossProcess.value(),
            trace_id: self.trace_id.clone(),
            parent_trace_segment_id: propagation.parent_trace_segment_id.clone(),
            parent_span_id: propagation.parent_span_id,
            parent_service: propagation.parent_service.clone(),
            parent_service_instance: propagation.parent_service_instance.clone(),
            parent_endpoint: propagation.destination_endpoint.clone(),
            network_address_used_at_peer: propagation.destination_address.clone(),
        };
        let ghost mid = self@;
        assert(self.active@.len() == mid.active.len());
        let n = self.active.len();
        let mut top = self.active.pop().unwrap();
        let ghost before = top.refs@;
        top.refs.push(reference);
        assert(refs_view(top.refs@) =~= refs_view(before).push(reference@));
        self.active.push(top);
        assert(spans_view(self.active@) =~= mid.active.update(n - 1, top@));
        proof {
            let o = old(self)@;
            let fresh = o.next_span(operation_name@, Seq::empty(), SpanType::Entry, SpanLayer::Http, start_time);
            assert(reference@ == propagated_reference(o.trace_id, propagation));
            assert(fresh.refs.push(reference@) =~= seq![propagated_reference(o.trace_id, propagation)]);
            assert(mid.active[n - 1] == fresh);
            assert(top@ == SpanObjectView { refs: seq![propagated_reference(o.trace_id, propagation)], ..fresh });
            assert(self@.active =~= o.with_span(
                SpanObjectView { refs: seq![propagated_reference(o.trace_id, propagation)], ..fresh },
            ).active);
        }
        span
    }

    /// Create a new entry span at the current time, carrying a cross-process
    /// reference to the propagated parent.
    pub fn create_entry_span_with_propagation(
        &mut self,
        operation_name: &str,
        propagation: &PropagationContext,
    ) -> (r: Span)
        requires
            0 <= old(self)@.next_span_id < i32::MAX,
        ensures
            exists|start_time: i64|
                clock_reading(TimePeriod::Start, start_time) && final(self)@ == old(self)@.with_span(
                    SpanObjectView {
                        refs: seq![propagated_reference(old(self)@.trace_id, propagation)],
                        ..#[trigger] old(self)@.next_span(operation_name@, Seq::empty(), SpanType::Entry, SpanLayer::Http, start_time)
                    },
                ),
            r.spec_index() == old(self)@.active.len(),
    {
        let t = read_clock(TimePeriod::Start);
        self.create_entry_span_with_propagation_at(operation_name, propagation, t)
    }

    /// Create a new exit span, to a remote peer, its start at `start_time`;
    /// its layer is HTTP. An entry span must have been created before.
    pub fn create_exit_span_at(&mut self, operation_name: &str, remote_peer: &str, start_time: i64) -> (r: Span)
        requires
            0 < old(self)@.next_span_id < i32::MAX,
        ensures
            final(self)@ == old(self)@.with_span(
                old(self)@.next_span(operation_name@, remote_peer@, SpanType::Exit, SpanLayer::Http, start_time),
            ),
            r.spec_index() == old(self)@.active.len(),
    {
        self.create_span_at(operation_name, remote_peer, SpanType::Exit, SpanLayer::Http, start_time)
    }

    /// Create a new exit span at the current time. An entry span must have
    /// been created before.
    pub fn create_exit_span(&mut self, operation_name: &str, remote_peer: &str) -> (r: Span)
        requires
            0 < old(self)@.next_span_id < i32::MAX,
        ensures
            exists|start_time: i64|
                clock_reading(TimePeriod::Start, start_time) && final(self)@ == old(self)@.with_span(
                    #[trigger] old(self)@.next_span(operation_name@, remote_peer@, SpanType::Exit, SpanLayer::Http, start_time),
                ),
            r.spec_index() == old(self)@.active.len(),
    {
        let t = read_clock(TimePeriod::Start);
        self.create_exit_span_at(operation_name, remote_peer, t)
    }

    /// Create a new local span, its start at `start_time`. An entry span must
    /// have been created before.
    pub fn create_local_span_at(&mut self, operation_name: &str, start_time: i64) -> (r: Span)
        requires
            0 < old(self)@.next_span_id < i32::MAX,
        ensures
            final(self)@ == old(self)@.with_span(
                old(self)@.next_span(operation_name@, Seq::empty(), SpanType::Local, SpanLayer::Unknown, start_time),
            ),
            r.spec_index() == old(self)@.active.len(),
    {
        proof {
            reveal_strlit("");
            assert(""@ =~= Seq::<char>::empty());
        }
        self.create_span_at(operation_name, "", SpanType::Local, SpanLayer::Unknown, start_time)
    }

    /// Create a new local span at the current time. An entry span must have
    /// been created before.
    pub fn create_local_span(&mut self, operation_name: &str) -> (r: Span)
        requires
            0 < old(self)@.next_span_id < i32::MAX,
        ensures
            exists|start_time: i64|
                clock_reading(TimePeriod::Start, start_time) && final(self)@ == old(self)@.with_span(
                    #[trigger] old(self)@.next_span(operation_name@, Seq::empty(), SpanType::Local, SpanLayer::Unknown, start_time),
                ),
            r.spec_index() == old(self)@.active.len(),
    {
        let t = read_clock(TimePeriod::Start);
        self.create_local_span_at(operation_name, t)
    }

    /// Finish `span` at `end_time`: the active span leaves the stack and its
    /// object, with the end time, is archived. `span` must be the active span
    /// (no span above it on the stack).
    pub fn finalize_span_at(&mut self, span: Span, end_time: i64)
        requires
            old(self)@.active.len() > 0,
            old(self)@.active.len() <= span.spec_index() + 1,
        ensures
            final(self)@ == old(self)@.after_finish(end_time),
    {
        let _ = span;
        let ghost before = self.active@;
        let mut obj = self.active.pop().unwrap();
        assert(spans_view(self.active@) =~= spans_view(before).drop_last());
        obj.end_time = end_time;
        let ghost fin = self.finalized@;
        self.finalized.push(obj);
        assert(spans_view(self.finalized@) =~= spans_view(fin).push(obj@));
    }

    /// Finish `span` at the current time. `span` must be the active span.
    pub fn finalize_span(&mut self, span: Span)
        requires
            old(self)@.active.len() > 0,
            old(self)@.active.len() <= span.spec_index() + 1,
        ensures
            exists|end_time: i64|
                clock_reading(TimePeriod::End, end_time) && final(self)@ == #[trigger] old(self)@.after_finish(end_time),
    {
        let t = read_clock(TimePeriod::End);
        self.finalize_span_at(span, t);
    }

    /// Capture a snapshot for cross-thread propagation.
    pub fn capture(&self) -> (r: ContextSnapshot)
        ensures
            r@ == (ContextSnapshotView {
                trace_id: self@.trace_id,
                trace_segment_id: self@.trace_segment_id,
                span_id: self@.top_span_id() as i32,
                parent_endpoint: self@.primary_endpoint_name,
            }),
    {
        ContextSnapshot {
            trace_id: self.trace_id.clone(),
            trace_segment_id: self.trace_segment_id.clone(),
            span_id: match self.peek_active_span_id() {
                Some(id) => id,
                None => -1,
            },
            parent_endpoint: self.primary_endpoint_name.clone(),
        }
    }

    /// Build the reference between this segment and a cross-thread segment.
    pub fn continued(&mut self, snapshot: ContextSnapshot)
        ensures
            final(self)@ == continued_view(old(self)@, snapshot@),
    {
        if snapshot.is_valid() {
            self.trace_id = snapshot.trace_id.clone();
            let segment_ref = SegmentReference {
                ref_type: RefType::CrossThread.value(),
                trace_id: snapshot.trace_id,
                parent_trace_segment_id: snapshot.trace_segment_id,
                parent_span_id: snapshot.span_id,
                parent_service: self.service.clone(),
                parent_service_instance: self.service_instance.clone(),
                parent_endpoint: snapshot.parent_endpoint,
                network_address_used_at_peer: String::new(),
            };
            let n = self.active.len();
            if n > 0 {
                let ghost before = self.active@;
                let mut top = self.active.pop().unwrap();
                let ghost refs = top.refs@;
                top.refs.push(segment_ref);
                assert(refs_view(top.refs@) =~= refs_view(refs).push(segment_ref@));
                self.active.push(top);
                assert(spans_view(self.active@) =~= spans_view(before).update(n - 1, top@));
            }
        }
    }

    /// Convert the context into the segment object to report: the finished
    /// spans are taken, so the context holds none after.
    pub fn convert_segment_object(&mut self) -> (r: SegmentObject)
        ensures
            r@ == (SegmentObjectView {
                trace_id: old(self)@.trace_id,
                trace_segment_id: old(self)@.trace_segment_id,
                spans: old(self)@.finalized,
                service: old(self)@.service,
                service_instance: old(self)@.service_instance,
                is_size_limited: false,
            }),
            final(self)@ == (TracingContextView { finalized: Seq::empty(), ..old(self)@ }),
    {
        let mut spans: Vec<SpanObject> = Vec::new();
        std::mem::swap(&mut spans, &mut self.finalized);
        assert(spans_view(self.finalized@) =~= Seq::<SpanObjectView>::empty());
        SegmentObject {
            trace_id: self.trace_id.clone(),
            trace_segment_id: self.trace_segment_id.clone(),
            spans,
            service: self.service.clone(),
            service_instance: self.service_instance.clone(),
            is_size_limited: false,
        }
    }

    /// The span object at `index` in the active stack.
    pub fn active_span_object(&self, index: usize) -> (r: &SpanObject)
        requires
            index < self@.active.len(),
        ensures
            r@ == self@.active[index as int],
    {
        &self.active[index]
    }

    /// Replace the span object at `index` in the active stack, giving back
    /// the former one.
    pub fn replace_active_span_object(&mut self, index: usize, obj: SpanObject) -> (r: SpanObject)
        requires
            index < old(self)@.active.len(),
        ensures
            r@ == old(self)@.active[index as int],
            final(self)@ == old(self)@.with_active_at(index as int, obj@),
    {
        let ghost before = self.active@;
        let mut obj = obj;
        std::mem::swap(&mut obj, &mut self.active[index]);
        assert(spans_view(self.active@) =~= spans_view(before).update(index as int, self.active@[index as int]@));
        obj
    }
}

/// A span created and then finished at once leaves the active stack as it
/// was, and is archived with its end time; it took the next span id, under
/// the active span, and named the primary endpoint.
pub proof fn lemma_create_then_finish(
    v: TracingContextView,
    operation_name: Seq<char>,
    remote_peer: Seq<char>,
    span_type: SpanType,
    span_layer: SpanLayer,
    start_time: i64,
    end_time: i64,
)
    ensures
        ({
            let obj = v.next_span(operation_name, remote_peer, span_type, span_layer, start_time);
            let w = v.with_span(obj).after_finish(end_time);
            &&& w.active == v.active
            &&& w.finalized == v.finalized.push(SpanObjectView { end_time, ..obj })
            &&& w.next_span_id == v.next_span_id + 1
            &&& w.primary_endpoint_name == operation_name
            &&& obj.span_id == v.next_span_id as i32
            &&& obj.parent_span_id == v.top_span_id() as i32
        }),
{
    let obj = v.next_span(operation_name, remote_peer, span_type, span_layer, start_time);
    assert(v.active.push(obj).drop_last() =~= v.active);
}

/// Cross threads context snapshot.
#[derive(Debug)]
pub struct ContextSnapshot {
    trace_id: String,
    trace_segment_id: String,
    span_id: i32,
    parent_endpoint: String,
}

impl View for ContextSnapshot {
    type V = ContextSnapshotView;

    closed spec fn view(&self) -> ContextSnapshotView {
        ContextSnapshotView {
            trace_id: self.trace_id@,
            trace_segment_id: self.trace_segment_id@,
            span_id: self.span_id,
            parent_endpoint: self.parent_endpoint@,
        }
    }
}

impl ContextSnapshot {
    /// Check if the snapshot is created from current context.
    pub fn is_from_current(&self, context: &TracingContext) -> (r: bool)
        ensures
            r == (self@.trace_segment_id.len() != 0 && self@.trace_segment_id
                == context@.trace_segment_id),
    {
        !self.trace_segment_id.as_str().is_empty() && self.trace_segment_id
            == context.trace_segment_id
    }

    /// Check if the snapshot is valid.
    pub fn is_valid(&self) -> (r: bool)
        ensures
            r == self@.is_valid(),
    {
        !self.trace_segment_id.as_str().is_empty() && self.span_id > -1
            && !self.trace_id.as_str().is_empty()
    }
}

} // verus!
