//! TracingContext is the context of the tracing process. Span should only be
//! created through context, and be archived into the context after the span
//! finished.

use crate::common::random_generator::{fresh_id, is_lower_hex, new_id};
use crate::common::strings::owned;
use crate::common::system_time::{clock_reading, read_clock, TimePeriod};
use crate::proto::v3::{
    refs_view, RefType, SegmentObject, SegmentReference, SegmentReferenceView, SpanLayer,
    SpanObject, SpanObjectView, SpanType, spans_view,
};
use crate::trace::propagation::context::PropagationContext;
use crate::trace::span::{new_span_view, AbstractSpan, AsyncSpan, Span};
use vstd::prelude::*;

verus! {

/// The span uid is to identify the [Span] for crate.
pub type SpanUid = usize;

/// The view of an active span: its identity, its span id, and the reference
/// that [TracingContext::continued] attached to it.
pub struct ActiveSpanView {
    pub uid: int,
    pub span_id: int,
    pub reference: Option<SegmentReferenceView>,
}

/// The view of a finished span: its identity, its span object (none while the
/// span lives on as an [AsyncSpan]), and the reference still to be attached.
pub struct FinalizeSpanView {
    pub uid: int,
    pub obj: Option<SpanObjectView>,
    pub reference: Option<SegmentReferenceView>,
}

/// The view of an optional reference.
pub open spec fn opt_ref_view(r: Option<SegmentReference>) -> Option<SegmentReferenceView> {
    match r {
        Some(x) => Some(x@),
        None => None,
    }
}

/// The view of an optional span object.
pub open spec fn opt_obj_view(o: Option<SpanObject>) -> Option<SpanObjectView> {
    match o {
        Some(x) => Some(x@),
        None => None,
    }
}

/// A span object as it is archived: its end time set, and the reference, if
/// any, appended to its refs.
pub open spec fn finished_obj(
    o: SpanObjectView,
    reference: Option<SegmentReferenceView>,
    end_time: i64,
) -> SpanObjectView {
    SpanObjectView {
        end_time,
        refs: match reference {
            Some(r) => o.refs.push(r),
            None => o.refs,
        },
        ..o
    }
}

/// The entry archived when the active span `uid` finishes at `end_time`
/// with `obj`, `reference` being the reference it still held: the object, if
/// any, takes the end time and the reference; without an object the entry
/// keeps the reference for the asynchronous span that will finish it.
pub open spec fn finalized_entry(
    uid: int,
    obj: Option<SpanObjectView>,
    reference: Option<SegmentReferenceView>,
    end_time: i64,
) -> FinalizeSpanView {
    match obj {
        Some(o) => FinalizeSpanView {
            uid,
            obj: Some(finished_obj(o, reference, end_time)),
            reference: None,
        },
        None => FinalizeSpanView { uid, obj: None, reference },
    }
}

/// A finished span once the asynchronous span `uid` finished with `obj`.
pub open spec fn async_finished(
    e: FinalizeSpanView,
    uid: int,
    obj: SpanObjectView,
    end_time: i64,
) -> FinalizeSpanView {
    if e.uid == uid {
        FinalizeSpanView {
            uid: e.uid,
            obj: Some(finished_obj(obj, e.reference, end_time)),
            reference: None,
        }
    } else {
        e
    }
}

/// The finished spans once the asynchronous span `uid` finished with `obj`.
pub open spec fn all_async_finished(
    f: Seq<FinalizeSpanView>,
    uid: int,
    obj: SpanObjectView,
    end_time: i64,
) -> Seq<FinalizeSpanView> {
    f.map_values(|e: FinalizeSpanView| async_finished(e, uid, obj, end_time))
}

/// The view of a [TracingContext].
pub struct TracingContextView {
    pub trace_id: Seq<char>,
    pub trace_segment_id: Seq<char>,
    pub service: Seq<char>,
    pub service_instance: Seq<char>,
    /// The span id that the next span gets; also the number of spans created.
    pub next_span_id: int,
    /// The spans created and not yet finished, the innermost last.
    pub active: Seq<ActiveSpanView>,
    /// The finished spans, in the order they finished.
    pub finalized: Seq<FinalizeSpanView>,
    /// The operation name of the span created last.
    pub primary_endpoint_name: Seq<char>,
    /// The identity that the next span gets.
    pub next_uid: int,
}

impl TracingContextView {
    /// The invariant of a context: span ids below the next one and growing up
    /// the active stack; identities below the next one and all distinct.
    pub open spec fn wf(self) -> bool {
        &&& 0 <= self.next_span_id <= i32::MAX
        &&& 0 <= self.next_uid <= usize::MAX
        &&& forall|i: int|
            0 <= i < self.active.len() ==> 0 <= #[trigger] self.active[i].span_id
                < self.next_span_id
        &&& forall|i: int, j: int|
            0 <= i < j < self.active.len() ==> self.active[i].span_id < self.active[j].span_id
        &&& forall|i: int|
            0 <= i < self.active.len() ==> 0 <= #[trigger] self.active[i].uid < self.next_uid
        &&& forall|i: int|
            0 <= i < self.finalized.len() ==> 0 <= #[trigger] self.finalized[i].uid
                < self.next_uid
        &&& forall|i: int, j: int|
            0 <= i < j < self.active.len() ==> self.active[i].uid < self.active[j].uid
        &&& forall|i: int, j: int|
            0 <= i < j < self.finalized.len() ==> self.finalized[i].uid
                != self.finalized[j].uid
        &&& forall|i: int, j: int|
            0 <= i < self.active.len() && 0 <= j < self.finalized.len() ==> self.active[i].uid
                != self.finalized[j].uid
    }

    /// The span id of the active span, or -1 where no span is active.
    pub open spec fn top_span_id(self) -> int {
        if self.active.len() == 0 {
            -1
        } else {
            self.active.last().span_id
        }
    }

    /// One more span can be created without running out of ids.
    pub open spec fn can_create_span(self) -> bool {
        self.next_span_id < i32::MAX && self.next_uid < usize::MAX
    }

    /// The context after a span named `operation_name` is created and made
    /// the active span.
    pub open spec fn with_new_span(self, operation_name: Seq<char>) -> TracingContextView {
        TracingContextView {
            next_span_id: self.next_span_id + 1,
            active: self.active.push(
                ActiveSpanView { uid: self.next_uid, span_id: self.next_span_id, reference: None },
            ),
            primary_endpoint_name: operation_name,
            next_uid: self.next_uid + 1,
            ..self
        }
    }

    /// The context after the active span finished: it leaves the active stack
    /// and is archived, with its span object, or, for a span that lives on
    /// asynchronously, without one.
    pub open spec fn after_finalize(
        self,
        obj: Option<SpanObjectView>,
        end_time: i64,
    ) -> TracingContextView {
        let top = self.active.last();
        let entry = finalized_entry(top.uid, obj, top.reference, end_time);
        TracingContextView {
            active: self.active.drop_last(),
            finalized: self.finalized.push(entry),
            ..self
        }
    }

    /// The context after the asynchronous span `uid` finished with `obj`.
    pub open spec fn after_async_finalize(
        self,
        uid: int,
        obj: SpanObjectView,
        end_time: i64,
    ) -> TracingContextView {
        TracingContextView {
            finalized: self.finalized.map_values(|e: FinalizeSpanView| async_finished(e, uid, obj, end_time)),
            ..self
        }
    }

    /// Some finished span has the identity `uid`.
    pub open spec fn has_finalized(self, uid: int) -> bool {
        exists|i: int| 0 <= i < self.finalized.len() && #[trigger] self.finalized[i].uid == uid
    }

    /// Every finished span has its span object: no asynchronous span is
    /// still alive.
    pub open spec fn all_finished(self) -> bool {
        forall|i: int| 0 <= i < self.finalized.len() ==> (#[trigger] self.finalized[i]).obj is Some
    }

    /// The span objects of the finished spans, in order.
    pub open spec fn finished_objs(self) -> Seq<SpanObjectView> {
        self.finalized.map_values(|e: FinalizeSpanView| e.obj->0)
    }
}

/// The span object of the last finished span that has one.
pub open spec fn last_obj(f: Seq<FinalizeSpanView>) -> Option<SpanObjectView>
    decreases f.len(),
{
    if f.len() == 0 {
        None
    } else if f.last().obj is Some {
        f.last().obj
    } else {
        last_obj(f.drop_last())
    }
}

/// An active span.
#[derive(Debug)]
pub struct ActiveSpan {
    uid: SpanUid,
    span_id: i32,
    /// For [TracingContext::continued] used.
    reference: Option<SegmentReference>,
}

impl View for ActiveSpan {
    type V = ActiveSpanView;

    closed spec fn view(&self) -> ActiveSpanView {
        ActiveSpanView {
            uid: self.uid as int,
            span_id: self.span_id as int,
            reference: opt_ref_view(self.reference),
        }
    }
}

impl ActiveSpan {
    fn new(uid: SpanUid, span_id: i32) -> (r: Self)
        ensures
            r@ == (ActiveSpanView { uid: uid as int, span_id: span_id as int, reference: None }),
    {
        Self { uid, span_id, reference: None }
    }

    /// The identity of the span.
    #[inline]
    pub fn uid(&self) -> (r: SpanUid)
        ensures
            r as int == self@.uid,
    {
        self.uid
    }
}

/// A finished span.
#[derive(Debug)]
pub struct FinalizeSpan {
    uid: SpanUid,
    obj: Option<SpanObject>,
    /// For [TracingContext::continued] used.
    reference: Option<SegmentReference>,
}

impl View for FinalizeSpan {
    type V = FinalizeSpanView;

    closed spec fn view(&self) -> FinalizeSpanView {
        FinalizeSpanView {
            uid: self.uid as int,
            obj: opt_obj_view(self.obj),
            reference: opt_ref_view(self.reference),
        }
    }
}

impl FinalizeSpan {
    /// A finished span of the given parts.
    pub fn new(uid: usize, obj: Option<SpanObject>, reference: Option<SegmentReference>) -> (r: Self)
        ensures
            r@ == (FinalizeSpanView {
                uid: uid as int,
                obj: opt_obj_view(obj),
                reference: opt_ref_view(reference),
            }),
    {
        Self { uid, obj, reference }
    }
}

/// The views of a sequence of active spans.
pub open spec fn actives_view(v: Seq<ActiveSpan>) -> Seq<ActiveSpanView> {
    v.map_values(|a: ActiveSpan| a@)
}

/// The views of a sequence of finished spans.
pub open spec fn finals_view(v: Seq<FinalizeSpan>) -> Seq<FinalizeSpanView> {
    v.map_values(|f: FinalizeSpan| f@)
}

/// The active and the finished spans of a context.
#[derive(Debug)]
pub struct SpanStack {
    finalized: Vec<FinalizeSpan>,
    active: Vec<ActiveSpan>,
}

impl SpanStack {
    /// The active spans, the innermost last.
    pub closed spec fn active_view(&self) -> Seq<ActiveSpanView> {
        actives_view(self.active@)
    }

    /// The finished spans, in the order they finished.
    pub closed spec fn finalized_view(&self) -> Seq<FinalizeSpanView> {
        finals_view(self.finalized@)
    }

    fn new() -> (r: Self)
        ensures
            r.active_view() == Seq::<ActiveSpanView>::empty(),
            r.finalized_view() == Seq::<FinalizeSpanView>::empty(),
    {
        let r = SpanStack { finalized: Vec::new(), active: Vec::new() };
        assert(r.active_view() =~= Seq::<ActiveSpanView>::empty());
        assert(r.finalized_view() =~= Seq::<FinalizeSpanView>::empty());
        r
    }

    /// Pop the active span if it is the span `uid`.
    fn pop_active(&mut self, uid: SpanUid) -> (r: Option<ActiveSpan>)
        ensures
            final(self).finalized_view() == old(self).finalized_view(),
            if old(self).active_view().len() > 0 && old(self).active_view().last().uid == uid {
                &&& r matches Some(a) && a@ == old(self).active_view().last()
                &&& final(self).active_view() == old(self).active_view().drop_last()
            } else {
                &&& r is None
                &&& final(self).active_view() == old(self).active_view()
            },
    {
        let n = self.active.len();
        if n > 0 && self.active[n - 1].uid() == uid {
            let r = self.active.pop();
            assert(actives_view(self.active@) =~= actives_view(old(self).active@).drop_last());
            r
        } else {
            None
        }
    }

    /// Close span, at `end_time`. We can't use closed span after finalize called.
    pub fn finalize_span_at(&mut self, uid: SpanUid, obj: Option<SpanObject>, end_time: i64)
        requires
            old(self).active_view().len() > 0,
            old(self).active_view().last().uid == uid,
        ensures
            final(self).active_view() == old(self).active_view().drop_last(),
            final(self).finalized_view() == old(self).finalized_view().push(
                finalized_entry(
                    uid as int,
                    opt_obj_view(obj),
                    old(self).active_view().last().reference,
                    end_time,
                ),
            ),
    {
        let active_span = match self.pop_active(uid) {
            Some(a) => a,
            None => {
                assert(false);
                return;
            },
        };
        let finalize_span = match obj {
            Some(mut obj) => {
                obj.end_time = end_time;
                let ghost before = obj.refs@;
                if let Some(r) = active_span.reference {
                    obj.refs.push(r);
                    assert(refs_view(obj.refs@) =~= refs_view(before).push(r@));
                }
                FinalizeSpan::new(uid, Some(obj), None)
            },
            None => FinalizeSpan::new(uid, None, active_span.reference),
        };
        let ghost before = self.finalized@;
        self.finalized.push(finalize_span);
        assert(finals_view(self.finalized@) =~= finals_view(before).push(finalize_span@));
    }

    /// Close span, at the current time.
    pub fn finalize_span(&mut self, uid: SpanUid, obj: Option<SpanObject>)
        requires
            old(self).active_view().len() > 0,
            old(self).active_view().last().uid == uid,
        ensures
            final(self).active_view() == old(self).active_view().drop_last(),
            exists|end_time: i64|
                clock_reading(TimePeriod::End, end_time) && final(self).finalized_view()
                    == old(self).finalized_view().push(
                    #[trigger] finalized_entry(
                        uid as int,
                        opt_obj_view(obj),
                        old(self).active_view().last().reference,
                        end_time,
                    ),
                ),
    {
        let t = read_clock(TimePeriod::End);
        let ghost o = opt_obj_view(obj);
        self.finalize_span_at(uid, obj, t);
        assert(self.finalized_view() == old(self).finalized_view().push(
            finalized_entry(uid as int, o, old(self).active_view().last().reference, t),
        ));
    }

    /// Close async span at `end_time`, fill the span object.
    pub fn finalize_async_span_at(&mut self, uid: SpanUid, obj: SpanObject, end_time: i64)
        requires
            exists|i: int|
                0 <= i < old(self).finalized_view().len()
                    && #[trigger] old(self).finalized_view()[i].uid == uid,
            forall|i: int, j: int|
                0 <= i < j < old(self).finalized_view().len() ==> old(self).finalized_view()[i].uid
                    != old(self).finalized_view()[j].uid,
        ensures
            final(self).active_view() == old(self).active_view(),
            final(self).finalized_view() == old(self).finalized_view().map_values(
                |e: FinalizeSpanView| async_finished(e, uid as int, obj@, end_time),
            ),
    {
        let ghost f0 = self.finalized_view();
        let ghost orig = obj@;
        let ghost target = |e: FinalizeSpanView| async_finished(e, uid as int, orig, end_time);
        let n = self.finalized.len();
        let mut i: usize = 0;
        while i < n
            invariant
                n == self.finalized@.len(),
                i <= n,
                self.finalized_view() == f0,
                f0 == old(self).finalized_view(),
                self.active_view() == old(self).active_view(),
                obj@ == orig,
                target == (|e: FinalizeSpanView| async_finished(e, uid as int, orig, end_time)),
                forall|j: int| 0 <= j < i ==> (#[trigger] f0[j]).uid != uid,
                forall|a: int, b: int| 0 <= a < b < f0.len() ==> f0[a].uid != f0[b].uid,
                exists|j: int| 0 <= j < f0.len() && #[trigger] f0[j].uid == uid,
            decreases n - i,
        {
            if self.finalized[i].uid == uid {
                assert(f0[i as int].uid == uid);
                let mut obj = obj;
                obj.end_time = end_time;
                let ghost before = obj.refs@;
                let reference = match &self.finalized[i].reference {
                    Some(r) => Some(r.clone()),
                    None => None,
                };
                if let Some(r) = reference {
                    obj.refs.push(r);
                    assert(refs_view(obj.refs@) =~= refs_view(before).push(r@));
                }
                assert(opt_ref_view(reference) == f0[i as int].reference);
                assert(obj@ == finished_obj(orig, f0[i as int].reference, end_time));
                let entry = FinalizeSpan::new(uid, Some(obj), None);
                assert(entry@ == target(f0[i as int]));
                let ghost old_f = self.finalized@;
                self.finalized.set(i, entry);
                assert(self.finalized@ == old_f.update(i as int, entry));
                assert(finals_view(self.finalized@) =~= f0.map_values(target)) by {
                    assert forall|j: int| 0 <= j < f0.len() implies #[trigger] finals_view(
                        self.finalized@,
                    )[j] == f0.map_values(target)[j] by {
                        if j != i {
                            if j < i {
                                assert(f0[j].uid != uid);
                            } else {
                                assert(f0[i as int].uid != f0[j].uid);
                            }
                            assert(finals_view(self.finalized@)[j] == old_f[j]@);
                        }
                    }
                }
                return;
            }
            assert(f0[i as int].uid != uid);
            i = i + 1;
        }
        assert(false);
    }

    /// Close async span at the current time, fill the span object.
    pub fn finalize_async_span(&mut self, uid: SpanUid, obj: SpanObject)
        requires
            exists|i: int|
                0 <= i < old(self).finalized_view().len()
                    && #[trigger] old(self).finalized_view()[i].uid == uid,
            forall|i: int, j: int|
                0 <= i < j < old(self).finalized_view().len() ==> old(self).finalized_view()[i].uid
                    != old(self).finalized_view()[j].uid,
        ensures
            final(self).active_view() == old(self).active_view(),
            exists|end_time: i64|
                clock_reading(TimePeriod::End, end_time) && final(self).finalized_view()
                    == #[trigger] all_async_finished(
                    old(self).finalized_view(),
                    uid as int,
                    obj@,
                    end_time,
                ),
    {
        let t = read_clock(TimePeriod::End);
        let ghost o = obj@;
        self.finalize_async_span_at(uid, obj, t);
        assert(self.finalized_view() == all_async_finished(
            old(self).finalized_view(),
            uid as int,
            o,
            t,
        ));
    }
}

/// TracingContext is the context of the tracing process. Span should only be
/// created through context, and be archived into the context after the span
/// finished.
#[derive(Debug)]
pub struct TracingContext {
    trace_id: String,
    trace_segment_id: String,
    service: String,
    service_instance: String,
    next_span_id: i32,
    span_stack: SpanStack,
    primary_endpoint_name: String,
    span_uid_generator: SpanUid,
}

impl View for TracingContext {
    type V = TracingContextView;

    closed spec fn view(&self) -> TracingContextView {
        TracingContextView {
            trace_id: self.trace_id@,
            trace_segment_id: self.trace_segment_id@,
            service: self.service@,
            service_instance: self.service_instance@,
            next_span_id: self.next_span_id as int,
            active: self.span_stack.active_view(),
            finalized: self.span_stack.finalized_view(),
            primary_endpoint_name: self.primary_endpoint_name@,
            next_uid: self.span_uid_generator as int,
        }
    }
}

impl TracingContext {
    /// A context of the given service and instance, with the given ids, and no
    /// spans yet.
    pub fn with_ids(
        service_name: &str,
        instance_name: &str,
        trace_id: String,
        trace_segment_id: String,
    ) -> (r: Self)
        ensures
            r@ == (TracingContextView {
                trace_id: trace_id@,
                trace_segment_id: trace_segment_id@,
                service: service_name@,
                service_instance: instance_name@,
                next_span_id: 0,
                active: Seq::empty(),
                finalized: Seq::empty(),
                primary_endpoint_name: Seq::empty(),
                next_uid: 0,
            }),
            r@.wf(),
    {
        TracingContext {
            trace_id,
            trace_segment_id,
            service: owned(service_name),
            service_instance: owned(instance_name),
            next_span_id: 0,
            span_stack: SpanStack::new(),
            primary_endpoint_name: String::new(),
            span_uid_generator: 0,
        }
    }

    /// Generate a new trace context, with fresh random trace and segment ids.
    pub fn new(service_name: &str, instance_name: &str) -> (r: Self)
        ensures
            r@.trace_id.len() == 32,
            r@.trace_segment_id.len() == 32,
            forall|i: int| 0 <= i < 32 ==> is_lower_hex(#[trigger] r@.trace_id[i]),
            forall|i: int| 0 <= i < 32 ==> is_lower_hex(#[trigger] r@.trace_segment_id[i]),
            fresh_id(r@.trace_id),
            fresh_id(r@.trace_segment_id),
            r@.service == service_name@,
            r@.service_instance == instance_name@,
            r@.next_span_id == 0,
            r@.active == Seq::<ActiveSpanView>::empty(),
            r@.finalized == Seq::<FinalizeSpanView>::empty(),
            r@.primary_endpoint_name == Seq::<char>::empty(),
            r@.next_uid == 0,
            r@.wf(),
    {
        let trace_id = new_id();
        let trace_segment_id = new_id();
        Self::with_ids(service_name, instance_name, trace_id, trace_segment_id)
    }

    /// Get trace id.
    #[inline]
    pub fn trace_id(&self) -> (r: &str)
        ensures
            r@ == self@.trace_id,
    {
        self.trace_id.as_str()
    }

    /// Get trace segment id.
    #[inline]
    pub fn trace_segment_id(&self) -> (r: &str)
        ensures
            r@ == self@.trace_segment_id,
    {
        self.trace_segment_id.as_str()
    }

    /// Get service name.
    #[inline]
    pub fn service(&self) -> (r: &str)
        ensures
            r@ == self@.service,
    {
        self.service.as_str()
    }

    /// Get service instance.
    #[inline]
    pub fn service_instance(&self) -> (r: &str)
        ensures
            r@ == self@.service_instance,
    {
        self.service_instance.as_str()
    }

    fn next_span_id(&self) -> (r: i32)
        ensures
            r == self@.next_span_id,
    {
        self.next_span_id
    }

    /// The span id of the active span, if any.
    pub fn peek_active_span_id(&self) -> (r: Option<i32>)
        ensures
            r == (if self@.active.len() == 0 {
                None
            } else {
                Some(self@.active.last().span_id as i32)
            }),
    {
        let n = self.span_stack.active.len();
        if n == 0 {
            None
        } else {
            Some(self.span_stack.active[n - 1].span_id)
        }
    }

    /// `span` is the active span of the context.
    pub fn is_active_span(&self, span: &Span) -> (r: bool)
        ensures
            r == (self@.active.len() > 0 && self@.active.last().uid == span.spec_uid()),
    {
        let n = self.span_stack.active.len();
        n > 0 && self.span_stack.active[n - 1].uid == span.uid()
    }

    /// One more span can be created without running out of ids.
    pub fn can_create_span(&self) -> (r: bool)
        ensures
            r == self@.can_create_span(),
    {
        self.next_span_id < i32::MAX && self.span_uid_generator < usize::MAX
    }

    /// A span was created in this context before: an exit or local span may
    /// follow.
    pub fn has_created_span(&self) -> (r: bool)
        ensures
            r == (self@.next_span_id != 0),
    {
        self.next_span_id != 0
    }

    /// Every finished span has its span object: no asynchronous span is
    /// still alive.
    pub fn all_spans_finished(&self) -> (r: bool)
        ensures
            r == self@.all_finished(),
    {
        let spans = &self.span_stack.finalized;
        let mut i: usize = 0;
        while i < spans.len()
            invariant
                i <= spans@.len(),
                spans@ == self.span_stack.finalized@,
                forall|j: int| 0 <= j < i ==> (#[trigger] finals_view(spans@)[j]).obj is Some,
            decreases spans@.len() - i,
        {
            if spans[i].obj.is_none() {
                assert(finals_view(spans@)[i as int].obj is None);
                return false;
            }
            i = i + 1;
        }
        true
    }

    /// The asynchronous span `span` is still to be finished in this context.
    pub fn is_pending_async_span(&self, span: &AsyncSpan) -> (r: bool)
        ensures
            r == self@.has_finalized(span.spec_uid() as int),
    {
        let spans = &self.span_stack.finalized;
        let uid = span.uid();
        let mut i: usize = 0;
        while i < spans.len()
            invariant
                i <= spans@.len(),
                spans@ == self.span_stack.finalized@,
                uid == span.spec_uid(),
                forall|j: int| 0 <= j < i ==> (#[trigger] finals_view(spans@)[j]).uid != uid,
            decreases spans@.len() - i,
        {
            if spans[i].uid == uid {
                assert(finals_view(spans@)[i as int].uid == uid);
                return true;
            }
            i = i + 1;
        }
        false
    }

    /// Clone the last finalized span.
    pub fn last_span(&self) -> (r: Option<SpanObject>)
        ensures
            opt_obj_view(r) == last_obj(self@.finalized),
    {
        let spans = &self.span_stack.finalized;
        let mut i = spans.len();
        assert(spans@.take(i as int) =~= spans@);
        while i > 0
            invariant
                i <= spans@.len(),
                spans@ == self.span_stack.finalized@,
                last_obj(finals_view(spans@)) == last_obj(finals_view(spans@.take(i as int))),
            decreases i,
        {
            let ghost pre = finals_view(spans@.take(i as int));
            assert(pre.drop_last() =~= finals_view(spans@.take(i - 1)));
            assert(pre.last() == spans@[i - 1]@);
            match &spans[i - 1].obj {
                Some(obj) => {
                    return Some(obj.clone());
                },
                None => {},
            }
            i = i - 1;
        }
        assert(finals_view(spans@.take(0)) =~= Seq::<FinalizeSpanView>::empty());
        None
    }

    /// The span uid is to identify the [Span] for crate.
    fn generate_span_uid(&mut self) -> (r: SpanUid)
        requires
            old(self)@.next_uid < usize::MAX,
        ensures
            r as int == old(self)@.next_uid,
            final(self)@ == (TracingContextView { next_uid: old(self)@.next_uid + 1, ..old(self)@ }),
    {
        let uid = self.span_uid_generator;
        self.span_uid_generator = self.span_uid_generator + 1;
        uid
    }

    /// Give the next span id, and count it as taken.
    #[inline]
    fn inc_next_span_id(&mut self) -> (r: i32)
        requires
            old(self)@.next_span_id < i32::MAX,
        ensures
            r as int == old(self)@.next_span_id,
            final(self)@ == (TracingContextView {
                next_span_id: old(self)@.next_span_id + 1,
                ..old(self)@
            }),
    {
        let span_id = self.next_span_id;
        self.next_span_id = self.next_span_id + 1;
        span_id
    }

    /// Make the span `span_id`, named `operation_name`, the active span; give
    /// its identity.
    fn push_active_span(&mut self, span_id: i32, operation_name: &str) -> (r: SpanUid)
        requires
            old(self)@.next_uid < usize::MAX,
        ensures
            r as int == old(self)@.next_uid,
            final(self)@ == (TracingContextView {
                active: old(self)@.active.push(
                    ActiveSpanView { uid: r as int, span_id: span_id as int, reference: None },
                ),
                primary_endpoint_name: operation_name@,
                next_uid: old(self)@.next_uid + 1,
                ..old(self)@
            }),
    {
        let uid = self.generate_span_uid();
        self.primary_endpoint_name = owned(operation_name);
        let a = ActiveSpan::new(uid, span_id);
        let ghost before = self.span_stack.active@;
        self.span_stack.active.push(a);
        assert(actives_view(self.span_stack.active@) =~= actives_view(before).push(a@));
        uid
    }

    /// Create a span of the given kind as the new active span, its start at
    /// `start_time`.
    fn create_span_at(
        &mut self,
        operation_name: &str,
        remote_peer: &str,
        span_type: SpanType,
        span_layer: SpanLayer,
        start_time: i64,
    ) -> (r: Span)
        requires
            old(self)@.wf(),
            old(self)@.can_create_span(),
        ensures
            final(self)@ == old(self)@.with_new_span(operation_name@),
            final(self)@.wf(),
            r.spec_uid() == old(self)@.next_uid,
            r.object_view() == new_span_view(
                old(self)@.next_span_id as i32,
                old(self)@.top_span_id() as i32,
                operation_name@,
                remote_peer@,
                span_type,
                span_layer,
                false,
                start_time,
            ),
    {
        let parent_span_id = match self.peek_active_span_id() {
            Some(id) => id,
            None => -1,
        };
        let span_id = self.inc_next_span_id();
        let obj = Span::new_obj(
            span_id,
            parent_span_id,
            operation_name,
            remote_peer,
            span_type,
            span_layer,
            false,
            start_time,
        );
        let uid = self.push_active_span(span_id, operation_name);
        proof {
            let v0 = old(self)@;
            let v1 = self@;
            assert(v1.active == v0.active.push(
                ActiveSpanView { uid: v0.next_uid, span_id: v0.next_span_id, reference: None },
            ));
            assert forall|i: int| 0 <= i < v1.active.len() implies 0 <= #[trigger] v1.active[i].span_id
                < v1.next_span_id by {
                if i < v0.active.len() {
                    assert(v1.active[i] == v0.active[i]);
                }
            }
            assert forall|i: int, j: int|
                0 <= i < j < v1.active.len() implies v1.active[i].span_id < v1.active[j].span_id by {
                if j < v0.active.len() {
                    assert(v1.active[j] == v0.active[j]);
                    assert(v1.active[i] == v0.active[i]);
                } else {
                    assert(v1.active[i] == v0.active[i]);
                }
            }
            assert forall|i: int| 0 <= i < v1.active.len() implies 0 <= #[trigger] v1.active[i].uid
                < v1.next_uid by {
                if i < v0.active.len() {
                    assert(v1.active[i] == v0.active[i]);
                }
            }
            assert forall|i: int, j: int|
                0 <= i < j < v1.active.len() implies v1.active[i].uid < v1.active[j].uid by {
                assert(v1.active[i] == v0.active[i]);
                if j < v0.active.len() {
                    assert(v1.active[j] == v0.active[j]);
                }
            }
            assert forall|i: int, j: int|
                0 <= i < v1.active.len() && 0 <= j < v1.finalized.len() implies v1.active[i].uid
                != v1.finalized[j].uid by {
                if i < v0.active.len() {
                    assert(v1.active[i] == v0.active[i]);
                }
            }
            assert(v1 == v0.with_new_span(operation_name@));
        }
        Span::new(uid, obj)
    }

    /// Create a new entry span, which is an initiator of collection of spans,
    /// its start at `start_time`.
    pub fn create_entry_span_at(&mut self, operation_name: &str, start_time: i64) -> (r: Span)
        requires
            old(self)@.wf(),
            old(self)@.can_create_span(),
        ensures
            final(self)@ == old(self)@.with_new_span(operation_name@),
            final(self)@.wf(),
            r.spec_uid() == old(self)@.next_uid,
            r.object_view() == new_span_view(
                old(self)@.next_span_id as i32,
                old(self)@.top_span_id() as i32,
                operation_name@,
                Seq::empty(),
                SpanType::Entry,
                SpanLayer::Http,
                false,
                start_time,
            ),
    {
        let no_peer = String::new();
        self.create_span_at(operation_name, no_peer.as_str(), SpanType::Entry, SpanLayer::Http, start_time)
    }

    /// Create a new entry span, which is an initiator of collection of spans.
    /// This should be called by invocation of the function which is triggered
    /// by external service.
    ///
    /// Typically called when no context has
    /// been propagated and a new trace is to be started.
    pub fn create_entry_span(&mut self, operation_name: &str) -> (r: Span)
        requires
            old(self)@.wf(),
            old(self)@.can_create_span(),
        ensures
            final(self)@ == old(self)@.with_new_span(operation_name@),
            final(self)@.wf(),
            r.spec_uid() == old(self)@.next_uid,
            r.object_view() == new_span_view(
                old(self)@.next_span_id as i32,
                old(self)@.top_span_id() as i32,
                operation_name@,
                Seq::empty(),
                SpanType::Entry,
                SpanLayer::Http,
                false,
                r.object_view().start_time,
            ),
            clock_reading(TimePeriod::Start, r.object_view().start_time),
    {
        let t = read_clock(TimePeriod::Start);
        self.create_entry_span_at(operation_name, t)
    }

    /// Create a new entry span, which is an initiator of collection of spans.
    /// This should be called by invocation of the function which is triggered
    /// by external service.
    ///
    /// They should be propagated on `sw8` header in HTTP request with encoded
    /// form. You can retrieve decoded context with
    /// `skywalking::trace::propagation::decoder::decode_propagation`
    pub fn create_entry_span_with_propagation(
        &mut self,
        operation_name: &str,
        propagation: &PropagationContext,
    ) -> (r: Span)
        requires
            old(self)@.wf(),
            old(self)@.can_create_span(),
        ensures
            final(self)@ == (TracingContextView {
                trace_id: propagation.parent_trace_id@,
                ..old(self)@.with_new_span(operation_name@)
            }),
            final(self)@.wf(),
            r.spec_uid() == old(self)@.next_uid,
            r.object_view() == (SpanObjectView {
                refs: seq![propagation_reference(propagation)],
                ..new_span_view(
                    old(self)@.next_span_id as i32,
                    old(self)@.top_span_id() as i32,
                    operation_name@,
                    Seq::empty(),
                    SpanType::Entry,
                    SpanLayer::Http,
                    false,
                    r.object_view().start_time,
                )
            }),
    {
        let mut span = self.create_entry_span(operation_name);
        self.trace_id = propagation.parent_trace_id.clone();
        let reference = SegmentReference {
            ref_type: RefType::CrossProcess.value(),
            trace_id: self.trace_id.clone(),
            parent_trace_segment_id: propagation.parent_trace_segment_id.clone(),
            parent_span_id: propagation.parent_span_id,
            parent_service: propagation.parent_service.clone(),
            parent_service_instance: propagation.parent_service_instance.clone(),
            parent_endpoint: propagation.destination_endpoint.clone(),
            network_address_used_at_peer: propagation.destination_address.clone(),
        };
        let mut obj = span.replace_span_object(SpanObject::default());
        let ghost before = obj.refs@;
        obj.refs.push(reference);
        assert(refs_view(obj.refs@) =~= seq![propagation_reference(propagation)]) by {
            assert(before.len() == 0) by {
                assert(refs_view(before).len() == 0);
            }
        }
        let _ = span.replace_span_object(obj);
        span
    }

    /// Create a new exit span, which will be created when tracing context will
    /// generate new span for function invocation, its start at `start_time`.
    pub fn create_exit_span_at(&mut self, operation_name: &str, remote_peer: &str, start_time: i64) -> (r: Span)
        requires
            old(self)@.wf(),
            old(self)@.can_create_span(),
            old(self)@.next_span_id != 0,
        ensures
            final(self)@ == old(self)@.with_new_span(operation_name@),
            final(self)@.wf(),
            r.spec_uid() == old(self)@.next_uid,
            r.object_view() == new_span_view(
                old(self)@.next_span_id as i32,
                old(self)@.top_span_id() as i32,
                operation_name@,
                remote_peer@,
                SpanType::Exit,
                SpanLayer::Unknown,
                false,
                start_time,
            ),
    {
        self.create_common_span_at(operation_name, remote_peer, SpanType::Exit, start_time)
    }

    /// Create a new exit span, which will be created when tracing context will
    /// generate new span for function invocation.
    ///
    /// Currently, this SDK supports RPC call. So we must set `remote_peer`.
    /// An entry span must have been created in this context before.
    pub fn create_exit_span(&mut self, operation_name: &str, remote_peer: &str) -> (r: Span)
        requires
            old(self)@.wf(),
            old(self)@.can_create_span(),
            old(self)@.next_span_id != 0,
        ensures
            final(self)@ == old(self)@.with_new_span(operation_name@),
            final(self)@.wf(),
            r.spec_uid() == old(self)@.next_uid,
            r.object_view() == new_span_view(
                old(self)@.next_span_id as i32,
                old(self)@.top_span_id() as i32,
                operation_name@,
                remote_peer@,
                SpanType::Exit,
                SpanLayer::Unknown,
                false,
                r.object_view().start_time,
            ),
            clock_reading(TimePeriod::Start, r.object_view().start_time),
    {
        let t = read_clock(TimePeriod::Start);
        self.create_exit_span_at(operation_name, remote_peer, t)
    }

    /// Create a new local span, its start at `start_time`.
    pub fn create_local_span_at(&mut self, operation_name: &str, start_time: i64) -> (r: Span)
        requires
            old(self)@.wf(),
            old(self)@.can_create_span(),
            old(self)@.next_span_id != 0,
        ensures
            final(self)@ == old(self)@.with_new_span(operation_name@),
            final(self)@.wf(),
            r.spec_uid() == old(self)@.next_uid,
            r.object_view() == new_span_view(
                old(self)@.next_span_id as i32,
                old(self)@.top_span_id() as i32,
                operation_name@,
                Seq::empty(),
                SpanType::Local,
                SpanLayer::Unknown,
                false,
                start_time,
            ),
    {
        let no_peer = String::new();
        self.create_common_span_at(operation_name, no_peer.as_str(), SpanType::Local, start_time)
    }

    /// Create a new local span. An entry span must have been created in this
    /// context before.
    pub fn create_local_span(&mut self, operation_name: &str) -> (r: Span)
        requires
            old(self)@.wf(),
            old(self)@.can_create_span(),
            old(self)@.next_span_id != 0,
        ensures
            final(self)@ == old(self)@.with_new_span(operation_name@),
            final(self)@.wf(),
            r.spec_uid() == old(self)@.next_uid,
            r.object_view() == new_span_view(
                old(self)@.next_span_id as i32,
                old(self)@.top_span_id() as i32,
                operation_name@,
                Seq::empty(),
                SpanType::Local,
                SpanLayer::Unknown,
                false,
                r.object_view().start_time,
            ),
            clock_reading(TimePeriod::Start, r.object_view().start_time),
    {
        let t = read_clock(TimePeriod::Start);
        self.create_local_span_at(operation_name, t)
    }

    /// create exit or local span common logic.
    fn create_common_span_at(
        &mut self,
        operation_name: &str,
        remote_peer: &str,
        span_type: SpanType,
        start_time: i64,
    ) -> (r: Span)
        requires
            old(self)@.wf(),
            old(self)@.can_create_span(),
            old(self)@.next_span_id != 0,
        ensures
            final(self)@ == old(self)@.with_new_span(operation_name@),
            final(self)@.wf(),
            r.spec_uid() == old(self)@.next_uid,
            r.object_view() == new_span_view(
                old(self)@.next_span_id as i32,
                old(self)@.top_span_id() as i32,
                operation_name@,
                remote_peer@,
                span_type,
                SpanLayer::Unknown,
                false,
                start_time,
            ),
    {
        if self.next_span_id() == 0 {
            // The entry span must exist: ruled out by the precondition.
            assert(false);
        }
        self.create_span_at(operation_name, remote_peer, span_type, SpanLayer::Unknown, start_time)
    }

    /// Finish the active span `span`, at `end_time`: it leaves the active
    /// stack and its span object is archived.
    pub fn finalize_span_at(&mut self, span: Span, end_time: i64)
        requires
            old(self)@.wf(),
            old(self)@.active.len() > 0,
            old(self)@.active.last().uid == span.spec_uid(),
        ensures
            final(self)@ == old(self)@.after_finalize(Some(span.object_view()), end_time),
            final(self)@.wf(),
    {
        let (uid, obj) = span.into_parts();
        self.span_stack.finalize_span_at(uid, Some(obj), end_time);
        proof {
            lemma_after_finalize_wf(old(self)@, Some(obj@), end_time);
        }
    }

    /// Finish the active span `span` at the current time: it leaves the
    /// active stack and its span object is archived.
    pub fn finalize_span(&mut self, span: Span)
        requires
            old(self)@.wf(),
            old(self)@.active.len() > 0,
            old(self)@.active.last().uid == span.spec_uid(),
        ensures
            final(self)@ == old(self)@.after_finalize(
                Some(span.object_view()),
                final(self)@.finalized.last().obj->0.end_time,
            ),
            clock_reading(TimePeriod::End, final(self)@.finalized.last().obj->0.end_time),
            final(self)@.wf(),
    {
        let t = read_clock(TimePeriod::End);
        self.finalize_span_at(span, t);
    }

    /// Finish the asynchronous span `span`, at `end_time`: its span object is
    /// archived in the place its span took when it left the active stack.
    pub fn finalize_async_span_at(&mut self, span: AsyncSpan, end_time: i64)
        requires
            old(self)@.wf(),
            old(self)@.has_finalized(span.spec_uid() as int),
        ensures
            final(self)@ == old(self)@.after_async_finalize(
                span.spec_uid() as int,
                span.object_view(),
                end_time,
            ),
            final(self)@.wf(),
    {
        let (uid, obj) = span.into_parts();
        self.span_stack.finalize_async_span_at(uid, obj, end_time);
        proof {
            let v0 = old(self)@;
            let v1 = self@;
            assert(v1.finalized.len() == v0.finalized.len());
            assert forall|i: int| 0 <= i < v1.finalized.len() implies #[trigger] v1.finalized[i].uid
                == v0.finalized[i].uid by {}
            assert(v1 =~= v0.after_async_finalize(uid as int, obj@, end_time));
        }
    }

    /// Finish the asynchronous span `span` at the current time.
    pub fn finalize_async_span(&mut self, span: AsyncSpan)
        requires
            old(self)@.wf(),
            old(self)@.has_finalized(span.spec_uid() as int),
        ensures
            final(self)@.wf(),
            exists|end_time: i64|
                clock_reading(TimePeriod::End, end_time) && final(self)@
                    == #[trigger] old(self)@.after_async_finalize(
                    span.spec_uid() as int,
                    span.object_view(),
                    end_time,
                ),
    {
        let t = read_clock(TimePeriod::End);
        self.finalize_async_span_at(span, t);
    }

    /// Capture a snapshot for cross-thread propagation.
    pub fn capture(&self) -> (r: ContextSnapshot)
        ensures
            r@ == (ContextSnapshotView {
                trace_id: self@.trace_id,
                trace_segment_id: self@.trace_segment_id,
                span_id: self@.top_span_id() as i32,
                parent_endpoint: self@.primary_endpoint_name,
            }),
    {
        ContextSnapshot {
            trace_id: self.trace_id.clone(),
            trace_segment_id: self.trace_segment_id.clone(),
            span_id: match self.peek_active_span_id() {
                Some(id) => id,
                None => -1,
            },
            parent_endpoint: self.primary_endpoint_name.clone(),
        }
    }

    /// Build the reference between this segment and a cross-thread segment:
    /// for a valid snapshot, the context takes its trace id, and the active
    /// span, if any, gets a cross-thread reference to the snapshot's span.
    pub fn continued(&mut self, snapshot: ContextSnapshot)
        requires
            old(self)@.wf(),
        ensures
            final(self)@ == continued_view(old(self)@, snapshot@),
            final(self)@.wf(),
    {
        if snapshot.is_valid() {
            self.trace_id = snapshot.trace_id.clone();
            let segment_ref = SegmentReference {
                ref_type: RefType::CrossThread.value(),
                trace_id: snapshot.trace_id,
                parent_trace_segment_id: snapshot.trace_segment_id,
                parent_span_id: snapshot.span_id,
                parent_service: self.service.clone(),
                parent_service_instance: self.service_instance.clone(),
                parent_endpoint: snapshot.parent_endpoint,
                network_address_used_at_peer: String::new(),
            };
            let n = self.span_stack.active.len();
            if n > 0 {
                let ghost before = self.span_stack.active@;
                let mut top = self.span_stack.active.pop().unwrap();
                top.reference = Some(segment_ref);
                self.span_stack.active.push(top);
                assert(actives_view(self.span_stack.active@) =~= actives_view(before).update(
                    n - 1,
                    top@,
                ));
            }
        }
    }

    /// It converts tracing context into segment object.
    /// This conversion should be done before sending segments into OAP.
    ///
    /// Notice: The spans will be taken, so this method shouldn't be called
    /// twice.
    pub fn convert_to_segment_object(&mut self) -> (r: SegmentObject)
        requires
            old(self)@.wf(),
            old(self)@.all_finished(),
        ensures
            r.trace_id@ == old(self)@.trace_id,
            r.trace_segment_id@ == old(self)@.trace_segment_id,
            r.service@ == old(self)@.service,
            r.service_instance@ == old(self)@.service_instance,
            spans_view(r.spans@) == old(self)@.finished_objs(),
            !r.is_size_limited,
            final(self)@ == (TracingContextView { finalized: Seq::empty(), ..old(self)@ }),
            final(self)@.wf(),
    {
        let trace_id = self.trace_id.clone();
        let trace_segment_id = self.trace_segment_id.clone();
        let service = self.service.clone();
        let service_instance = self.service_instance.clone();
        let mut taken: Vec<FinalizeSpan> = Vec::new();
        std::mem::swap(&mut taken, &mut self.span_stack.finalized);
        assert(finals_view(self.span_stack.finalized@) =~= Seq::<FinalizeSpanView>::empty());
        let ghost f0 = finals_view(taken@);
        let mut spans: Vec<SpanObject> = Vec::new();
        let mut i: usize = 0;
        while i < taken.len()
            invariant
                i <= taken@.len(),
                f0 == finals_view(taken@),
                forall|j: int| 0 <= j < f0.len() ==> (#[trigger] f0[j]).obj is Some,
                spans_view(spans@) == f0.map_values(|e: FinalizeSpanView| e.obj->0).take(i as int),
            decreases taken@.len() - i,
        {
            assert(f0[i as int].obj is Some);
            let obj = match &taken[i].obj {
                Some(o) => o.clone(),
                None => {
                    assert(false);
                    return SegmentObject {
                        trace_id,
                        trace_segment_id,
                        spans,
                        service,
                        service_instance,
                        is_size_limited: false,
                    };
                },
            };
            let ghost before = spans@;
            assert(obj@ == f0[i as int].obj->0);
            spans.push(obj);
            assert(spans_view(spans@) =~= spans_view(before).push(obj@));
            i = i + 1;
            assert(spans_view(spans@) =~= f0.map_values(|e: FinalizeSpanView| e.obj->0).take(
                i as int,
            ));
        }
        assert(f0.map_values(|e: FinalizeSpanView| e.obj->0).take(taken@.len() as int)
            =~= f0.map_values(|e: FinalizeSpanView| e.obj->0));
        SegmentObject {
            trace_id,
            trace_segment_id,
            spans,
            service,
            service_instance,
            is_size_limited: false,
        }
    }
}

/// The reference that an entry span created with a propagated context gets.
pub open spec fn propagation_reference(p: &PropagationContext) -> SegmentReferenceView {
    SegmentReferenceView {
        ref_type: RefType::CrossProcess.spec_value(),
        trace_id: p.parent_trace_id@,
        parent_trace_segment_id: p.parent_trace_segment_id@,
        parent_span_id: p.parent_span_id,
        parent_service: p.parent_service@,
        parent_service_instance: p.parent_service_instance@,
        parent_endpoint: p.destination_endpoint@,
        network_address_used_at_peer: p.destination_address@,
    }
}

/// The cross-thread reference that a snapshot gives in the context `v`.
pub open spec fn snapshot_reference(v: TracingContextView, s: ContextSnapshotView) -> SegmentReferenceView {
    SegmentReferenceView {
        ref_type: RefType::CrossThread.spec_value(),
        trace_id: s.trace_id,
        parent_trace_segment_id: s.trace_segment_id,
        parent_span_id: s.span_id,
        parent_service: v.service,
        parent_service_instance: v.service_instance,
        parent_endpoint: s.parent_endpoint,
        network_address_used_at_peer: Seq::empty(),
    }
}

/// The context `v` continued from the snapshot `s`.
pub open spec fn continued_view(v: TracingContextView, s: ContextSnapshotView) -> TracingContextView {
    if s.is_valid() {
        TracingContextView {
            trace_id: s.trace_id,
            active: if v.active.len() > 0 {
                v.active.update(
                    v.active.len() - 1,
                    ActiveSpanView {
                        reference: Some(snapshot_reference(v, s)),
                        ..v.active.last()
                    },
                )
            } else {
                v.active
            },
            ..v
        }
    } else {
        v
    }
}

/// Finishing the active span keeps a context well formed.
proof fn lemma_after_finalize_wf(v: TracingContextView, obj: Option<SpanObjectView>, end_time: i64)
    requires
        v.wf(),
        v.active.len() > 0,
    ensures
        v.after_finalize(obj, end_time).wf(),
{
    let w = v.after_finalize(obj, end_time);
    let n = v.active.len();
    assert forall|i: int| 0 <= i < w.active.len() implies #[trigger] w.active[i] == v.active[i] by {}
    assert forall|i: int| 0 <= i < w.finalized.len() implies 0 <= #[trigger] w.finalized[i].uid
        < w.next_uid by {
        if i < v.finalized.len() {
            assert(w.finalized[i] == v.finalized[i]);
        } else {
            assert(w.finalized[i].uid == v.active[n - 1].uid);
        }
    }
    assert forall|i: int, j: int|
        0 <= i < j < w.finalized.len() implies w.finalized[i].uid != w.finalized[j].uid by {
        assert(w.finalized[i] == v.finalized[i]);
        if j < v.finalized.len() {
            assert(w.finalized[j] == v.finalized[j]);
        } else {
            assert(w.finalized[j].uid == v.active[n - 1].uid);
        }
    }
    assert forall|i: int, j: int|
        0 <= i < w.active.len() && 0 <= j < w.finalized.len() implies w.active[i].uid
        != w.finalized[j].uid by {
        assert(w.active[i] == v.active[i]);
        if j < v.finalized.len() {
            assert(w.finalized[j] == v.finalized[j]);
        } else {
            assert(w.finalized[j].uid == v.active[n - 1].uid);
            assert(v.active[i].uid < v.active[n - 1].uid);
        }
    }
}

/// The view of a [ContextSnapshot].
pub struct ContextSnapshotView {
    pub trace_id: Seq<char>,
    pub trace_segment_id: Seq<char>,
    pub span_id: i32,
    pub parent_endpoint: Seq<char>,
}

impl ContextSnapshotView {
    /// A snapshot taken in a context with ids and an active span.
    pub open spec fn is_valid(self) -> bool {
        self.trace_segment_id.len() != 0 && self.span_id > -1 && self.trace_id.len() != 0
    }
}

/// Cross threads context snapshot.
#[derive(Debug)]
pub struct ContextSnapshot {
    trace_id: String,
    trace_segment_id: String,
    span_id: i32,
    parent_endpoint: String,
}

impl View for ContextSnapshot {
    type V = ContextSnapshotView;

    closed spec fn view(&self) -> ContextSnapshotView {
        ContextSnapshotView {
            trace_id: self.trace_id@,
            trace_segment_id: self.trace_segment_id@,
            span_id: self.span_id,
            parent_endpoint: self.parent_endpoint@,
        }
    }
}

impl ContextSnapshot {
    /// Check if the snapshot is created from current context.
    pub fn is_from_current(&self, context: &TracingContext) -> (r: bool)
        ensures
            r == (self@.trace_segment_id.len() != 0 && self@.trace_segment_id
                == context@.trace_segment_id),
    {
        !self.trace_segment_id.as_str().is_empty() && self.trace_segment_id
            == context.trace_segment_id
    }

    /// Check if the snapshot is valid.
    pub fn is_valid(&self) -> (r: bool)
        ensures
            r == self@.is_valid(),
    {
        !self.trace_segment_id.as_str().is_empty() && self.span_id > -1
            && !self.trace_id.as_str().is_empty()
    }
}

impl Span {
    /// The [Span] finish at current tracing context, but the current span is
    /// still alive, until the [AsyncSpan] is handed back. The span must be the
    /// active span of `context`.
    ///
    /// During alive, tags, logs and attributes of the span could be changed, in
    /// any thread.
    pub fn prepare_for_async(self, context: &mut TracingContext) -> (r: AsyncSpan)
        requires
            old(context)@.wf(),
            old(context)@.active.len() > 0,
            old(context)@.active.last().uid == self.spec_uid(),
        ensures
            final(context)@ == old(context)@.after_finalize(None, 0),
            final(context)@.wf(),
            r.spec_uid() == self.spec_uid(),
            r.object_view() == self.object_view(),
    {
        let (uid, obj) = self.into_parts();
        context.span_stack.finalize_span_at(uid, None, 0);
        proof {
            lemma_after_finalize_wf(old(context)@, None, 0);
        }
        AsyncSpan::new(uid, obj)
    }
}


/// The snapshot that `capture` takes of context `v`.
pub open spec fn snapshot_of(v: TracingContextView) -> ContextSnapshotView {
    ContextSnapshotView {
        trace_id: v.trace_id,
        trace_segment_id: v.trace_segment_id,
        span_id: v.top_span_id() as i32,
        parent_endpoint: v.primary_endpoint_name,
    }
}

/// Spans nest: a span created in a context and then finished leaves the
/// active stack as it was, its span id is the next one and its parent the
/// span that was active, and the archive grows by that span alone.
pub proof fn lemma_create_then_finalize(
    v: TracingContextView,
    operation_name: Seq<char>,
    obj: SpanObjectView,
    end_time: i64,
)
    requires
        v.wf(),
        v.can_create_span(),
    ensures
        v.with_new_span(operation_name).wf(),
        v.with_new_span(operation_name).top_span_id() == v.next_span_id,
        v.with_new_span(operation_name).after_finalize(Some(obj), end_time).active == v.active,
        v.with_new_span(operation_name).after_finalize(Some(obj), end_time).finalized == v.finalized.push(
            FinalizeSpanView {
                uid: v.next_uid,
                obj: Some(finished_obj(obj, None, end_time)),
                reference: None,
            },
        ),
        v.with_new_span(operation_name).after_finalize(Some(obj), end_time).next_span_id
            == v.next_span_id + 1,
        v.with_new_span(operation_name).after_finalize(Some(obj), end_time).top_span_id()
            == v.top_span_id(),
{
    let w = v.with_new_span(operation_name);
    assert(w.active.drop_last() =~= v.active);
    assert(w.active.last().span_id == v.next_span_id);
    assert forall|i: int| 0 <= i < w.active.len() implies 0 <= #[trigger] w.active[i].span_id
        < w.next_span_id by {
        if i < v.active.len() {
            assert(w.active[i] == v.active[i]);
        }
    }
    assert forall|i: int, j: int| 0 <= i < j < w.active.len() implies w.active[i].span_id
        < w.active[j].span_id by {
        assert(w.active[i] == v.active[i]);
        if j < v.active.len() {
            assert(w.active[j] == v.active[j]);
        }
    }
    assert forall|i: int| 0 <= i < w.active.len() implies 0 <= #[trigger] w.active[i].uid
        < w.next_uid by {
        if i < v.active.len() {
            assert(w.active[i] == v.active[i]);
        }
    }
    assert forall|i: int, j: int| 0 <= i < j < w.active.len() implies w.active[i].uid
        < w.active[j].uid by {
        assert(w.active[i] == v.active[i]);
        if j < v.active.len() {
            assert(w.active[j] == v.active[j]);
        }
    }
    assert forall|i: int, j: int|
        0 <= i < w.active.len() && 0 <= j < w.finalized.len() implies w.active[i].uid
        != w.finalized[j].uid by {
        if i < v.active.len() {
            assert(w.active[i] == v.active[i]);
        }
    }
}

/// A snapshot is valid exactly when it is taken in a context with both ids
/// and an active span.
pub proof fn lemma_snapshot_valid(v: TracingContextView)
    requires
        v.wf(),
    ensures
        snapshot_of(v).is_valid() <==> (v.trace_id.len() != 0 && v.trace_segment_id.len() != 0
            && v.active.len() > 0),
{
    if v.active.len() > 0 {
        assert(0 <= v.active[v.active.len() - 1].span_id < v.next_span_id);
    }
}

/// Continuing a context from a valid snapshot of another gives it the trace
/// id of the other, and its active span, where it has one, a cross-thread
/// reference to the span and segment the snapshot was taken at; nothing else
/// changes. An invalid snapshot changes nothing.
pub proof fn lemma_continued_from_snapshot(v: TracingContextView, w: TracingContextView)
    requires
        v.wf(),
        w.wf(),
    ensures
        snapshot_of(v).is_valid() ==> continued_view(w, snapshot_of(v)).trace_id == v.trace_id,
        snapshot_of(v).is_valid() && w.active.len() > 0 ==> continued_view(w, snapshot_of(v)).active.last().reference
            == Some(
            SegmentReferenceView {
                ref_type: RefType::CrossThread.spec_value(),
                trace_id: v.trace_id,
                parent_trace_segment_id: v.trace_segment_id,
                parent_span_id: v.active.last().span_id as i32,
                parent_service: w.service,
                parent_service_instance: w.service_instance,
                parent_endpoint: v.primary_endpoint_name,
                network_address_used_at_peer: Seq::empty(),
            },
        ),
        continued_view(w, snapshot_of(v)).next_span_id == w.next_span_id,
        continued_view(w, snapshot_of(v)).finalized == w.finalized,
        continued_view(w, snapshot_of(v)).active.len() == w.active.len(),
        continued_view(w, snapshot_of(v)).wf(),
        !snapshot_of(v).is_valid() ==> continued_view(w, snapshot_of(v)) == w,
{
    let c = continued_view(w, snapshot_of(v));
    assert forall|i: int| 0 <= i < c.active.len() implies #[trigger] c.active[i].uid == w.active[i].uid
        && c.active[i].span_id == w.active[i].span_id by {}
}

/// A snapshot is from the context it was taken in, where that context has a
/// segment id.
pub proof fn lemma_snapshot_from_current(v: TracingContextView)
    ensures
        (snapshot_of(v).trace_segment_id.len() != 0 && snapshot_of(v).trace_segment_id
            == v.trace_segment_id) <==> v.trace_segment_id.len() != 0,
{
}

/// A span prepared for asynchronous work leaves the active stack at once;
/// when it is finished, its object takes the place it left in the archive.
pub proof fn lemma_async_span_archived(v: TracingContextView, obj: SpanObjectView, end_time: i64)
    requires
        v.wf(),
        v.active.len() > 0,
    ensures
        v.after_finalize(None, 0).active == v.active.drop_last(),
        v.after_finalize(None, 0).has_finalized(v.active.last().uid),
        v.after_finalize(None, 0).after_async_finalize(v.active.last().uid, obj, end_time).finalized.last()
            == (FinalizeSpanView {
            uid: v.active.last().uid,
            obj: Some(finished_obj(obj, v.active.last().reference, end_time)),
            reference: None,
        }),
{
    let w = v.after_finalize(None, 0);
    let n = w.finalized.len();
    assert(w.finalized[n - 1].uid == v.active.last().uid);
}

} // verus!
