//! Span is an important and common concept in distributed tracing system. Learn
//! Span from Google Dapper Paper.

use crate::proto::v3::{SpanLayer, SpanObject, SpanObjectView, SpanType};
use crate::common::strings::owned;
use vstd::prelude::*;

verus! {

/// The component id of this agent, which every span it creates carries.
pub const SKYWALKING_RUST_COMPONENT_ID: i32 = 11000;

/// The span object that a context creates: no refs, tags or logs yet, not
/// ended, not an error.
pub open spec fn new_span_view(
    span_id: i32,
    parent_span_id: i32,
    operation_name: Seq<char>,
    remote_peer: Seq<char>,
    span_type: SpanType,
    span_layer: SpanLayer,
    skip_analysis: bool,
    start_time: i64,
) -> SpanObjectView {
    SpanObjectView {
        span_id,
        parent_span_id,
        start_time,
        end_time: 0,
        refs: Seq::empty(),
        operation_name,
        peer: remote_peer,
        span_type: span_type.spec_value(),
        span_layer: span_layer.spec_value(),
        component_id: SKYWALKING_RUST_COMPONENT_ID,
        is_error: false,
        tags: Seq::empty(),
        logs: Seq::empty(),
        skip_analysis,
    }
}

/// [AbstractSpan] contains methods handle [SpanObject].
pub trait AbstractSpan {
    /// The view of the span object that the span holds.
    spec fn object_view(&self) -> SpanObjectView;

    /// Get immutable span object reference.
    fn span_object(&self) -> (r: &SpanObject)
        ensures
            r@ == self.object_view(),
    ;

    /// Replace the span object, giving back the former one.
    fn replace_span_object(&mut self, obj: SpanObject) -> (r: SpanObject)
        ensures
            r@ == old(self).object_view(),
            final(self).object_view() == obj@,
    ;

    /// Get span id.
    fn span_id(&self) -> (r: i32)
        ensures
            r == self.object_view().span_id,
    {
        self.span_object().span_id
    }

    /// Add logs to the span, at the current time.
    fn add_log(&mut self, message: &[(&str, &str)])
        ensures
            final(self).object_view().logs.len() == old(self).object_view().logs.len() + 1,
            final(self).object_view() == (SpanObjectView {
                logs: old(self).object_view().logs.push(
                    crate::proto::v3::LogView {
                        time: final(self).object_view().logs.last().time,
                        data: crate::proto::v3::message_pairs(message@),
                    },
                ),
                ..old(self).object_view()
            }),
            crate::common::system_time::clock_reading(
                crate::common::system_time::TimePeriod::Log,
                final(self).object_view().logs.last().time,
            ),
    {
        let mut obj = self.replace_span_object(SpanObject::default());
        obj.add_log(message);
        let _ = self.replace_span_object(obj);
    }

    /// Add logs to the span, at `time`.
    fn add_log_at(&mut self, message: &[(&str, &str)], time: i64)
        ensures
            final(self).object_view() == (SpanObjectView {
                logs: old(self).object_view().logs.push(
                    crate::proto::v3::LogView { time, data: crate::proto::v3::message_pairs(message@) },
                ),
                ..old(self).object_view()
            }),
    {
        let mut obj = self.replace_span_object(SpanObject::default());
        obj.add_log_at(message, time);
        let _ = self.replace_span_object(obj);
    }

    /// Add tag to the span.
    fn add_tag(&mut self, key: &str, value: &str)
        ensures
            final(self).object_view() == (SpanObjectView {
                tags: old(self).object_view().tags.push((key@, value@)),
                ..old(self).object_view()
            }),
    {
        let mut obj = self.replace_span_object(SpanObject::default());
        obj.add_tag(key, value);
        let _ = self.replace_span_object(obj);
    }
}

/// Span is a concept that represents trace information for a single RPC.
/// The Rust SDK supports Entry Span to represent inbound to a service
/// and Exit Span to represent outbound from a service.
///
/// A span is finished by handing it back to the context that created it
/// (`TracingContext::finalize_span`), which archives its span object.
#[derive(Debug)]
pub struct Span {
    uid: usize,
    obj: SpanObject,
}

impl Span {
    /// The identity of the span inside its context.
    pub closed spec fn spec_uid(&self) -> usize {
        self.uid
    }

    pub(crate) fn new(uid: usize, obj: SpanObject) -> (r: Self)
        ensures
            r.spec_uid() == uid,
            r.object_view() == obj@,
    {
        Span { uid, obj }
    }

    /// A span object as a context creates it.
    pub(crate) fn new_obj(
        span_id: i32,
        parent_span_id: i32,
        operation_name: &str,
        remote_peer: &str,
        span_type: SpanType,
        span_layer: SpanLayer,
        skip_analysis: bool,
        start_time: i64,
    ) -> (r: SpanObject)
        ensures
            r@ == new_span_view(
                span_id,
                parent_span_id,
                operation_name@,
                remote_peer@,
                span_type,
                span_layer,
                skip_analysis,
                start_time,
            ),
    {
        let r = SpanObject {
            span_id,
            parent_span_id,
            start_time,
            end_time: 0,
            refs: Vec::new(),
            operation_name: owned(operation_name),
            peer: owned(remote_peer),
            span_type: span_type.value(),
            span_layer: span_layer.value(),
            component_id: SKYWALKING_RUST_COMPONENT_ID,
            is_error: false,
            tags: Vec::new(),
            logs: Vec::new(),
            skip_analysis,
        };
        assert(r@.refs =~= Seq::empty());
        assert(r@.tags =~= Seq::empty());
        assert(r@.logs =~= Seq::empty());
        r
    }

    /// The identity of the span inside its context.
    pub fn uid(&self) -> (r: usize)
        ensures
            r == self.spec_uid(),
    {
        self.uid
    }

    /// Take the span apart into its identity and its span object.
    pub(crate) fn into_parts(self) -> (r: (usize, SpanObject))
        ensures
            r.0 == self.spec_uid(),
            r.1@ == self.object_view(),
    {
        (self.uid, self.obj)
    }
}

impl AbstractSpan for Span {
    closed spec fn object_view(&self) -> SpanObjectView {
        self.obj@
    }

    fn span_object(&self) -> (r: &SpanObject) {
        &self.obj
    }

    fn replace_span_object(&mut self, obj: SpanObject) -> (r: SpanObject)
        ensures
            final(self).spec_uid() == old(self).spec_uid(),
    {
        let mut obj = obj;
        std::mem::swap(&mut self.obj, &mut obj);
        obj
    }
}

/// Generated by `Span::prepare_for_async`: the span is finished in its
/// context, and its span object lives on here, to be changed in any thread,
/// until it is handed back with `TracingContext::finalize_async_span`.
#[derive(Debug)]
pub struct AsyncSpan {
    uid: usize,
    obj: SpanObject,
}

impl AsyncSpan {
    /// The identity of the span inside its context.
    pub closed spec fn spec_uid(&self) -> usize {
        self.uid
    }

    pub(crate) fn new(uid: usize, obj: SpanObject) -> (r: Self)
        ensures
            r.spec_uid() == uid,
            r.object_view() == obj@,
    {
        AsyncSpan { uid, obj }
    }

    /// The identity of the span inside its context.
    pub fn uid(&self) -> (r: usize)
        ensures
            r == self.spec_uid(),
    {
        self.uid
    }

    /// Take the span apart into its identity and its span object.
    pub(crate) fn into_parts(self) -> (r: (usize, SpanObject))
        ensures
            r.0 == self.spec_uid(),
            r.1@ == self.object_view(),
    {
        (self.uid, self.obj)
    }
}

impl AbstractSpan for AsyncSpan {
    closed spec fn object_view(&self) -> SpanObjectView {
        self.obj@
    }

    fn span_object(&self) -> (r: &SpanObject) {
        &self.obj
    }

    fn replace_span_object(&mut self, obj: SpanObject) -> (r: SpanObject)
        ensures
            final(self).spec_uid() == old(self).spec_uid(),
    {
        let mut obj = obj;
        std::mem::swap(&mut self.obj, &mut obj);
        obj
    }
}

} // verus!
