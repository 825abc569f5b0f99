//! The context manager of the `context` API: it knows the service, creates
//! contexts, and hands each finished one, as a segment, to its notify
//! function.

use crate::common::random_generator::{fresh_id, is_lower_hex};
use crate::common::strings::owned;
use crate::context::trace_context::{TracingContext, TracingContextView};
use crate::proto::v3::{SegmentObject, SegmentObjectView, SpanObjectView};
use vstd::prelude::*;

verus! {

/// Skywalking context manager.
pub struct ContextManager<F> {
    notify: F,
    service: Option<(String, String)>,
}

impl<F> ContextManager<F> {
    /// The service and instance names, once set.
    pub closed spec fn service_view(&self) -> Option<(Seq<char>, Seq<char>)> {
        match self.service {
            Some(s) => Some((s.0@, s.1@)),
            None => None,
        }
    }

    /// The notify function.
    pub closed spec fn notify_view(&self) -> F {
        self.notify
    }

    /// New with notify, which [`ContextManager::finalize_context`] calls; no
    /// service yet.
    pub fn new(notify: F) -> (r: Self)
        ensures
            r.service_view() is None,
            r.notify_view() == notify,
    {
        ContextManager { notify, service: None }
    }

    /// Set the service name and instance name, once.
    pub fn set_service(&mut self, service_name: &str, instance_name: &str)
        requires
            old(self).service_view() is None,
        ensures
            final(self).service_view() == Some((service_name@, instance_name@)),
            final(self).notify_view() == old(self).notify_view(),
    {
        self.service = Some((owned(service_name), owned(instance_name)));
    }

    /// Create trace context of the service; the service must be set.
    pub fn create_trace_context(&self) -> (r: TracingContext)
        requires
            self.service_view() is Some,
        ensures
            r@.trace_id.len() == 32,
            r@.trace_segment_id.len() == 32,
            forall|i: int| 0 <= i < 32 ==> is_lower_hex(#[trigger] r@.trace_id[i]),
            forall|i: int| 0 <= i < 32 ==> is_lower_hex(#[trigger] r@.trace_segment_id[i]),
            fresh_id(r@.trace_id),
            fresh_id(r@.trace_segment_id),
            self.service_view() matches Some(names) && r@.service == names.0
                && r@.service_instance == names.1,
            r@.next_span_id == 0,
            r@.active == Seq::<SpanObjectView>::empty(),
            r@.finalized == Seq::<SpanObjectView>::empty(),
            r@.primary_endpoint_name == Seq::<char>::empty(),
    {
        match &self.service {
            Some(s) => TracingContext::new(s.0.as_str(), s.1.as_str()),
            None => {
                assert(false);
                TracingContext::new("", "")
            },
        }
    }
}

/// The segment that a finished context `v` makes.
pub open spec fn segment_of(v: TracingContextView) -> SegmentObjectView {
    SegmentObjectView {
        trace_id: v.trace_id,
        trace_segment_id: v.trace_segment_id,
        spans: v.finalized,
        service: v.service,
        service_instance: v.service_instance,
        is_size_limited: false,
    }
}

impl<F: Fn(SegmentObject)> ContextManager<F> {
    /// Finalize the context: its segment, [`ContextManager::segment_of`],
    /// goes to the notify function.
    pub fn finalize_context(&self, context: TracingContext)
        requires
            forall|s: SegmentObject| #[trigger] call_requires(self.notify_view(), (s,)),
        ensures
            exists|segment: SegmentObject|
                #[trigger] call_ensures(self.notify_view(), (segment,), ()) && segment@ == segment_of(
                    context@,
                ),
    {
        let segment = Self::segment_of(context);
        let ghost s = segment;
        assert(call_requires(self.notify_view(), (segment,)));
        (self.notify)(segment);
        assert(call_ensures(self.notify_view(), (s,), ()));
    }

    /// The segment that finalizing `context` hands to the notify function.
    pub fn segment_of(context: TracingContext) -> (r: SegmentObject)
        ensures
            r@ == segment_of(context@),
    {
        let mut context = context;
        context.convert_segment_object()
    }
}

} // verus!
