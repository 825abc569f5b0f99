//! Tracer items.

use crate::common::random_generator::{fresh_id, is_lower_hex};
use crate::common::strings::owned;
use crate::proto::v3::{spans_view, SegmentObject};
use crate::reporter::{report_to, reported, CollectItem, Report};
use crate::trace::trace_context::{TracingContext, TracingContextView};
use std::sync::Arc;
use vstd::prelude::*;

verus! {

/// `Arc::clone` of std: another pointer to the same allocation, so the
/// clone holds the same value.
#[verifier::external_body]
pub(crate) fn share<T>(this: &Arc<T>) -> (r: Arc<T>)
    ensures
        r == *this,
{
    Arc::clone(this)
}

struct Inner<R> {
    service_name: String,
    instance_name: String,
    reporter: R,
}

/// Skywalking tracer.
pub struct Tracer<R> {
    inner: Arc<Inner<R>>,
}

impl<R> Tracer<R> {
    /// The service name.
    pub closed spec fn service_view(&self) -> Seq<char> {
        self.inner.service_name@
    }

    /// The instance name.
    pub closed spec fn instance_view(&self) -> Seq<char> {
        self.inner.instance_name@
    }

    /// New with service info and reporter.
    pub fn new(service_name: &str, instance_name: &str, reporter: R) -> (r: Self)
        ensures
            r.service_view() == service_name@,
            r.instance_view() == instance_name@,
    {
        Tracer {
            inner: Arc::new(
                Inner {
                    service_name: owned(service_name),
                    instance_name: owned(instance_name),
                    reporter,
                },
            ),
        }
    }

    /// The reporter.
    pub closed spec fn reporter_view(&self) -> R {
        self.inner.reporter
    }

    /// Get service name.
    pub fn service_name(&self) -> (r: &str)
        ensures
            r@ == self.service_view(),
    {
        self.inner.service_name.as_str()
    }

    /// Get instance name.
    pub fn instance_name(&self) -> (r: &str)
        ensures
            r@ == self.instance_view(),
    {
        self.inner.instance_name.as_str()
    }

    /// Create trace context.
    pub fn create_trace_context(&self) -> (r: TracingContext)
        ensures
            r@.trace_id.len() == 32,
            r@.trace_segment_id.len() == 32,
            forall|i: int| 0 <= i < 32 ==> is_lower_hex(#[trigger] r@.trace_id[i]),
            forall|i: int| 0 <= i < 32 ==> is_lower_hex(#[trigger] r@.trace_segment_id[i]),
            fresh_id(r@.trace_id),
            fresh_id(r@.trace_segment_id),
            r@.service == self.service_view(),
            r@.service_instance == self.instance_view(),
            r@.next_span_id == 0,
            r@.active == Seq::<crate::trace::trace_context::ActiveSpanView>::empty(),
            r@.finalized == Seq::<crate::trace::trace_context::FinalizeSpanView>::empty(),
            r@.primary_endpoint_name == Seq::<char>::empty(),
            r@.next_uid == 0,
            r@.wf(),
    {
        TracingContext::new(self.inner.service_name.as_str(), self.inner.instance_name.as_str())
    }
}

impl<R: Report> Tracer<R> {
    /// Finalize the trace context: its finished spans leave it as a segment
    /// object, which is reported as a trace item.
    pub fn finalize_context(&self, context: &mut TracingContext)
        requires
            old(context)@.wf(),
            old(context)@.all_finished(),
        ensures
            final(context)@ == (TracingContextView { finalized: Seq::empty(), ..old(context)@ }),
            final(context)@.wf(),
            exists|segment: SegmentObject|
                #[trigger] reported(self.reporter_view(), CollectItem::Trace(Box::new(segment)))
                    && segment.trace_id@ == old(context)@.trace_id
                    && segment.trace_segment_id@ == old(context)@.trace_segment_id
                    && segment.service@ == old(context)@.service
                    && segment.service_instance@ == old(context)@.service_instance
                    && spans_view(segment.spans@) == old(context)@.finished_objs()
                    && !segment.is_size_limited,
    {
        let segment_object = context.convert_to_segment_object();
        let ghost s = segment_object;
        assert(spans_view(segment_object.spans@) == old(context)@.finished_objs());
        report_to(&self.inner.reporter, CollectItem::Trace(Box::new(segment_object)));
        assert(reported(self.reporter_view(), CollectItem::Trace(Box::new(s))));
    }
}

impl<R> Clone for Tracer<R> {
    fn clone(&self) -> (r: Self)
        ensures
            r.service_view() == self.service_view(),
            r.instance_view() == self.instance_view(),
    {
        Tracer { inner: share(&self.inner) }
    }
}

} // verus!
