//! Spans of the `context` API: a span is its place in the active stack of
//! the context that created it, and reads and changes its span object there.

use crate::context::trace_context::TracingContext;
use crate::proto::v3::{message_pairs, LogView, SpanObject, SpanObjectView};
use vstd::prelude::*;

verus! {

/// The span object with one more log, at `time`, of the given data.
pub open spec fn with_log(
    o: SpanObjectView,
    time: i64,
    data: Seq<(Seq<char>, Seq<char>)>,
) -> SpanObjectView {
    SpanObjectView { logs: o.logs.push(LogView { time, data }), ..o }
}

/// Span is a concept that represents trace information for a single RPC.
/// It is finished by handing it back to its context
/// (`TracingContext::finalize_span`).
#[derive(Debug)]
pub struct Span {
    index: usize,
}

impl Span {
    /// The place of the span in the active stack of its context.
    pub closed spec fn spec_index(&self) -> int {
        self.index as int
    }

    pub(crate) fn new(index: usize) -> (r: Self)
        ensures
            r.spec_index() == index,
    {
        Span { index }
    }

    /// The span object, in `context`.
    pub fn span_object<'a>(&self, context: &'a TracingContext) -> (r: &'a SpanObject)
        requires
            self.spec_index() < context@.active.len(),
        ensures
            r@ == context@.active[self.spec_index()],
    {
        context.active_span_object(self.index)
    }

    /// The span id, in `context`.
    pub fn span_id(&self, context: &TracingContext) -> (r: i32)
        requires
            self.spec_index() < context@.active.len(),
        ensures
            r == context@.active[self.spec_index()].span_id,
    {
        self.span_object(context).span_id
    }

    /// Add a log to the span, at `time`, with the given keys and values in
    /// their order.
    pub fn add_log_at(&self, context: &mut TracingContext, message: &[(&str, &str)], time: i64)
        requires
            self.spec_index() < old(context)@.active.len(),
        ensures
            final(context)@ == old(context)@.with_active_at(
                self.spec_index(),
                with_log(old(context)@.active[self.spec_index()], time, message_pairs(message@)),
            ),
    {
        let mut obj = context.replace_active_span_object(self.index, SpanObject::default());
        obj.add_log_at(message, time);
        let _ = context.replace_active_span_object(self.index, obj);
        assert(context@.active =~= old(context)@.active.update(self.spec_index(), obj@));
    }

    /// Add a log to the span, at the current time.
    pub fn add_log(&self, context: &mut TracingContext, message: &[(&str, &str)])
        requires
            self.spec_index() < old(context)@.active.len(),
        ensures
            exists|time: i64|
                crate::common::system_time::clock_reading(crate::common::system_time::TimePeriod::Log, time)
                    && final(context)@ == old(context)@.with_active_at(
                    self.spec_index(),
                    #[trigger] with_log(old(context)@.active[self.spec_index()], time, message_pairs(message@)),
                ),
    {
        let t = crate::common::system_time::read_clock(crate::common::system_time::TimePeriod::Log);
        self.add_log_at(context, message, t);
    }

    /// Add a tag to the span.
    pub fn add_tag(&self, context: &mut TracingContext, key: &str, value: &str)
        requires
            self.spec_index() < old(context)@.active.len(),
        ensures
            final(context)@ == old(context)@.with_active_at(
                self.spec_index(),
                SpanObjectView {
                    tags: old(context)@.active[self.spec_index()].tags.push((key@, value@)),
                    ..old(context)@.active[self.spec_index()]
                },
            ),
    {
        let mut obj = context.replace_active_span_object(self.index, SpanObject::default());
        obj.add_tag(key, value);
        let _ = context.replace_active_span_object(self.index, obj);
        assert(context@.active =~= old(context)@.active.update(self.spec_index(), obj@));
    }
}

} // verus!
