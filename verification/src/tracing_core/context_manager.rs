//! The context of the current thread: a tracing context and the stack of the
//! ids of its open spans. The thread-local storage around it lives with the
//! application.

use crate::common::strings::owned;
use crate::tracing_core::context::{
    entry_span_created, refs_from_header, sw6_header_of, TracingContext, TracingContextView,
};
use crate::tracing_core::context_carrier::Extractable;
use crate::tracing_core::context_listener::{answered, ask_instance_id, ContextListener};
use crate::tracing_core::span::{Span, TracingSpan, TracingSpanView};
use vstd::prelude::*;

verus! {

/// A tracing context with the ids of its open spans, innermost last.
pub struct WorkingContext {
    context: TracingContext,
    span_stack: Vec<i32>,
}

/// The view of a working context: the context, and the ids of the open spans.
pub struct WorkingContextView {
    pub context: TracingContextView,
    pub span_stack: Seq<i32>,
}

/// The tracing context of the current thread, if the service instance is
/// registered and no entry has finished it yet.
pub struct CurrentTracingContext {
    option: Option<WorkingContext>,
}

impl View for CurrentTracingContext {
    type V = Option<WorkingContextView>;

    closed spec fn view(&self) -> Option<WorkingContextView> {
        match self.option {
            Some(w) => Some(WorkingContextView { context: w.context@, span_stack: w.span_stack@ }),
            None => None,
        }
    }
}

/// The parent of a new span: the innermost open one, or -1.
pub open spec fn parent_or_none(p: Option<i32>) -> i32 {
    match p {
        Some(id) => id,
        None => -1i32,
    }
}

impl CurrentTracingContext {
    /// The context of a thread: a fresh tracing context where the listener
    /// has registered the service instance, none otherwise.
    pub fn new<L: ContextListener>(listener: &L) -> (r: Self)
        ensures
            r@ matches Some(w) ==> w.span_stack.len() == 0 && w.context.next_seq == -1
                && w.context.finished_spans.len() == 0,
            exists|answer: Option<i32>|
                #[trigger] answered(listener, answer) && (r@ is Some <==> answer is Some) && (r@ matches Some(
                    w,
                ) ==> w.context.self_generated_id && w.context.primary_trace_id.spec_part1() == answer->0),
    {
        CurrentTracingContext::from_instance_id(ask_instance_id(listener))
    }

    /// The context of a thread for what the listener answered of the service
    /// instance: a fresh tracing context where it is registered, none
    /// otherwise.
    pub fn from_instance_id(instance_id: Option<i32>) -> (r: Self)
        ensures
            r@ is Some <==> instance_id is Some,
            r@ matches Some(w) ==> w.span_stack.len() == 0 && w.context.next_seq == -1
                && w.context.finished_spans.len() == 0 && w.context.self_generated_id
                && w.context.primary_trace_id.spec_part1() == instance_id->0,
    {
        CurrentTracingContext {
            option: match TracingContext::from_instance_id(instance_id) {
                Some(tx) => Some(WorkingContext { context: tx, span_stack: Vec::new() }),
                None => None,
            },
        }
    }

    /// A span can be opened: there is no context, or its span ids are not
    /// used up.
    pub fn can_create_span(&self) -> (r: bool)
        ensures
            r == (self@ matches Some(w) ==> w.context.next_seq < i32::MAX),
    {
        match &self.option {
            None => true,
            Some(wx) => wx.context.has_span_ids_left(),
        }
    }

    /// The id of the innermost open span.
    pub fn parent_span_id(&self) -> (r: Option<i32>)
        ensures
            r == (match self@ {
                Some(w) => if w.span_stack.len() > 0 {
                    Some(w.span_stack.last())
                } else {
                    None
                },
                None => None,
            }),
    {
        match &self.option {
            None => None,
            Some(wx) => {
                let n = wx.span_stack.len();
                if n > 0 {
                    Some(wx.span_stack[n - 1])
                } else {
                    None
                }
            },
        }
    }

    /// Open an entry span under `parent_span_id`: none where there is no
    /// context; else the span, whose id goes on the stack.
    pub fn create_entry_span<E: Extractable>(
        &mut self,
        operation_name: &str,
        parent_span_id: Option<i32>,
        extractor: Option<&E>,
    ) -> (r: Option<TracingSpan>)
        requires
            old(self)@ matches Some(w) ==> w.context.next_seq < i32::MAX,
        ensures
            match old(self)@ {
                None => r is None && final(self)@ is None,
                Some(w) => r matches Some(s) && final(self)@ matches Some(w2) && entry_span_created(
                    w.context,
                    w2.context,
                    s@,
                    operation_name@,
                    parent_or_none(parent_span_id),
                ) && w2.span_stack == w.span_stack.push(s@.span_id),
            },
            r matches Some(s) ==> (extractor is None ==> s@.refs.len() == 0),
            r matches Some(s) ==> (extractor matches Some(e) ==> exists|header: &str|
                #[trigger] sw6_header_of(e, header) && refs_from_header(header@, s@.refs)),
    {
        match &mut self.option {
            None => None,
            Some(wx) => {
                let parent = match parent_span_id {
                    Some(id) => id,
                    None => -1,
                };
                let span = wx.context.entry_span(owned(operation_name), parent, extractor);
                wx.span_stack.push(span.span_id());
                Some(span)
            },
        }
    }

    /// Finish a span: the context keeps it, and the innermost id leaves the
    /// stack.
    pub fn finish_span(&mut self, span: TracingSpan)
        ensures
            match old(self)@ {
                None => final(self)@ is None,
                Some(w) => final(self)@ matches Some(w2) && w2.span_stack == (if w.span_stack.len()
                    > 0 {
                    w.span_stack.drop_last()
                } else {
                    w.span_stack
                }) && w2.context.finished_spans.len() == w.context.finished_spans.len() + 1
                    && w2.context.finished_spans.drop_last() == w.context.finished_spans
                    && w2.context.next_seq == w.context.next_seq
                    && w2.context.primary_trace_id == w.context.primary_trace_id
                    && w2.context.self_generated_id == w.context.self_generated_id
                    && (span@.end_time != 0 ==> w2.context.finished_spans.last() == span@)
                    && (span@.end_time == 0 ==> w2.context.finished_spans.last() == (TracingSpanView {
                    end_time: w2.context.finished_spans.last().end_time,
                    ..span@
                })),
            },
    {
        match &mut self.option {
            None => {},
            Some(wx) => {
                crate::tracing_core::context::Context::finish_span(&mut wx.context, span);
                if wx.span_stack.len() > 0 {
                    let _ = wx.span_stack.pop();
                }
            },
        }
    }

    /// Finish the context: no context is current any more.
    pub fn finish(&mut self)
        ensures
            final(self)@ is None,
    {
        match &mut self.option {
            None => {},
            Some(wx) => {
                wx.span_stack.clear();
            },
        }
        self.option = None;
    }
}

} // verus!
