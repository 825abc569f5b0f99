use skywalking::tracing_core::context::{Context, TracingContext};
use skywalking::tracing_core::context_carrier::{Extractable, Injectable};
use skywalking::tracing_core::context_listener::ContextListener;
use skywalking::tracing_core::context_manager::CurrentTracingContext;
use skywalking::tracing_core::id::ID;
use skywalking::tracing_core::log::{EventField, LogEvent};
use skywalking::tracing_core::span::{Span, TracingSpan};
use skywalking::tracing_core::tag::Tag;
use std::sync::mpsc;
use std::sync::mpsc::{Receiver, Sender};
use std::time::SystemTime;

#[test]
fn test_tag_new() {
    let tag = Tag::new(String::from("tag_key"), String::from("tag_value"));
    assert_eq!(tag.key(), "tag_key");
    assert_eq!(tag.value(), "tag_value");
    let tag_clone = tag.clone();
    assert_eq!(tag_clone.key(), "tag_key");
    assert_eq!(tag_clone.value(), "tag_value");
}

#[test]
fn tag_test_tag_new() {
    let tag = Tag::new(String::from("tag_key"), String::from("tag_value"));
    assert_eq!(tag.key(), "tag_key");
    assert_eq!(tag.value(), "tag_value");
    let tag_clone = tag.clone();
    assert_eq!(tag_clone.key(), "tag_key");
    assert_eq!(tag_clone.value(), "tag_value");
}

#[test]
fn test_log_new() {
    let fields = [
        { EventField::new(String::from("event1"), String::from("event description")) },
        { EventField::new(String::from("event2"), String::from("event description")) },
    ];
    let event = LogEvent::new(123, Box::new(fields));
    assert_eq!(event.timestamp(), 123);
    assert_eq!(event.fields().len(), 2);
    assert_eq!(event.fields()[0].name(), "event1");
    assert_eq!(event.fields()[1].value(), "event description");
}

fn now_millis() -> u64 {
    SystemTime::now().duration_since(SystemTime::UNIX_EPOCH).unwrap().as_millis() as u64
}

#[test]
fn test_span_new() {
    let mut span = TracingSpan::_new(String::from("op1"), 0, -1);
    assert_eq!(span.parent_span_id(), -1);
    assert_eq!(span.span_id(), 0);
    assert_eq!(span.start_time(), 0);
    span.start();
    assert_ne!(span.start_time(), 0);

    let mut span2 = TracingSpan::_new(String::from("op2"), 1, 0);
    assert_eq!("op2", span2.operation_name());
    assert_eq!(span2.parent_span_id(), 0);
    assert_eq!(span2.span_id(), 1);
    span2.start_with_timestamp(now_millis());
    assert_ne!(span2.start_time(), 0);
}

#[test]
fn test_new_entry_span() {
    let span = TracingSpan::new_entry_span(String::from("op1"), 0, 1);
    assert_eq!(span.is_entry(), true)
}

#[test]
fn test_span_with_tags() {
    let mut span = TracingSpan::new_entry_span(String::from("op1"), 0, 1);
    span.tag(Tag::new(String::from("tag1"), String::from("value1")));
    span.tag(Tag::new(String::from("tag2"), String::from("value2")));

    let tags = span.tags();
    assert_eq!(tags.len(), 2);
    assert_eq!(tags.get(0).unwrap().key(), "tag1")
}

#[test]
fn test_span_with_logs() {
    let mut span = TracingSpan::_new(String::from("op1"), 0, -1);

    span.log(LogEvent::new(123, Box::new([
        { EventField::new(String::from("event1"), String::from("event description")) },
        { EventField::new(String::from("event2"), String::from("event description")) },
    ])));

    assert_eq!(span.logs().len(), 1);
}

#[test]
fn test_context_stack() {
    let reporter = MockReporter::new();
    let mut context = TracingContext::new(&reporter).unwrap();
    let span1 = context.create_entry_span(String::from("op1"), None, &MockerHeader {});
    {
        assert_eq!(span1.span_id(), 0);
        let mut span2 = context.create_local_span(String::from("op2"), Some(&span1));
        span2.tag(Tag::new(String::from("tag1"), String::from("value1")));
        {
            assert_eq!(span2.span_id(), 1);
            let span3 = context.create_local_span(String::from("op3"), Some(&span2));
            assert_eq!(span3.span_id(), 2);

            context.finish_span(span3);
        }
        context.finish_span(span2);
    }
    context.finish_span(span1);

    reporter.report_trace(context);
    // context has moved into reporter. Can't be used again.

    let received_context = reporter.recv.recv().unwrap();
    assert_eq!(received_context.primary_trace_id() == ID::new(3, 4, 5), true);
    assert_eq!(received_context.finished_spans().len(), 3);
}

#[test]
fn test_no_context() {
    let context = TracingContext::new(&MockRegisterPending {});
    assert_eq!(context.is_none(), true);
}

#[test]
fn finished_spans_are_ended_and_kept_in_order() {
    let reporter = MockReporter::new();
    let mut context = TracingContext::new(&reporter).unwrap();
    let entry = context.create_entry_span(String::from("in"), None, &NoHeader {});
    assert!(entry.refs().is_empty());
    let exit = context.create_exit_span(String::from("out"), Some(&entry), String::from("db:5432"), &NoHeader {});
    assert!(exit.is_exit());
    assert_eq!(exit.parent_span_id(), 0);
    let mut ended = exit;
    ended.end_with_timestamp(42);
    context.finish_span(ended);
    context.finish_span(entry);
    let spans = context.finished_spans();
    assert_eq!(spans.len(), 2);
    assert_eq!(spans[0].operation_name(), "out");
    assert_eq!(spans[0].end_time(), 42);
    assert_ne!(spans[1].end_time(), 0);
    // No header: the trace id stays the generated one, of instance 1.
    assert!(!(context.primary_trace_id() == ID::new(3, 4, 5)));
}

#[test]
fn current_context_keeps_open_span_ids() {
    let mut current = CurrentTracingContext::new(&MockReporter::new());
    let first = current.create_entry_span("op1", None, Some(&MockerHeader {})).unwrap();
    assert_eq!(current.parent_span_id(), Some(0));
    let second = current.create_entry_span("op2", current.parent_span_id(), None::<&NoHeader>).unwrap();
    assert_eq!(second.parent_span_id(), 0);
    assert_eq!(current.parent_span_id(), Some(1));
    current.finish_span(second);
    assert_eq!(current.parent_span_id(), Some(0));
    current.finish_span(first);
    assert_eq!(current.parent_span_id(), None);
    current.finish();
    assert!(current.create_entry_span("op3", None, None::<&NoHeader>).is_none());

    let mut unregistered = CurrentTracingContext::new(&MockRegisterPending {});
    assert!(unregistered.create_entry_span("op", None, None::<&NoHeader>).is_none());
}

struct MockReporter {
    sender: Box<Sender<TracingContext>>,
    recv: Box<Receiver<TracingContext>>,
}

impl MockReporter {
    fn new() -> Self {
        let (tx, rx) = mpsc::channel();
        MockReporter {
            sender: Box::new(tx),
            recv: Box::new(rx),
        }
    }
}

impl ContextListener for MockReporter {
    fn service_instance_id(&self) -> Option<i32> {
        Some(1)
    }

    fn report_trace(&self, finished_context: TracingContext) {
        let _ = self.sender.send(finished_context);
    }
}

struct MockerHeader {}

impl Extractable for MockerHeader {
    fn extract(&self, _key: String) -> &str {
        "1-My40LjU=-MS4yLjM=-4-1-1-IzEyNy4wLjAuMTo4MDgw-Iy9wb3J0YWw=-MTIz"
    }
}

struct NoHeader {}

impl Extractable for NoHeader {
    fn extract(&self, _key: String) -> &str {
        ""
    }
}

impl Injectable for NoHeader {
    fn inject(&self, _key: String, _value: String) {}
}

struct MockRegisterPending {}

impl ContextListener for MockRegisterPending {
    fn service_instance_id(&self) -> Option<i32> {
        None
    }

    fn report_trace(&self, finished_context: TracingContext) {
        let _ = finished_context;
    }
}

#[test]
fn context_from_instance_answer() {
    assert!(TracingContext::from_instance_id(None).is_none());
    let ctx = TracingContext::from_instance_id(Some(7)).unwrap();
    assert!(ctx.finished_spans().is_empty());
    let mut current = CurrentTracingContext::from_instance_id(Some(7));
    assert!(current.create_entry_span("op", None, None::<&NoHeader>).is_some());
    let mut none = CurrentTracingContext::from_instance_id(None);
    assert!(none.create_entry_span("op", None, None::<&NoHeader>).is_none());
}
