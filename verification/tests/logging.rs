use skywalking::logging::logger::Logger;
use skywalking::logging::record::{LogRecord, RecordType};
use skywalking::proto::v3::log_data_body::Content;
use skywalking::proto::v3::{
    JsonLog, KeyStringValuePair, LogData, LogDataBody, LogTags, TextLog, TraceContext, YamlLog,
};
use skywalking::reporter::{CollectItem, Report};
use skywalking::trace::span::AbstractSpan;
use skywalking::trace::tracer::Tracer;
use std::collections::LinkedList;
use std::sync::{Arc, Mutex};

#[test]
fn log() {
    let reporter = Arc::new(MockReporter::default());
    let logger = Logger::new("service_name", "instance_name", reporter.clone());

    {
        logger.log_at(LogRecord::new(), 10);
        assert_eq!(
            reporter.pop(),
            LogData {
                timestamp: 10,
                service: "service_name".to_owned(),
                service_instance: "instance_name".to_owned(),
                body: Some(LogDataBody {
                    body_type: "".to_owned(),
                    content: Some(Content::Text(TextLog {
                        text: "".to_owned()
                    }))
                }),
                ..Default::default()
            }
        );
    }

    {
        logger.log_at(LogRecord::new().ignore_time(), 10);
        assert_eq!(
            reporter.pop(),
            LogData {
                timestamp: 0,
                service: "service_name".to_owned(),
                service_instance: "instance_name".to_owned(),
                body: Some(LogDataBody {
                    body_type: "".to_owned(),
                    content: Some(Content::Text(TextLog {
                        text: "".to_owned()
                    }))
                }),
                ..Default::default()
            }
        );
    }

    {
        logger.log_at(
            LogRecord::new()
                .endpoint("endpoint")
                .add_tag("foo", "foo")
                .add_tags(&[("bar", "bar")])
                .record_type(RecordType::Json)
                .content(r#"{"content": "something to log"}"#),
            10,
        );
        assert_eq!(
            reporter.pop(),
            LogData {
                timestamp: 10,
                service: "service_name".to_owned(),
                service_instance: "instance_name".to_owned(),
                endpoint: "endpoint".to_owned(),
                tags: Some(LogTags {
                    data: vec![
                        KeyStringValuePair {
                            key: "foo".to_owned(),
                            value: "foo".to_owned()
                        },
                        KeyStringValuePair {
                            key: "bar".to_owned(),
                            value: "bar".to_owned()
                        },
                    ],
                }),
                body: Some(LogDataBody {
                    body_type: "".to_owned(),
                    content: Some(Content::Json(JsonLog {
                        json: r#"{"content": "something to log"}"#.to_owned()
                    }))
                }),
                ..Default::default()
            }
        );
    }
}

#[test]
fn integrate_trace() {
    let reporter = Arc::new(MockReporter::default());
    let tracer = Tracer::new("service_name", "instance_name", reporter.clone());
    let logger = Logger::new("service_name", "instance_name", reporter.clone());

    let mut ctx = tracer.create_trace_context();
    let span = ctx.create_entry_span("operation_name");

    logger.log_at(LogRecord::new().with_tracing_context(&ctx).with_span(&span), 10);

    assert_eq!(
        reporter.pop(),
        LogData {
            timestamp: 10,
            service: "service_name".to_owned(),
            service_instance: "instance_name".to_owned(),
            trace_context: Some(TraceContext {
                trace_id: ctx.trace_id().to_owned(),
                trace_segment_id: ctx.trace_segment_id().to_owned(),
                span_id: span.span_id()
            }),
            body: Some(LogDataBody {
                body_type: "".to_owned(),
                content: Some(Content::Text(TextLog {
                    text: "".to_owned()
                }))
            }),
            ..Default::default()
        }
    );
}

#[test]
fn custom_time_and_yaml_content() {
    let data = LogRecord::new()
        .custom_time(1234)
        .record_type(RecordType::Yaml)
        .content("a: 1")
        .convert_to_log_data("svc".to_owned(), "inst".to_owned());
    assert_eq!(data.timestamp, 1234);
    assert_eq!(data.tags, None);
    assert_eq!(data.trace_context, None);
    assert_eq!(
        data.body,
        Some(LogDataBody {
            body_type: "".to_owned(),
            content: Some(Content::Yaml(YamlLog { yaml: "a: 1".to_owned() })),
        })
    );
    // The time is ignored even where a custom time is set.
    let ignored = LogRecord::new().custom_time(1234).ignore_time().convert_to_log_data_at("s".to_owned(), "i".to_owned(), 99);
    assert_eq!(ignored.timestamp, 0);
    // Without a span id there is no trace context.
    let tracer = Tracer::new("s", "i", ());
    let ctx = tracer.create_trace_context();
    let partial = LogRecord::new().with_tracing_context(&ctx).convert_to_log_data_at("s".to_owned(), "i".to_owned(), 5);
    assert_eq!(partial.trace_context, None);
    assert_eq!(partial.timestamp, 5);
}

#[test]
fn logger_items() {
    let logger = Logger::new("svc", "inst", ());
    match logger.log_item_at(LogRecord::new().endpoint("/e").content("hi"), 42) {
        CollectItem::Log(d) => {
            assert_eq!(d.timestamp, 42);
            assert_eq!(d.service, "svc");
            assert_eq!(d.service_instance, "inst");
            assert_eq!(d.endpoint, "/e");
        }
        other => panic!("unexpected item {:?}", other),
    }
    match logger.log_item(LogRecord::new().custom_time(9)) {
        CollectItem::Log(d) => {
            assert_eq!(d.timestamp, 9);
            assert_eq!(d.service, "svc");
        }
        other => panic!("unexpected item {:?}", other),
    }
}

#[derive(Default, Clone)]
struct MockReporter {
    items: Arc<Mutex<LinkedList<LogData>>>,
}

impl MockReporter {
    fn pop(&self) -> LogData {
        self.items.try_lock().unwrap().pop_back().unwrap()
    }
}

impl Report for MockReporter {
    fn report(&self, item: CollectItem) {
        match item {
            CollectItem::Log(data) => {
                self.items.try_lock().unwrap().push_back(*data);
            }
            _ => {}
        }
    }
}

#[test]
fn add_tags_is_add_tag_in_order() {
    let ctx_less = |r: LogRecord| r.convert_to_log_data_at("s".to_owned(), "i".to_owned(), 1);
    let at_once = ctx_less(LogRecord::new().add_tag("a", "1").add_tags(&[("b", "2"), ("c", "3")]));
    let one_by_one = ctx_less(LogRecord::new().add_tag("a", "1").add_tag("b", "2").add_tag("c", "3"));
    assert_eq!(at_once, one_by_one);
    let none = ctx_less(LogRecord::new().add_tags(&[]));
    assert_eq!(none, ctx_less(LogRecord::new()));
}
