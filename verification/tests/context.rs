use skywalking::context::context_manager::ContextManager;
use skywalking::context::propagation::decoder::decode_propagation;
use skywalking::context::trace_context::TracingContext;
use skywalking::proto::v3::{KeyStringValuePair, Log, RefType, SegmentObject, SegmentReference, SpanLayer, SpanObject, SpanType};
use std::sync::{Arc, Mutex};

fn pairs(p: &[(&str, &str)]) -> Vec<KeyStringValuePair> {
    p.iter().map(|(k, v)| KeyStringValuePair { key: k.to_string(), value: v.to_string() }).collect()
}

#[test]
fn create_span() {
    let segments: Arc<Mutex<Vec<SegmentObject>>> = Arc::default();
    let sink = segments.clone();
    let mut manager = ContextManager::new(move |segment: SegmentObject| sink.lock().unwrap().push(segment));
    manager.set_service("service", "instance");
    let mut context = manager.create_trace_context();
    assert_eq!(context.service(), "service");
    assert_eq!(context.service_instance(), "instance");

    {
        let span1 = context.create_entry_span_at("op1", 1);
        let logs = [("hoge", "fuga"), ("hoge2", "fuga2")];
        let expected_log = vec![Log { time: 10, data: pairs(&logs) }];
        span1.add_log_at(&mut context, &logs, 10);
        let expected_tags = pairs(&[("hoge", "fuga")]);
        span1.add_tag(&mut context, "hoge", "fuga");

        {
            let span2 = context.create_local_span_at("op2", 1);
            context.finalize_span_at(span2, 100);
        }

        {
            let span3 = context.create_exit_span_at("op3", "example.com/test", 1);
            context.finalize_span_at(span3, 100);
            let span3_expected = SpanObject {
                span_id: 2,
                parent_span_id: 0,
                start_time: 1,
                end_time: 100,
                refs: Vec::<SegmentReference>::new(),
                operation_name: "op3".to_string(),
                peer: "example.com/test".to_string(),
                span_type: SpanType::Exit as i32,
                span_layer: SpanLayer::Http as i32,
                component_id: 11000,
                is_error: false,
                tags: Vec::<KeyStringValuePair>::new(),
                logs: Vec::<Log>::new(),
                skip_analysis: false,
            };
            assert_eq!(context.last_span(), Some(span3_expected));
        }

        {
            let span4 = context.create_local_span_at("op4", 1);
            {
                let span5 = context.create_exit_span_at("op5", "example.com/test", 1);
                context.finalize_span_at(span5, 100);
                let span5_expected = SpanObject {
                    span_id: 4,
                    parent_span_id: 3,
                    start_time: 1,
                    end_time: 100,
                    refs: Vec::<SegmentReference>::new(),
                    operation_name: "op5".to_string(),
                    peer: "example.com/test".to_string(),
                    span_type: SpanType::Exit as i32,
                    span_layer: SpanLayer::Http as i32,
                    component_id: 11000,
                    is_error: false,
                    tags: Vec::<KeyStringValuePair>::new(),
                    logs: Vec::<Log>::new(),
                    skip_analysis: false,
                };
                assert_eq!(context.last_span(), Some(span5_expected));
            }
            context.finalize_span_at(span4, 100);
        }

        context.finalize_span_at(span1, 100);
        let span1_expected = SpanObject {
            span_id: 0,
            parent_span_id: -1,
            start_time: 1,
            end_time: 100,
            refs: Vec::<SegmentReference>::new(),
            operation_name: "op1".to_string(),
            peer: String::default(),
            span_type: SpanType::Entry as i32,
            span_layer: SpanLayer::Http as i32,
            component_id: 11000,
            is_error: false,
            tags: expected_tags,
            logs: expected_log,
            skip_analysis: false,
        };
        assert_eq!(context.last_span(), Some(span1_expected));
    }

    manager.finalize_context(context);
    let segments = segments.lock().unwrap();
    assert_eq!(segments.len(), 1);
    let segment = &segments[0];
    assert_ne!(segment.trace_id.len(), 0);
    assert_ne!(segment.trace_segment_id.len(), 0);
    assert_eq!(segment.service, "service");
    assert_eq!(segment.service_instance, "instance");
    assert!(!segment.is_size_limited);
    assert_eq!(segment.spans.iter().map(|s| s.span_id).collect::<Vec<_>>(), vec![1, 2, 4, 3, 0]);
}

#[test]
fn context_api_entry_span_with_propagation() {
    let data = "1-MQ==-NQ==-3-bWVzaA==-aW5zdGFuY2U=-L2FwaS92MS9oZWFsdGg=-ZXhhbXBsZS5jb206ODA4MA==";
    let prop = decode_propagation(data).unwrap();
    let mut context = TracingContext::new("service2", "instance2");
    let span = context.create_entry_span_with_propagation("op", &prop);
    assert_eq!(span.span_id(&context), 0);
    context.finalize_span(span);
    let last = context.last_span().unwrap();
    assert_eq!(
        last.refs,
        vec![SegmentReference {
            ref_type: RefType::CrossProcess as i32,
            trace_id: context.trace_id().to_owned(),
            parent_trace_segment_id: "5".to_owned(),
            parent_span_id: 3,
            parent_service: "mesh".to_owned(),
            parent_service_instance: "instance".to_owned(),
            parent_endpoint: "/api/v1/health".to_owned(),
            network_address_used_at_peer: "example.com:8080".to_owned(),
        }]
    );
    assert!(last.end_time > 0);
}

#[test]
fn context_api_cross_threads() {
    let mut ctx1 = TracingContext::new("service", "instance");
    let snapshot0 = ctx1.capture();
    assert!(!snapshot0.is_valid());
    let _span1 = ctx1.create_entry_span("op1");
    let _span2 = ctx1.create_local_span("op2");
    let snapshot = ctx1.capture();
    assert!(snapshot.is_valid());
    assert!(snapshot.is_from_current(&ctx1));

    let mut ctx2 = TracingContext::new("service", "instance");
    let span3 = ctx2.create_entry_span("op3");
    ctx2.continued(snapshot);
    assert_eq!(ctx2.trace_id(), ctx1.trace_id());
    ctx2.finalize_span(span3);
    let segment = ManagerlessSegment::of(ctx2);
    assert_eq!(
        segment.spans.last().unwrap().refs,
        vec![SegmentReference {
            ref_type: RefType::CrossThread as i32,
            trace_id: ctx1.trace_id().to_owned(),
            parent_trace_segment_id: ctx1.trace_segment_id().to_owned(),
            parent_span_id: 1,
            parent_service: "service".to_owned(),
            parent_service_instance: "instance".to_owned(),
            parent_endpoint: "op2".to_owned(),
            network_address_used_at_peer: "".to_owned(),
        }]
    );
}

struct ManagerlessSegment;

impl ManagerlessSegment {
    fn of(context: TracingContext) -> SegmentObject {
        ContextManager::<fn(SegmentObject)>::segment_of(context)
    }
}
