use skywalking::proto::v3::{KeyStringValuePair, Log, RefType, SegmentObject, SegmentReference, SpanLayer, SpanType};
use skywalking::reporter::log::LogReporter;
use skywalking::reporter::{CollectItem, Report};
use skywalking::trace::propagation::decoder::decode_propagation;
use skywalking::trace::propagation::encoder::encode_propagation;
use skywalking::trace::span::AbstractSpan;
use skywalking::trace::tracer::Tracer;
use std::sync::{Arc, Mutex};

#[test]
fn crossprocess_test() {
    let tracer = Tracer::new("service", "instance", LogReporter::new());
    let mut context1 = tracer.create_trace_context();
    assert_eq!(context1.service(), "service");
    assert_eq!(context1.service_instance(), "instance");

    let _span1 = context1.create_entry_span("op1");
    {
        let _span2 = context1.create_exit_span("op2", "remote_peer");

        {
            let enc_prop = encode_propagation(&context1, "endpoint", "address");
            let dec_prop = decode_propagation(&enc_prop).unwrap();

            let tracer = Tracer::new("service2", "instance2", LogReporter::new());
            let mut context2 = tracer.create_trace_context();

            let span3 = context2.create_entry_span_with_propagation("op2", &dec_prop);
            context2.finalize_span(span3);

            let span3 = context2.last_span().unwrap();
            assert_eq!(span3.span_id, 0);
            assert_eq!(span3.parent_span_id, -1);
            assert_eq!(span3.refs.len(), 1);

            let expected_ref = SegmentReference {
                ref_type: RefType::CrossProcess as i32,
                trace_id: context2.trace_id().to_owned(),
                parent_trace_segment_id: context1.trace_segment_id().to_owned(),
                parent_span_id: 1,
                parent_service: context1.service().to_owned(),
                parent_service_instance: context1.service_instance().to_owned(),
                parent_endpoint: "endpoint".to_string(),
                network_address_used_at_peer: "address".to_string(),
            };

            assert_eq!(expected_ref, span3.refs[0]);
            assert_eq!(context2.trace_id(), context1.trace_id());
        }
    }
}

#[derive(Default, Clone)]
struct SegmentCollector {
    segments: Arc<Mutex<Vec<SegmentObject>>>,
}

impl Report for SegmentCollector {
    fn report(&self, item: CollectItem) {
        if let CollectItem::Trace(segment) = item {
            self.segments.lock().unwrap().push(*segment);
        }
    }
}

#[test]
fn spans_nest_and_segment_is_reported() {
    let collector = SegmentCollector::default();
    let tracer = Tracer::new("service", "instance", collector.clone());
    let mut context = tracer.create_trace_context();

    let mut span1 = context.create_entry_span_at("op1", 1);
    span1.add_log_at(&[("hoge", "fuga"), ("hoge2", "fuga2")], 10);
    span1.add_tag("hoge", "fuga");
    {
        let span2 = context.create_local_span_at("op2", 1);
        assert_eq!(span2.span_object().parent_span_id, 0);
        context.finalize_span_at(span2, 100);
    }
    {
        let span3 = context.create_exit_span_at("op3", "example.com/test", 1);
        context.finalize_span_at(span3, 100);
        let last = context.last_span().unwrap();
        assert_eq!(last.span_id, 2);
        assert_eq!(last.parent_span_id, 0);
        assert_eq!(last.start_time, 1);
        assert_eq!(last.end_time, 100);
        assert_eq!(last.operation_name, "op3");
        assert_eq!(last.peer, "example.com/test");
        assert_eq!(last.span_type, SpanType::Exit as i32);
        assert_eq!(last.span_layer, SpanLayer::Unknown as i32);
        assert_eq!(last.component_id, 11000);
    }
    assert_eq!(context.peek_active_span_id(), Some(0));
    context.finalize_span_at(span1, 100);
    assert_eq!(context.peek_active_span_id(), None);
    let last = context.last_span().unwrap();
    assert_eq!(last.span_id, 0);
    assert_eq!(last.parent_span_id, -1);
    assert_eq!(last.span_type, SpanType::Entry as i32);
    assert_eq!(last.span_layer, SpanLayer::Http as i32);
    assert_eq!(
        last.logs,
        vec![Log {
            time: 10,
            data: vec![
                KeyStringValuePair { key: "hoge".to_owned(), value: "fuga".to_owned() },
                KeyStringValuePair { key: "hoge2".to_owned(), value: "fuga2".to_owned() },
            ],
        }]
    );
    assert_eq!(last.tags, vec![KeyStringValuePair { key: "hoge".to_owned(), value: "fuga".to_owned() }]);

    tracer.finalize_context(&mut context);
    let segments = collector.segments.lock().unwrap();
    assert_eq!(segments.len(), 1);
    let segment = &segments[0];
    assert_eq!(segment.trace_id.len(), 32);
    assert_eq!(segment.trace_segment_id.len(), 32);
    assert_eq!(segment.service, "service");
    assert_eq!(segment.service_instance, "instance");
    assert!(!segment.is_size_limited);
    let ids: Vec<i32> = segment.spans.iter().map(|s| s.span_id).collect();
    assert_eq!(ids, vec![1, 2, 0]);
    assert!(context.last_span().is_none());
}

#[test]
fn cross_thread_snapshot_continues_trace() {
    let tracer = Tracer::new("service", "instance", ());
    let mut ctx1 = tracer.create_trace_context();
    let snapshot0 = ctx1.capture();
    assert!(!snapshot0.is_valid());
    let _span1 = ctx1.create_entry_span("op1");
    let _span2 = ctx1.create_local_span("op2");
    let snapshot = ctx1.capture();
    assert!(snapshot.is_valid());
    assert!(snapshot.is_from_current(&ctx1));

    let mut ctx2 = tracer.create_trace_context();
    assert!(!snapshot.is_from_current(&ctx2));
    let span3 = ctx2.create_entry_span("op3");
    ctx2.continued(snapshot);
    assert_eq!(ctx2.trace_id(), ctx1.trace_id());
    ctx2.finalize_span(span3);
    let last = ctx2.last_span().unwrap();
    assert_eq!(
        last.refs,
        vec![SegmentReference {
            ref_type: RefType::CrossThread as i32,
            trace_id: ctx1.trace_id().to_owned(),
            parent_trace_segment_id: ctx1.trace_segment_id().to_owned(),
            parent_span_id: 1,
            parent_service: "service".to_owned(),
            parent_service_instance: "instance".to_owned(),
            parent_endpoint: "op2".to_owned(),
            network_address_used_at_peer: "".to_owned(),
        }]
    );
}

#[test]
fn async_span_finishes_in_its_place() {
    let tracer = Tracer::new("service", "instance", ());
    let mut ctx = tracer.create_trace_context();
    let span1 = ctx.create_entry_span_at("op1", 1);
    let span2 = ctx.create_local_span_at("op2", 1);
    let mut async_span = span2.prepare_for_async(&mut ctx);
    assert_eq!(ctx.peek_active_span_id(), Some(0));
    assert!(ctx.last_span().is_none());
    ctx.finalize_span_at(span1, 50);
    async_span.add_tag("k", "v");
    ctx.finalize_async_span_at(async_span, 70);
    let segment = ctx.convert_to_segment_object();
    assert_eq!(segment.spans.len(), 2);
    assert_eq!(segment.spans[0].span_id, 1);
    assert_eq!(segment.spans[0].end_time, 70);
    assert_eq!(segment.spans[0].tags, vec![KeyStringValuePair { key: "k".to_owned(), value: "v".to_owned() }]);
    assert_eq!(segment.spans[1].span_id, 0);
    assert_eq!(segment.spans[1].end_time, 50);
}

#[test]
fn tracer_clone_shares_names() {
    let tracer = Tracer::new("service", "instance", ());
    let other = tracer.clone();
    assert_eq!(other.service_name(), "service");
    assert_eq!(other.instance_name(), "instance");
    let ctx = other.create_trace_context();
    assert_eq!(ctx.service(), "service");
    assert_eq!(ctx.service_instance(), "instance");
    assert_ne!(ctx.trace_id(), ctx.trace_segment_id());
}

#[test]
fn fresh_ids_are_lower_hex_and_finished_span_keeps_its_object() {
    let tracer = Tracer::new("service", "instance", ());
    let mut ctx = tracer.create_trace_context();
    for id in [ctx.trace_id().to_owned(), ctx.trace_segment_id().to_owned()] {
        assert_eq!(id.len(), 32);
        assert!(id.chars().all(|c| c.is_ascii_digit() || ('a'..='f').contains(&c)));
    }
    assert_ne!(ctx.trace_id(), ctx.trace_segment_id());
    let span = ctx.create_entry_span("op");
    ctx.finalize_span(span);
    let last = ctx.last_span().unwrap();
    assert_eq!(last.operation_name, "op");
    assert_eq!(last.span_id, 0);
    assert!(last.end_time >= last.start_time);
    assert!(last.end_time > 0);
}
