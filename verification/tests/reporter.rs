use skywalking::proto::v3::{InstancePingPkg, InstanceProperties, LogData, MeterData, SegmentObject};
use skywalking::reporter::kafka::{
    admit_item, kafka_destination, ClientConfig, DefaultErrHandle, KafkaReportBuilder, LogLevel, TopicNames,
    TOPIC_LOG, TOPIC_MANAGEMENT, TOPIC_METER, TOPIC_SEGMENT,
};
use skywalking::reporter::log::{LogReporter, Used};
use skywalking::reporter::print::{item_label, PrintReporter};
use skywalking::reporter::reporting::{grpc_route, Consumed, GrpcRoute, Phase, ReportingLoop, Step};
use skywalking::reporter::{CollectItem, ItemKind};

#[test]
fn client_config_keeps_last_value_of_each_key() {
    let mut config = ClientConfig::new();
    config
        .set("bootstrap.servers", "127.0.0.1:9092")
        .set("message.timeout.ms", "6000")
        .set("bootstrap.servers", "broker:9092");
    config.set_log_level(LogLevel::Debug);
    let params: Vec<(String, String)> = config.params().clone();
    assert_eq!(
        params,
        vec![
            ("bootstrap.servers".to_owned(), "broker:9092".to_owned()),
            ("message.timeout.ms".to_owned(), "6000".to_owned()),
        ]
    );
    assert_eq!(config.log_level(), Some(LogLevel::Debug));
    assert_eq!(ClientConfig::default().params().len(), 0);
}

#[test]
fn topics_under_namespace() {
    let plain = TopicNames::new(None);
    assert_eq!(plain.segment, TOPIC_SEGMENT);
    assert_eq!(plain.meter, TOPIC_METER);
    assert_eq!(plain.log, TOPIC_LOG);
    assert_eq!(plain.management, TOPIC_MANAGEMENT);
    let ns = TopicNames::new(Some("prod"));
    assert_eq!(ns.segment, "prod-skywalking-segments");
    assert_eq!(ns.log, "prod-skywalking-logs");
    assert_eq!(TopicNames::real_topic_name(Some("a"), "b"), "a-b");
}

#[test]
fn kafka_destination_of_each_item() {
    let topics = TopicNames::new(Some("ns"));
    let trace = CollectItem::Trace(Box::new(SegmentObject { trace_segment_id: "seg".to_owned(), ..Default::default() }));
    assert_eq!(kafka_destination(&topics, &trace), ("ns-skywalking-segments".to_owned(), b"seg".to_vec()));
    let log = CollectItem::Log(Box::new(LogData { service: "svc".to_owned(), ..Default::default() }));
    assert_eq!(kafka_destination(&topics, &log), ("ns-skywalking-logs".to_owned(), b"svc".to_vec()));
    let meter = CollectItem::Meter(Box::new(MeterData { service_instance: "i1".to_owned(), ..Default::default() }));
    assert_eq!(kafka_destination(&topics, &meter), ("ns-skywalking-meters".to_owned(), b"i1".to_vec()));
    let instance = CollectItem::Instance(Box::new(InstanceProperties { service_instance: "i2".to_owned(), ..Default::default() }));
    assert_eq!(kafka_destination(&topics, &instance), ("ns-skywalking-managements".to_owned(), b"register-i2".to_vec()));
    let ping = CollectItem::Ping(Box::new(InstancePingPkg { service_instance: "i3".to_owned(), ..Default::default() }));
    assert_eq!(kafka_destination(&topics, &ping), ("ns-skywalking-logs".to_owned(), b"i3".to_vec()));
}

#[test]
fn reporting_loop_delivers_closes_and_flushes() {
    let mut l = ReportingLoop::new();
    assert_eq!(l.phase(), Phase::Consuming);
    assert!(l.accepts());
    let item = CollectItem::Log(Box::new(LogData::default()));
    assert!(matches!(l.on_consumed(Consumed::Item(item)), Step::Deliver(CollectItem::Log(_))));
    assert!(matches!(l.on_shutdown(), Step::Close));
    assert!(l.is_closed());
    assert!(!l.accepts());
    assert_eq!(l.phase(), Phase::Flushing);
    assert!(matches!(l.on_shutdown(), Step::Ignore));
    let item = CollectItem::Meter(Box::new(MeterData::default()));
    assert!(matches!(l.on_consumed(Consumed::Item(item)), Step::Deliver(CollectItem::Meter(_))));
    assert!(matches!(l.on_consumed(Consumed::Exhausted), Step::Finish));
    assert_eq!(l.phase(), Phase::Finished);
    assert!(l.is_closed());

    let mut failing = ReportingLoop::new();
    assert!(matches!(failing.on_consumed(Consumed::Failed), Step::Fail));
    assert_eq!(failing.phase(), Phase::Failed);
    assert!(!failing.is_closed());

    let mut exhausted = ReportingLoop::new();
    assert!(matches!(exhausted.on_consumed(Consumed::Exhausted), Step::Close));
    assert!(matches!(exhausted.on_consumed(Consumed::Failed), Step::Fail));
    assert!(exhausted.is_closed());
}

#[test]
fn grpc_routes() {
    assert_eq!(grpc_route(ItemKind::Trace), GrpcRoute::TraceStream);
    assert_eq!(grpc_route(ItemKind::Log), GrpcRoute::LogStream);
    assert_eq!(grpc_route(ItemKind::Meter), GrpcRoute::MeterStream);
    assert_eq!(grpc_route(ItemKind::Instance), GrpcRoute::ReportInstanceProperties);
    assert_eq!(grpc_route(ItemKind::Ping), GrpcRoute::KeepAlive);
}

#[test]
fn print_reporter_lines() {
    assert!(!PrintReporter::new().uses_stderr());
    assert!(PrintReporter::new().use_stderr(true).uses_stderr());
    assert_eq!(item_label(ItemKind::Trace), "trace segment=");
    assert_eq!(item_label(ItemKind::Instance), "instance properties data=");
    let item = CollectItem::Ping(Box::new(InstancePingPkg { service: "s".to_owned(), ..Default::default() }));
    let line = PrintReporter::line(&item);
    assert_eq!(line, format!("ping data={:?}", InstancePingPkg { service: "s".to_owned(), ..Default::default() }));
}

#[test]
fn print_reporter_line_holds_the_debug_text_of_each_kind() {
    let segment = SegmentObject { trace_id: "t".to_owned(), ..Default::default() };
    let line = PrintReporter::line(&CollectItem::Trace(Box::new(SegmentObject { trace_id: "t".to_owned(), ..Default::default() })));
    assert_eq!(line, format!("trace segment={:?}", segment));
    assert!(line.contains("trace_id: \"t\""));
    let log = LogData { endpoint: "e".to_owned(), ..Default::default() };
    let line = PrintReporter::line(&CollectItem::Log(Box::new(LogData { endpoint: "e".to_owned(), ..Default::default() })));
    assert_eq!(line, format!("log data={:?}", log));
    let meter = MeterData { timestamp: 7, ..Default::default() };
    let line = PrintReporter::line(&CollectItem::Meter(Box::new(MeterData { timestamp: 7, ..Default::default() })));
    assert_eq!(line, format!("meter data={:?}", meter));
    let props = InstanceProperties { layer: "l".to_owned(), ..Default::default() };
    let line = PrintReporter::line(&CollectItem::Instance(Box::new(InstanceProperties { layer: "l".to_owned(), ..Default::default() })));
    assert_eq!(line, format!("instance properties data={:?}", props));
}

#[test]
fn reporting_loop_run_delivers_items_in_order_until_finished() {
    let mut l = ReportingLoop::new();
    let mut delivered = Vec::new();
    let events = vec![
        Consumed::Item(CollectItem::Ping(Box::new(InstancePingPkg { service: "a".to_owned(), ..Default::default() }))),
        Consumed::Item(CollectItem::Ping(Box::new(InstancePingPkg { service: "b".to_owned(), ..Default::default() }))),
        Consumed::Exhausted,
        Consumed::Item(CollectItem::Ping(Box::new(InstancePingPkg { service: "c".to_owned(), ..Default::default() }))),
        Consumed::Exhausted,
        Consumed::Item(CollectItem::Ping(Box::new(InstancePingPkg { service: "d".to_owned(), ..Default::default() }))),
    ];
    for e in events {
        if let Step::Deliver(CollectItem::Ping(p)) = l.on_consumed(e) {
            delivered.push(p.service);
        }
    }
    assert_eq!(delivered, vec!["a", "b", "c"]);
    assert_eq!(l.phase(), Phase::Finished);
    assert!(l.is_closed());
}

#[test]
fn log_reporter_builders() {
    let reporter = LogReporter::new();
    assert_eq!(reporter.tip_text(), "Collect");
    assert_eq!(reporter.used(), Used::Println);
    let reporter = reporter.tip("Sent".to_owned()).use_tracing();
    assert_eq!(reporter.tip_text(), "Sent");
    assert_eq!(reporter.used(), Used::Tracing);
    assert_eq!(reporter.use_println().used(), Used::Println);
}

#[test]
fn kafka_builder_parts() {
    let mut config = ClientConfig::new();
    config.set("bootstrap.servers", "broker:9092");
    let builder = KafkaReportBuilder::new_with_pc(config, (), ());
    let parts = builder.with_namespace("ns").into_parts();
    assert_eq!(parts.topic_names.segment, "ns-skywalking-segments");
    assert_eq!(parts.topic_names.management, "ns-skywalking-managements");
    assert_eq!(parts.client_config.params().len(), 1);
    assert_eq!(parts.err_handle, DefaultErrHandle);
    let custom = KafkaReportBuilder::new_with_pc(ClientConfig::new(), (), ()).with_err_handle(7u8).into_parts();
    assert_eq!(custom.err_handle, 7u8);
    assert_eq!(custom.topic_names.log, "skywalking-logs");
}

#[test]
fn kafka_reporter_drops_items_once_closing() {
    let item = CollectItem::Ping(Box::new(InstancePingPkg { service: "s".to_owned(), ..Default::default() }));
    assert!(matches!(admit_item(false, item), Some(CollectItem::Ping(p)) if p.service == "s"));
    let item = CollectItem::Ping(Box::new(InstancePingPkg::default()));
    assert!(admit_item(true, item).is_none());
}
