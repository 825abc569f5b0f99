use skywalking::metrics::meter::{histogram_data, single_value_data, Gauge, MeterId, MeterType, Transform};
use skywalking::metrics::metricer::Metricer;
use skywalking::metrics::record::MeterRecord;
use skywalking::proto::v3::meter_data::Metric;
use skywalking::proto::v3::{Label, MeterBucketValue, MeterData};
use skywalking::reporter::{CollectItem, Report};
use std::sync::{Arc, Mutex};

fn labels(l: &[(&str, &str)]) -> Vec<Label> {
    l.iter().map(|(k, v)| Label { name: k.to_string(), value: v.to_string() }).collect()
}

#[test]
fn meter_ids_and_labels() {
    let id = MeterId::new("instance_trace_count", MeterType::Counter)
        .add_label("region", "us-west")
        .add_labels(&[("az", "az-1")]);
    assert_eq!(id.name(), "instance_trace_count");
    assert_eq!(id.typ(), MeterType::Counter);
    assert_eq!(id.proto_labels(), labels(&[("region", "us-west"), ("az", "az-1")]));
    assert!(id.same(&id.clone()));
    assert!(!id.same(&MeterId::new("instance_trace_count", MeterType::Gauge).add_label("region", "us-west").add_label("az", "az-1")));
    assert!(!id.same(&MeterId::new("instance_trace_count", MeterType::Counter).add_label("region", "us-west")));

    let gauge = Gauge::new("g", 7u64).add_label("k", "v");
    assert_eq!(gauge.id().typ(), MeterType::Gauge);
    assert_eq!(*gauge.getter(), 7);
    assert_eq!(gauge.id().proto_labels(), labels(&[("k", "v")]));
}

#[test]
fn meter_data_of_samples() {
    let id = MeterId::new("h", MeterType::Histogram).add_label("a", "b");
    let value = 30.0f64.to_bits();
    let single = single_value_data(&id, "svc", "inst", 100, value);
    assert_eq!(single.service, "svc");
    assert_eq!(single.service_instance, "inst");
    assert_eq!(single.timestamp, 100);
    match single.metric {
        Some(Metric::SingleValue(v)) => {
            assert_eq!(v.name, "h");
            assert_eq!(v.labels, labels(&[("a", "b")]));
            assert_eq!(f64::from_bits(v.value), 30.0);
        }
        _ => panic!("not a single value"),
    }
    let hist = histogram_data(&id, "svc", "inst", 5, &[(10.0f64.to_bits(), 1), (20.0f64.to_bits(), 2)]);
    match hist.metric {
        Some(Metric::Histogram(h)) => {
            assert_eq!(
                h.values,
                vec![
                    MeterBucketValue { bucket: 10.0f64.to_bits(), count: 1, is_negative_infinity: false },
                    MeterBucketValue { bucket: 20.0f64.to_bits(), count: 2, is_negative_infinity: false },
                ]
            );
        }
        _ => panic!("not a histogram"),
    }
}

#[test]
fn meter_records() {
    let data = MeterRecord::new().custome_time(1000).into_meter_data("s", "i");
    assert_eq!(data.timestamp, 1000);
    assert_eq!(data.metric, None);
    let sv = MeterRecord::new()
        .custome_time(7)
        .single_value()
        .name("n")
        .add_label("a", "1")
        .add_labels(&[("b", "2")])
        .value(2.5f64.to_bits())
        .into_meter_data("s", "i");
    assert_eq!(sv.timestamp, 7);
    match sv.metric {
        Some(Metric::SingleValue(v)) => {
            assert_eq!(v.name, "n");
            assert_eq!(v.labels, labels(&[("a", "1"), ("b", "2")]));
            assert_eq!(f64::from_bits(v.value), 2.5);
        }
        _ => panic!("not a single value"),
    }
    let h = MeterRecord::new()
        .histogram()
        .name("h")
        .add_value(1.0f64.to_bits(), 3, true)
        .into_meter_data_at("s", "i", 11);
    assert_eq!(h.timestamp, 11);
    match h.metric {
        Some(Metric::Histogram(m)) => {
            assert_eq!(m.values, vec![MeterBucketValue { bucket: 1.0f64.to_bits(), count: 3, is_negative_infinity: true }]);
        }
        _ => panic!("not a histogram"),
    }
}

struct Fixed {
    id: MeterId,
    value: f64,
}

impl Transform for Fixed {
    fn held_id(&self) -> MeterId {
        self.id.clone()
    }

    fn meter_id(&self) -> MeterId {
        self.id.clone()
    }

    fn transform(&self, service_name: &str, instance_name: &str) -> MeterData {
        single_value_data(&self.id, service_name, instance_name, 1, self.value.to_bits())
    }
}

#[derive(Default, Clone)]
struct Collector {
    items: Arc<Mutex<Vec<MeterData>>>,
}

impl Report for Collector {
    fn report(&self, item: CollectItem) {
        if let CollectItem::Meter(m) = item {
            self.items.lock().unwrap().push(*m);
        }
    }
}

#[test]
fn metricer_registers_and_reports() {
    let collector = Collector::default();
    let mut metricer = Metricer::new("service_name", "instance_name", collector.clone());
    assert_eq!(metricer.service_name(), "service_name");
    assert_eq!(metricer.instance_name(), "instance_name");
    assert_eq!(metricer.report_interval(), 20000);
    metricer.set_report_interval(100);
    assert_eq!(metricer.report_interval(), 100);
    let id = MeterId::new("instance_trace_count", MeterType::Counter).add_label("region", "us-west").add_label("az", "az-1");
    metricer.register(Arc::new(Fixed { id: id.clone(), value: 10.0 }));
    metricer.register(Arc::new(Fixed { id: MeterId::new("other", MeterType::Gauge), value: 1.0 }));
    // The same identity replaces the first meter.
    metricer.register(Arc::new(Fixed { id, value: 30.0 }));
    metricer.report_all();
    let items = collector.items.lock().unwrap();
    assert_eq!(items.len(), 2);
    match &items[0].metric {
        Some(Metric::SingleValue(v)) => {
            assert_eq!(v.name, "instance_trace_count");
            assert_eq!(f64::from_bits(v.value), 30.0);
            assert_eq!(v.labels, labels(&[("region", "us-west"), ("az", "az-1")]));
        }
        _ => panic!("not a single value"),
    }
    assert_eq!(items[0].service, "service_name");
}

#[test]
fn register_with_id_replaces_equal_identity() {
    let collector = Collector::default();
    let mut metricer = Metricer::new("s", "i", collector.clone());
    let id = MeterId::new("m", MeterType::Gauge).add_label("k", "v");
    // The identity given, not the transform's own, decides.
    metricer.register_with_id(id.clone(), Arc::new(Fixed { id: MeterId::new("x", MeterType::Gauge), value: 1.0 }));
    metricer.register_with_id(MeterId::new("m", MeterType::Counter), Arc::new(Fixed { id: MeterId::new("y", MeterType::Gauge), value: 2.0 }));
    metricer.register_with_id(id, Arc::new(Fixed { id: MeterId::new("z", MeterType::Gauge), value: 3.0 }));
    metricer.report_all();
    let items = collector.items.lock().unwrap();
    assert_eq!(items.len(), 2);
    let values: Vec<f64> = items
        .iter()
        .map(|d| match &d.metric {
            Some(Metric::SingleValue(v)) => f64::from_bits(v.value),
            _ => panic!("not a single value"),
        })
        .collect();
    assert_eq!(values, vec![3.0, 2.0]);
}
