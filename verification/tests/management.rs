use skywalking::management::instance::{
    build_os_info, Network, OsInfo, Properties, KEY_HOST_NAME, KEY_IPV4, KEY_LANGUAGE,
    KEY_OS_NAME, KEY_PROCESS_NO,
};
use skywalking::management::manager::{Heartbeat, KeepAliveSchedule, Manager};
use skywalking::proto::v3::KeyStringValuePair;
use skywalking::reporter::{CollectItem, Report};
use std::sync::{Arc, Mutex};

fn pairs(props: &[(&str, &str)]) -> Vec<KeyStringValuePair> {
    props.iter().map(|(k, v)| KeyStringValuePair { key: k.to_string(), value: v.to_string() }).collect()
}

#[test]
fn properties_insert_update_remove() {
    let mut props = Properties::new();
    props.insert("a", "1");
    props.insert("b", "2");
    props.insert("a", "3");
    props.update("b", "20");
    props.update("missing", "x");
    props.insert("c", "4");
    props.remove("c");
    props.remove("missing");
    let converted = props.convert_to_instance_properties("svc".to_owned(), "inst".to_owned());
    assert_eq!(converted.service, "svc");
    assert_eq!(converted.service_instance, "inst");
    assert_eq!(converted.layer, "");
    assert_eq!(converted.properties, pairs(&[("a", "1"), ("a", "3"), ("b", "20")]));
}

#[test]
fn os_info_items() {
    let info = OsInfo {
        os_name: Some("Linux".to_owned()),
        host_name: Some("host".to_owned()),
        networks: vec![
            Network { name: "lo".to_owned(), ipv4_addrs: vec![Some("127.0.0.1".to_owned())] },
            Network { name: "docker0".to_owned(), ipv4_addrs: vec![Some("172.17.0.1".to_owned())] },
            Network { name: "br-1234".to_owned(), ipv4_addrs: vec![Some("172.18.0.1".to_owned())] },
            Network { name: "eth0".to_owned(), ipv4_addrs: vec![Some("10.0.0.2".to_owned()), None, Some("10.0.0.3".to_owned())] },
        ],
        process_id: 4321,
    };
    let items = build_os_info(&info);
    let expected: Vec<(String, String)> = vec![
        (KEY_OS_NAME.to_owned(), "Linux".to_owned()),
        (KEY_HOST_NAME.to_owned(), "host".to_owned()),
        (KEY_IPV4.to_owned(), "10.0.0.2".to_owned()),
        (KEY_IPV4.to_owned(), "10.0.0.3".to_owned()),
        (KEY_PROCESS_NO.to_owned(), "4321".to_owned()),
        (KEY_LANGUAGE.to_owned(), "rust".to_owned()),
    ];
    assert_eq!(items, expected);

    let mut props = Properties::new();
    props.insert_os_info(&info);
    let converted = props.convert_to_instance_properties("s".to_owned(), "i".to_owned());
    assert_eq!(
        converted.properties,
        pairs(&[
            ("OS Name", "Linux"),
            ("hostname", "host"),
            ("ipv4", "10.0.0.2"),
            ("ipv4", "10.0.0.3"),
            ("Process No.", "4321"),
            ("language", "rust"),
        ])
    );

    let bare = OsInfo { os_name: None, host_name: None, networks: vec![], process_id: 1 };
    assert_eq!(
        build_os_info(&bare),
        vec![(KEY_PROCESS_NO.to_owned(), "1".to_owned()), (KEY_LANGUAGE.to_owned(), "rust".to_owned())]
    );
}

#[derive(Default, Clone)]
struct Collector {
    items: Arc<Mutex<Vec<CollectItem>>>,
}

impl Report for Collector {
    fn report(&self, item: CollectItem) {
        self.items.lock().unwrap().push(item);
    }
}

#[test]
fn manager_reports_properties_and_pings() {
    let collector = Collector::default();
    let manager = Manager::new("service_name", "instance_name", collector.clone());
    assert_eq!(manager.service_name(), "service_name");
    assert_eq!(manager.instance_name(), "instance_name");
    let mut props = Properties::new();
    props.insert("language", "rust");
    manager.report_properties(props);
    manager.keep_alive();
    let items = collector.items.lock().unwrap();
    assert_eq!(items.len(), 2);
    match &items[0] {
        CollectItem::Instance(p) => {
            assert_eq!(p.service, "service_name");
            assert_eq!(p.service_instance, "instance_name");
            assert_eq!(p.properties, pairs(&[("language", "rust")]));
        }
        other => panic!("unexpected item {:?}", other),
    }
    match &items[1] {
        CollectItem::Ping(p) => {
            assert_eq!(p.service, "service_name");
            assert_eq!(p.service_instance, "instance_name");
            assert_eq!(p.layer, "");
        }
        other => panic!("unexpected item {:?}", other),
    }
}

#[test]
fn manager_items() {
    let mut props = Properties::new();
    props.insert("language", "rust");
    props.insert("language", "c");
    props.insert("os", "linux");
    match Manager::<()>::properties_item("s".to_owned(), "i".to_owned(), props) {
        CollectItem::Instance(p) => {
            assert_eq!(p.service, "s");
            assert_eq!(p.service_instance, "i");
            assert_eq!(p.properties, pairs(&[("language", "rust"), ("language", "c"), ("os", "linux")]));
            assert_eq!(p.layer, "");
        }
        other => panic!("unexpected item {:?}", other),
    }
    match Manager::<()>::ping_item("s".to_owned(), "i".to_owned()) {
        CollectItem::Ping(p) => {
            assert_eq!(p.service, "s");
            assert_eq!(p.service_instance, "i");
            assert_eq!(p.layer, "");
        }
        other => panic!("unexpected item {:?}", other),
    }
}

#[test]
fn keep_alive_schedule_reports_properties_every_factor() {
    let mut schedule = KeepAliveSchedule::new(3);
    let beats: Vec<Heartbeat> = (0..7).map(|_| schedule.tick()).collect();
    assert_eq!(
        beats,
        vec![
            Heartbeat::ReportProperties,
            Heartbeat::KeepAlive,
            Heartbeat::KeepAlive,
            Heartbeat::ReportProperties,
            Heartbeat::KeepAlive,
            Heartbeat::KeepAlive,
            Heartbeat::ReportProperties,
        ]
    );
    let mut every = KeepAliveSchedule::new(0);
    assert_eq!(every.tick(), Heartbeat::ReportProperties);
    assert_eq!(every.tick(), Heartbeat::ReportProperties);
    let mut one = KeepAliveSchedule::new(1);
    assert_eq!(one.tick(), Heartbeat::ReportProperties);
    assert_eq!(one.tick(), Heartbeat::ReportProperties);
}
