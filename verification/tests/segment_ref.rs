use skywalking::tracing_core::id::ID;
use skywalking::tracing_core::segment_ref::{SegmentRef, SegmentRefType};

#[test]
fn test_deserialize_context_carrier() {
    let carrier = SegmentRef::from_text("1-My40LjU=-MS4yLjM=-4-1-1-IzEyNy4wLjAuMTo4MDgw-Iy9wb3J0YWw=-MTIz").unwrap();
    assert_eq!(carrier.get_trace_id() == ID::new(3, 4, 5), true);
    assert_eq!(carrier.segment_id() == ID::new(1, 2, 3), true);
    assert_eq!(carrier.span_id(), 4);
    assert_eq!(carrier.entry_service_instance_id(), 1);
    assert_eq!(carrier.parent_service_instance_id(), 1);
    assert_eq!(carrier.network_address(), Some("127.0.0.1:8080"));
    assert_eq!(carrier.entry_endpoint(), Some("/portal"));
    assert_eq!(carrier.parent_endpoint_id(), 123);
}

#[test]
fn test_serialize_ref() {
    let carrier = SegmentRef::from_text("1-My40LjU=-MS4yLjM=-4-1-1-IzEyNy4wLjAuMTo4MDgw-Iy9wb3J0YWw=-MTIz").unwrap();
    assert_eq!(carrier.get_trace_id() == ID::new(3, 4, 5), true);
    assert_eq!(carrier.segment_id() == ID::new(1, 2, 3), true);
    assert_eq!(carrier.span_id(), 4);
    assert_eq!(carrier.entry_service_instance_id(), 1);
    assert_eq!(carrier.parent_service_instance_id(), 1);
    assert_eq!(carrier.network_address(), Some("127.0.0.1:8080"));
    assert_eq!(carrier.entry_endpoint(), Some("/portal"));
    assert_eq!(carrier.parent_endpoint_id(), 123);

    let carrier_text = carrier.serialize();
    assert_eq!(carrier_text, "1-My40LjU=-MS4yLjM=-4-1-1-IzEyNy4wLjAuMTo4MDgw-Iy9wb3J0YWw=-MTIz");
}

#[test]
fn from_text_refuses_malformed_headers() {
    // Eight parts.
    assert!(SegmentRef::from_text("1-My40LjU=-MS4yLjM=-4-1-1-IzEyNy4wLjAuMTo4MDgw-Iy9wb3J0YWw=").is_none());
    // A trace id that is not three integers ("3.4").
    assert!(SegmentRef::from_text("1-My40-MS4yLjM=-4-1-1-IzEyNy4wLjAuMTo4MDgw-Iy9wb3J0YWw=-MTIz").is_none());
    // A span id that is not a number.
    assert!(SegmentRef::from_text("1-My40LjU=-MS4yLjM=-x-1-1-IzEyNy4wLjAuMTo4MDgw-Iy9wb3J0YWw=-MTIz").is_none());
    // Not base64.
    assert!(SegmentRef::from_text("1-My40LjU=-MS4yLjM=-4-1-1-***-Iy9wb3J0YWw=-MTIz").is_none());
    // A parent endpoint that is neither a name nor an id ("abc").
    assert!(SegmentRef::from_text("1-My40LjU=-MS4yLjM=-4-1-1-IzEyNy4wLjAuMTo4MDgw-Iy9wb3J0YWw=-YWJj").is_none());
}

#[test]
fn across_process_reference_reads_back() {
    let first = SegmentRef::from_text("1-My40LjU=-MS4yLjM=-4-1-1-IzEyNy4wLjAuMTo4MDgw-Iy9wb3J0YWw=-MTIz").unwrap();
    let r = SegmentRef::for_across_process(ID::new(7, 8, 9), ID::new(1, 1, 1), 2, 5, Some(&first), Some("/local"), "10.0.0.1:80");
    assert_eq!(r.ref_type(), SegmentRefType::CROSS_PROCESS);
    assert_eq!(r.span_id(), 2);
    assert_eq!(r.parent_service_instance_id(), 5);
    assert_eq!(r.entry_service_instance_id(), 1);
    assert_eq!(r.entry_endpoint(), Some("/portal"));
    assert_eq!(r.entry_endpoint_id(), 0);
    assert_eq!(r.parent_endpoint(), Some("/local"));
    assert_eq!(r.parent_endpoint_id(), 0);
    assert_eq!(r.network_address(), Some("10.0.0.1:80"));
    let back = SegmentRef::from_text(&r.serialize()).unwrap();
    assert!(back.get_trace_id() == ID::new(7, 8, 9));
    assert!(back.segment_id() == ID::new(1, 1, 1));
    assert_eq!(back.span_id(), 2);
    assert_eq!(back.entry_endpoint(), Some("/portal"));
    assert_eq!(back.parent_endpoint(), Some("/local"));
    assert_eq!(back.network_address(), Some("10.0.0.1:80"));

    let fresh = SegmentRef::for_across_process(ID::new(1, 2, 3), ID::new(4, 5, 6), 0, 9, None, None, "peer");
    assert_eq!(fresh.entry_service_instance_id(), 9);
    assert_eq!(fresh.entry_endpoint(), None);
    assert_eq!(fresh.entry_endpoint_id(), -1);
    assert_eq!(fresh.parent_endpoint_id(), -1);
    let again = SegmentRef::from_text(&fresh.serialize()).unwrap();
    assert_eq!(again.entry_endpoint_id(), -1);
    assert_eq!(again.parent_endpoint(), None);
}

#[test]
fn id_text_reads_back() {
    let id = ID::new(-3, 0, 9_000_000_000);
    assert_eq!(id.to_string(), "-3.0.9000000000");
    assert!(ID::from(&id.to_string()) == Some(id));
    assert!(ID::from("1.2").is_none());
    assert!(ID::from("1.2.x").is_none());
}
