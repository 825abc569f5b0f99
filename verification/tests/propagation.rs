use skywalking::reporter::print::PrintReporter;
use skywalking::trace::propagation::context::PropagationContext;
use skywalking::trace::propagation::decoder::{
    decode_propagation, try_parse_parent_span_id, try_parse_sample_status, ERR_DECODE,
    ERR_PROPERTIES, ERR_SAMPLE, ERR_SPAN_ID,
};
use skywalking::trace::propagation::encoder::encode_propagation;
use skywalking::trace::trace_context::TracingContext;
use skywalking::trace::tracer::Tracer;

#[test]
fn basic() {
    let data = "1-MQ==-NQ==-3-bWVzaA==-aW5zdGFuY2U=-L2FwaS92MS9oZWFsdGg=-ZXhhbXBsZS5jb206ODA4MA==";
    let res = decode_propagation(data).unwrap();

    assert!(res.do_sample);
    assert_eq!(res.parent_trace_id, "1");
    assert_eq!(res.parent_trace_segment_id, "5");
    assert_eq!(res.parent_span_id, 3);
    assert_eq!(res.parent_service, "mesh");
    assert_eq!(res.parent_service_instance, "instance");
    assert_eq!(res.destination_endpoint, "/api/v1/health");
    assert_eq!(res.destination_address, "example.com:8080");
}

#[test]
fn less_field() {
    let data = "1-MQ==-NQ==-3-bWVzaA==-aW5zdGFuY2U=-L2FwaS92MS9oZWFsdGg=";
    let res = decode_propagation(data);

    assert!(res.is_err());
}

#[test]
fn more_field() {
    let data = "1-MQ==-NQ==-3-bWVzaA==-aW5zdGFuY2U=-L2FwaS92MS9oZWFsdGg=-ZXhhbXBsZS5jb206ODA4MA==-hogehoge";
    let res = decode_propagation(data);

    assert!(res.is_err());
}

#[test]
fn invalid_sample() {
    let data = "3-MQ==-NQ==-3-bWVzaA==-aW5zdGFuY2U=-L2FwaS92MS9oZWFsdGg=-ZXhhbXBsZS5jb206ODA4MA==";
    let res = decode_propagation(data);

    assert!(res.is_err());
}

#[test]
fn basic_encode() {
    let tracer = Tracer::new("mesh", "instance", PrintReporter::new());
    let tc = tracer.create_trace_context();
    let res = encode_propagation(&tc, "/api/v1/health", "example.com:8080");
    let res2 = decode_propagation(&res).unwrap();
    assert!(res2.do_sample);
    assert_eq!("/api/v1/health", res2.destination_endpoint);
    assert_eq!("example.com:8080", res2.destination_address)
}

#[test]
fn decode_errors_name_the_failing_part() {
    assert_eq!(decode_propagation("1-MQ==").err(), Some(ERR_PROPERTIES));
    assert_eq!(
        decode_propagation("x-MQ==-NQ==-3-bWVzaA==-aW5zdGFuY2U=-L2FwaS92MS9oZWFsdGg=-ZXhhbXBsZS5jb206ODA4MA==").err(),
        Some(ERR_SAMPLE)
    );
    assert_eq!(
        decode_propagation("0-!!-NQ==-3-bWVzaA==-aW5zdGFuY2U=-L2FwaS92MS9oZWFsdGg=-ZXhhbXBsZS5jb206ODA4MA==").err(),
        Some(ERR_DECODE)
    );
    assert_eq!(
        decode_propagation("0-MQ==-NQ==-x3-bWVzaA==-aW5zdGFuY2U=-L2FwaS92MS9oZWFsdGg=-ZXhhbXBsZS5jb206ODA4MA==").err(),
        Some(ERR_SPAN_ID)
    );
    let unsampled = decode_propagation(
        "0-MQ==-NQ==-3-bWVzaA==-aW5zdGFuY2U=-L2FwaS92MS9oZWFsdGg=-ZXhhbXBsZS5jb206ODA4MA==",
    )
    .unwrap();
    assert!(!unsampled.do_sample);
}

#[test]
fn parse_parts() {
    assert_eq!(try_parse_sample_status("1"), Ok(true));
    assert_eq!(try_parse_sample_status("0"), Ok(false));
    assert_eq!(try_parse_sample_status("01"), Err(ERR_SAMPLE));
    assert_eq!(try_parse_parent_span_id("-7"), Ok(-7));
    assert_eq!(try_parse_parent_span_id("+12"), Ok(12));
    assert_eq!(try_parse_parent_span_id("2147483648"), Err(ERR_SPAN_ID));
    assert_eq!(try_parse_parent_span_id(""), Err(ERR_SPAN_ID));
}

#[test]
fn encode_then_decode_gives_context_back() {
    let mut tc = TracingContext::with_ids("svc", "inst", "trace-a".to_string(), "seg-b".to_string());
    let header = encode_propagation(&tc, "/e", "host:1");
    assert_eq!(header, "1-dHJhY2UtYQ==-c2VnLWI=-0-c3Zj-aW5zdA==-L2U=-aG9zdDox");
    let _entry = tc.create_entry_span("op");
    let _exit = tc.create_exit_span("op2", "peer");
    let decoded = decode_propagation(&encode_propagation(&tc, "/e", "host:1")).unwrap();
    let expected = PropagationContext::new(
        true,
        "trace-a".to_string(),
        "seg-b".to_string(),
        1,
        "svc".to_string(),
        "inst".to_string(),
        "/e".to_string(),
        "host:1".to_string(),
    );
    assert_eq!(decoded.parent_trace_id, expected.parent_trace_id);
    assert_eq!(decoded.parent_trace_segment_id, expected.parent_trace_segment_id);
    assert_eq!(decoded.parent_span_id, expected.parent_span_id);
    assert_eq!(decoded.parent_service, expected.parent_service);
    assert_eq!(decoded.parent_service_instance, expected.parent_service_instance);
    assert_eq!(decoded.destination_endpoint, expected.destination_endpoint);
    assert_eq!(decoded.destination_address, expected.destination_address);
    assert!(decoded.do_sample);
}
