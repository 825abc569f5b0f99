//! The context that the `sw8` header carries.
use vstd::prelude::*;

verus! {

/// The key of the header that carries the context in HTTP.
pub const SKYWALKING_HTTP_CONTEXT_HEADER_KEY: &'static str = "sw8";

/// PropagationContext carries the context which include trace infomation.
/// In general, this context will be used if you create new TraceContext after received
/// decoded context that should be packed in `sw8` header.
#[derive(Debug)]
pub struct PropagationContext {
    /// It defines whether next span should be trace or not.
    /// In SkyWalking, If `do_sample == true`, the span should be reported to
    /// OAP server and can be analyzed.
    pub do_sample: bool,

    /// It defines trace ID that previous span has. It expresses unique value of entire trace.
    pub parent_trace_id: String,

    /// It defines segment ID that previos span has. It expresses unique value of entire trace.
    pub parent_trace_segment_id: String,

    /// It defines parent span's span ID.
    pub parent_span_id: i32,

    /// Service name of service parent belongs.
    pub parent_service: String,

    /// Instance name of service parent belongs.
    pub parent_service_instance: String,

    /// An endpoint name that parent requested to.
    pub destination_endpoint: String,

    /// An address that parent requested to. It can be authority or network address.
    pub destination_address: String,
}

/// The view of a [PropagationContext].
pub struct PropagationContextView {
    pub do_sample: bool,
    pub parent_trace_id: Seq<char>,
    pub parent_trace_segment_id: Seq<char>,
    pub parent_span_id: i32,
    pub parent_service: Seq<char>,
    pub parent_service_instance: Seq<char>,
    pub destination_endpoint: Seq<char>,
    pub destination_address: Seq<char>,
}

impl View for PropagationContext {
    type V = PropagationContextView;

    open spec fn view(&self) -> PropagationContextView {
        PropagationContextView {
            do_sample: self.do_sample,
            parent_trace_id: self.parent_trace_id@,
            parent_trace_segment_id: self.parent_trace_segment_id@,
            parent_span_id: self.parent_span_id,
            parent_service: self.parent_service@,
            parent_service_instance: self.parent_service_instance@,
            destination_endpoint: self.destination_endpoint@,
            destination_address: self.destination_address@,
        }
    }
}

impl PropagationContext {
    /// A context of the given parts.
    #[allow(clippy::too_many_arguments)]
    pub fn new(
        do_sample: bool,
        parent_trace_id: String,
        parent_trace_segment_id: String,
        parent_span_id: i32,
        parent_service: String,
        parent_service_instance: String,
        destination_endpoint: String,
        destination_address: String,
    ) -> (r: PropagationContext)
        ensures
            r.do_sample == do_sample,
            r.parent_trace_id == parent_trace_id,
            r.parent_trace_segment_id == parent_trace_segment_id,
            r.parent_span_id == parent_span_id,
            r.parent_service == parent_service,
            r.parent_service_instance == parent_service_instance,
            r.destination_endpoint == destination_endpoint,
            r.destination_address == destination_address,
    {
        PropagationContext {
            do_sample,
            parent_trace_id,
            parent_trace_segment_id,
            parent_span_id,
            parent_service,
            parent_service_instance,
            destination_endpoint,
            destination_address,
        }
    }
}

} // verus!
