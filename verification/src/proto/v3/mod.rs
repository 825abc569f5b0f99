//! Messages of `skywalking.v3`: segments and spans, logs, meters and instance
//! management. Meter values, which the protocol carries as IEEE-754 doubles,
//! are held here by their bit patterns (`f64::to_bits`).

pub mod log_data_body;
pub mod meter_data;

use crate::common::system_time::{clock_reading, read_clock, TimePeriod};
use crate::common::strings::owned;
use vstd::prelude::*;

verus! {

/// A key and a value.
#[derive(Debug, PartialEq, Default)]
pub struct KeyStringValuePair {
    pub key: String,
    pub value: String,
}

impl View for KeyStringValuePair {
    type V = (Seq<char>, Seq<char>);

    open spec fn view(&self) -> (Seq<char>, Seq<char>) {
        (self.key@, self.value@)
    }
}

impl Clone for KeyStringValuePair {
    fn clone(&self) -> (r: Self)
        ensures
            r == *self,
    {
        KeyStringValuePair { key: self.key.clone(), value: self.value.clone() }
    }
}

/// The views of a sequence of pairs.
pub open spec fn pairs_view(v: Seq<KeyStringValuePair>) -> Seq<(Seq<char>, Seq<char>)> {
    v.map_values(|p: KeyStringValuePair| p@)
}

/// A log entry of a span: a time and its key-value data.
#[derive(Debug, PartialEq, Default)]
pub struct Log {
    pub time: i64,
    pub data: Vec<KeyStringValuePair>,
}

/// The view of a [Log].
pub struct LogView {
    pub time: i64,
    pub data: Seq<(Seq<char>, Seq<char>)>,
}

impl View for Log {
    type V = LogView;

    open spec fn view(&self) -> LogView {
        LogView { time: self.time, data: pairs_view(self.data@) }
    }
}

impl Clone for Log {
    fn clone(&self) -> (r: Self)
        ensures
            r@ == self@,
    {
        let data = self.data.clone();
        assert(pairs_view(data@) =~= pairs_view(self.data@));
        Log { time: self.time, data }
    }
}

/// Kind of a span.
#[derive(Debug, PartialEq, Eq, Clone, Copy)]
pub enum SpanType {
    /// A service provider.
    Entry,
    /// A client of a service.
    Exit,
    /// Neither.
    Local,
}

impl SpanType {
    /// The protocol value of the kind.
    pub open spec fn spec_value(self) -> i32 {
        match self {
            SpanType::Entry => 0,
            SpanType::Exit => 1,
            SpanType::Local => 2,
        }
    }

    /// The protocol value of the kind.
    pub fn value(self) -> (r: i32)
        ensures
            r == self.spec_value(),
    {
        match self {
            SpanType::Entry => 0,
            SpanType::Exit => 1,
            SpanType::Local => 2,
        }
    }
}

/// Layer of a span.
#[derive(Debug, PartialEq, Eq, Clone, Copy)]
pub enum SpanLayer {
    Unknown,
    Database,
    RPCFramework,
    Http,
    MQ,
    Cache,
    FAAS,
}

impl SpanLayer {
    /// The protocol value of the layer.
    pub open spec fn spec_value(self) -> i32 {
        match self {
            SpanLayer::Unknown => 0,
            SpanLayer::Database => 1,
            SpanLayer::RPCFramework => 2,
            SpanLayer::Http => 3,
            SpanLayer::MQ => 4,
            SpanLayer::Cache => 5,
            SpanLayer::FAAS => 6,
        }
    }

    /// The protocol value of the layer.
    pub fn value(self) -> (r: i32)
        ensures
            r == self.spec_value(),
    {
        match self {
            SpanLayer::Unknown => 0,
            SpanLayer::Database => 1,
            SpanLayer::RPCFramework => 2,
            SpanLayer::Http => 3,
            SpanLayer::MQ => 4,
            SpanLayer::Cache => 5,
            SpanLayer::FAAS => 6,
        }
    }
}

/// Kind of a reference between segments.
#[derive(Debug, PartialEq, Eq, Clone, Copy)]
pub enum RefType {
    /// Across processes.
    CrossProcess,
    /// Across threads of one process.
    CrossThread,
}

impl RefType {
    /// The protocol value of the kind.
    pub open spec fn spec_value(self) -> i32 {
        match self {
            RefType::CrossProcess => 0,
            RefType::CrossThread => 1,
        }
    }

    /// The protocol value of the kind.
    pub fn value(self) -> (r: i32)
        ensures
            r == self.spec_value(),
    {
        match self {
            RefType::CrossProcess => 0,
            RefType::CrossThread => 1,
        }
    }
}

/// A reference from a span to its parent in another segment.
#[derive(Debug, PartialEq, Default)]
pub struct SegmentReference {
    pub ref_type: i32,
    pub trace_id: String,
    pub parent_trace_segment_id: String,
    pub parent_span_id: i32,
    pub parent_service: String,
    pub parent_service_instance: String,
    pub parent_endpoint: String,
    pub network_address_used_at_peer: String,
}

/// The view of a [SegmentReference].
pub struct SegmentReferenceView {
    pub ref_type: i32,
    pub trace_id: Seq<char>,
    pub parent_trace_segment_id: Seq<char>,
    pub parent_span_id: i32,
    pub parent_service: Seq<char>,
    pub parent_service_instance: Seq<char>,
    pub parent_endpoint: Seq<char>,
    pub network_address_used_at_peer: Seq<char>,
}

impl View for SegmentReference {
    type V = SegmentReferenceView;

    open spec fn view(&self) -> SegmentReferenceView {
        SegmentReferenceView {
            ref_type: self.ref_type,
            trace_id: self.trace_id@,
            parent_trace_segment_id: self.parent_trace_segment_id@,
            parent_span_id: self.parent_span_id,
            parent_service: self.parent_service@,
            parent_service_instance: self.parent_service_instance@,
            parent_endpoint: self.parent_endpoint@,
            network_address_used_at_peer: self.network_address_used_at_peer@,
        }
    }
}

impl Clone for SegmentReference {
    fn clone(&self) -> (r: Self)
        ensures
            r == *self,
    {
        SegmentReference {
            ref_type: self.ref_type,
            trace_id: self.trace_id.clone(),
            parent_trace_segment_id: self.parent_trace_segment_id.clone(),
            parent_span_id: self.parent_span_id,
            parent_service: self.parent_service.clone(),
            parent_service_instance: self.parent_service_instance.clone(),
            parent_endpoint: self.parent_endpoint.clone(),
            network_address_used_at_peer: self.network_address_used_at_peer.clone(),
        }
    }
}

/// The views of a sequence of references.
pub open spec fn refs_view(v: Seq<SegmentReference>) -> Seq<SegmentReferenceView> {
    v.map_values(|r: SegmentReference| r@)
}

/// The views of a sequence of logs.
pub open spec fn logs_view(v: Seq<Log>) -> Seq<LogView> {
    v.map_values(|l: Log| l@)
}

/// A span as the protocol carries it.
#[derive(Debug, PartialEq)]
pub struct SpanObject {
    pub span_id: i32,
    pub parent_span_id: i32,
    pub start_time: i64,
    pub end_time: i64,
    pub refs: Vec<SegmentReference>,
    pub operation_name: String,
    pub peer: String,
    pub span_type: i32,
    pub span_layer: i32,
    pub component_id: i32,
    pub is_error: bool,
    pub tags: Vec<KeyStringValuePair>,
    pub logs: Vec<Log>,
    pub skip_analysis: bool,
}

/// The view of a [SpanObject].
pub struct SpanObjectView {
    pub span_id: i32,
    pub parent_span_id: i32,
    pub start_time: i64,
    pub end_time: i64,
    pub refs: Seq<SegmentReferenceView>,
    pub operation_name: Seq<char>,
    pub peer: Seq<char>,
    pub span_type: i32,
    pub span_layer: i32,
    pub component_id: i32,
    pub is_error: bool,
    pub tags: Seq<(Seq<char>, Seq<char>)>,
    pub logs: Seq<LogView>,
    pub skip_analysis: bool,
}

impl View for SpanObject {
    type V = SpanObjectView;

    open spec fn view(&self) -> SpanObjectView {
        SpanObjectView {
            span_id: self.span_id,
            parent_span_id: self.parent_span_id,
            start_time: self.start_time,
            end_time: self.end_time,
            refs: refs_view(self.refs@),
            operation_name: self.operation_name@,
            peer: self.peer@,
            span_type: self.span_type,
            span_layer: self.span_layer,
            component_id: self.component_id,
            is_error: self.is_error,
            tags: pairs_view(self.tags@),
            logs: logs_view(self.logs@),
            skip_analysis: self.skip_analysis,
        }
    }
}

impl Default for SpanObject {
    fn default() -> (r: Self)
        ensures
            r@ == (SpanObjectView {
                span_id: 0,
                parent_span_id: 0,
                start_time: 0,
                end_time: 0,
                refs: Seq::empty(),
                operation_name: Seq::empty(),
                peer: Seq::empty(),
                span_type: 0,
                span_layer: 0,
                component_id: 0,
                is_error: false,
                tags: Seq::empty(),
                logs: Seq::empty(),
                skip_analysis: false,
            }),
    {
        let r = SpanObject {
            span_id: 0,
            parent_span_id: 0,
            start_time: 0,
            end_time: 0,
            refs: Vec::new(),
            operation_name: String::new(),
            peer: String::new(),
            span_type: 0,
            span_layer: 0,
            component_id: 0,
            is_error: false,
            tags: Vec::new(),
            logs: Vec::new(),
            skip_analysis: false,
        };
        assert(r@.refs =~= Seq::empty());
        assert(r@.tags =~= Seq::empty());
        assert(r@.logs =~= Seq::empty());
        r
    }
}

impl Clone for SpanObject {
    fn clone(&self) -> (r: Self)
        ensures
            r@ == self@,
    {
        let refs = self.refs.clone();
        let tags = self.tags.clone();
        let logs = self.logs.clone();
        assert(refs_view(refs@) =~= refs_view(self.refs@));
        assert(pairs_view(tags@) =~= pairs_view(self.tags@));
        assert(logs_view(logs@) =~= logs_view(self.logs@));
        SpanObject {
            span_id: self.span_id,
            parent_span_id: self.parent_span_id,
            start_time: self.start_time,
            end_time: self.end_time,
            refs,
            operation_name: self.operation_name.clone(),
            peer: self.peer.clone(),
            span_type: self.span_type,
            span_layer: self.span_layer,
            component_id: self.component_id,
            is_error: self.is_error,
            tags,
            logs,
            skip_analysis: self.skip_analysis,
        }
    }
}

/// The pairs that a list of keys and values gives.
pub open spec fn message_pairs(message: Seq<(&str, &str)>) -> Seq<(Seq<char>, Seq<char>)> {
    message.map_values(|m: (&str, &str)| (m.0@, m.1@))
}

impl SpanObject {
    /// Add a log at `time`, with the given keys and values in their order.
    pub fn add_log_at(&mut self, message: &[(&str, &str)], time: i64)
        ensures
            final(self)@ == (SpanObjectView {
                logs: old(self)@.logs.push(LogView { time, data: message_pairs(message@) }),
                ..old(self)@
            }),
    {
        let mut data: Vec<KeyStringValuePair> = Vec::new();
        let mut i: usize = 0;
        while i < message.len()
            invariant
                i <= message@.len(),
                pairs_view(data@) == message_pairs(message@.take(i as int)),
            decreases message@.len() - i,
        {
            let (k, v) = message[i];
            let ghost before = data@;
            data.push(KeyStringValuePair { key: owned(k), value: owned(v) });
            i = i + 1;
            assert(pairs_view(data@) =~= pairs_view(before).push((k@, v@)));
            assert(message_pairs(message@.take(i as int)) =~= message_pairs(
                message@.take(i - 1),
            ).push((k@, v@)));
        }
        assert(message@.take(message@.len() as int) =~= message@);
        let ghost before = self.logs@;
        self.logs.push(Log { time, data });
        assert(logs_view(self.logs@) =~= logs_view(before).push(
            LogView { time, data: message_pairs(message@) },
        ));
    }

    /// Add a log at the current time, with the given keys and values in their
    /// order.
    pub fn add_log(&mut self, message: &[(&str, &str)])
        ensures
            final(self).logs@.len() == old(self).logs@.len() + 1,
            final(self)@ == (SpanObjectView {
                logs: old(self)@.logs.push(
                    LogView { time: final(self)@.logs.last().time, data: message_pairs(message@) },
                ),
                ..old(self)@
            }),
            clock_reading(TimePeriod::Log, final(self)@.logs.last().time),
    {
        let t = read_clock(TimePeriod::Log);
        self.add_log_at(message, t);
    }

    /// Add a tag.
    pub fn add_tag(&mut self, key: &str, value: &str)
        ensures
            final(self)@ == (SpanObjectView {
                tags: old(self)@.tags.push((key@, value@)),
                ..old(self)@
            }),
    {
        let ghost before = self.tags@;
        self.tags.push(KeyStringValuePair { key: owned(key), value: owned(value) });
        assert(pairs_view(self.tags@) =~= pairs_view(before).push((key@, value@)));
    }
}

/// The views of a sequence of spans.
pub open spec fn spans_view(v: Seq<SpanObject>) -> Seq<SpanObjectView> {
    v.map_values(|s: SpanObject| s@)
}

/// A segment: the spans of one tracing context.
#[derive(Debug, PartialEq, Default)]
pub struct SegmentObject {
    pub trace_id: String,
    pub trace_segment_id: String,
    pub spans: Vec<SpanObject>,
    pub service: String,
    pub service_instance: String,
    pub is_size_limited: bool,
}

/// Identifies a span in a log.
#[derive(Debug, PartialEq, Default)]
pub struct TraceContext {
    pub trace_id: String,
    pub trace_segment_id: String,
    pub span_id: i32,
}

/// Tags of a log.
#[derive(Debug, PartialEq, Default)]
pub struct LogTags {
    pub data: Vec<KeyStringValuePair>,
}

/// A text log body.
#[derive(Debug, PartialEq, Default)]
pub struct TextLog {
    pub text: String,
}

/// A JSON log body.
#[derive(Debug, PartialEq, Default)]
pub struct JsonLog {
    pub json: String,
}

/// A YAML log body.
#[derive(Debug, PartialEq, Default)]
pub struct YamlLog {
    pub yaml: String,
}

/// The body of a log: its type and content.
#[derive(Debug, PartialEq, Default)]
pub struct LogDataBody {
    /// The protocol's `type` field.
    pub body_type: String,
    pub content: Option<log_data_body::Content>,
}

/// A log.
#[derive(Debug, PartialEq, Default)]
pub struct LogData {
    pub timestamp: i64,
    pub service: String,
    pub service_instance: String,
    pub endpoint: String,
    pub body: Option<LogDataBody>,
    pub trace_context: Option<TraceContext>,
    pub tags: Option<LogTags>,
    pub layer: String,
}

/// A label of a meter.
#[derive(Debug, PartialEq, Default)]
pub struct Label {
    pub name: String,
    pub value: String,
}

/// A meter with one value.
#[derive(Debug, PartialEq, Default)]
pub struct MeterSingleValue {
    pub name: String,
    pub labels: Vec<Label>,
    /// The value, by its IEEE-754 bit pattern.
    pub value: u64,
}

/// A bucket of a histogram.
#[derive(Debug, PartialEq, Default)]
pub struct MeterBucketValue {
    /// The lower bound of the bucket, by its IEEE-754 bit pattern.
    pub bucket: u64,
    pub count: i64,
    pub is_negative_infinity: bool,
}

/// A histogram meter.
#[derive(Debug, PartialEq, Default)]
pub struct MeterHistogram {
    pub name: String,
    pub labels: Vec<Label>,
    pub values: Vec<MeterBucketValue>,
}

/// A meter sample.
#[derive(Debug, PartialEq, Default)]
pub struct MeterData {
    pub metric: Option<meter_data::Metric>,
    pub service: String,
    pub service_instance: String,
    pub timestamp: i64,
}

/// Properties of a service instance.
#[derive(Debug, PartialEq, Default)]
pub struct InstanceProperties {
    pub service: String,
    pub service_instance: String,
    pub properties: Vec<KeyStringValuePair>,
    pub layer: String,
}

/// A keep-alive of a service instance.
#[derive(Debug, PartialEq, Default)]
pub struct InstancePingPkg {
    pub service: String,
    pub service_instance: String,
    pub layer: String,
}

/// The view of a [SegmentObject].
pub struct SegmentObjectView {
    pub trace_id: Seq<char>,
    pub trace_segment_id: Seq<char>,
    pub spans: Seq<SpanObjectView>,
    pub service: Seq<char>,
    pub service_instance: Seq<char>,
    pub is_size_limited: bool,
}

impl View for SegmentObject {
    type V = SegmentObjectView;

    open spec fn view(&self) -> SegmentObjectView {
        SegmentObjectView {
            trace_id: self.trace_id@,
            trace_segment_id: self.trace_segment_id@,
            spans: spans_view(self.spans@),
            service: self.service@,
            service_instance: self.service_instance@,
            is_size_limited: self.is_size_limited,
        }
    }
}

/// The view of a [TraceContext].
pub struct TraceContextView {
    pub trace_id: Seq<char>,
    pub trace_segment_id: Seq<char>,
    pub span_id: i32,
}

impl View for TraceContext {
    type V = TraceContextView;

    open spec fn view(&self) -> TraceContextView {
        TraceContextView {
            trace_id: self.trace_id@,
            trace_segment_id: self.trace_segment_id@,
            span_id: self.span_id,
        }
    }
}

impl View for LogTags {
    type V = Seq<(Seq<char>, Seq<char>)>;

    open spec fn view(&self) -> Seq<(Seq<char>, Seq<char>)> {
        pairs_view(self.data@)
    }
}

/// The view of a [LogDataBody].
pub struct LogDataBodyView {
    pub body_type: Seq<char>,
    pub content: Option<log_data_body::ContentView>,
}

impl View for LogDataBody {
    type V = LogDataBodyView;

    open spec fn view(&self) -> LogDataBodyView {
        LogDataBodyView {
            body_type: self.body_type@,
            content: match self.content {
                Some(c) => Some(c@),
                None => None,
            },
        }
    }
}

/// The view of a [LogData].
pub struct LogDataView {
    pub timestamp: i64,
    pub service: Seq<char>,
    pub service_instance: Seq<char>,
    pub endpoint: Seq<char>,
    pub body: Option<LogDataBodyView>,
    pub trace_context: Option<TraceContextView>,
    pub tags: Option<Seq<(Seq<char>, Seq<char>)>>,
    pub layer: Seq<char>,
}

impl View for LogData {
    type V = LogDataView;

    open spec fn view(&self) -> LogDataView {
        LogDataView {
            timestamp: self.timestamp,
            service: self.service@,
            service_instance: self.service_instance@,
            endpoint: self.endpoint@,
            body: match self.body {
                Some(b) => Some(b@),
                None => None,
            },
            trace_context: match self.trace_context {
                Some(c) => Some(c@),
                None => None,
            },
            tags: match self.tags {
                Some(t) => Some(t@),
                None => None,
            },
            layer: self.layer@,
        }
    }
}

impl View for Label {
    type V = (Seq<char>, Seq<char>);

    open spec fn view(&self) -> (Seq<char>, Seq<char>) {
        (self.name@, self.value@)
    }
}

/// The views of a sequence of labels.
pub open spec fn labels_of(v: Seq<Label>) -> Seq<(Seq<char>, Seq<char>)> {
    v.map_values(|l: Label| l@)
}

/// The view of a [MeterSingleValue].
pub struct MeterSingleValueView {
    pub name: Seq<char>,
    pub labels: Seq<(Seq<char>, Seq<char>)>,
    pub value: u64,
}

impl View for MeterSingleValue {
    type V = MeterSingleValueView;

    open spec fn view(&self) -> MeterSingleValueView {
        MeterSingleValueView { name: self.name@, labels: labels_of(self.labels@), value: self.value }
    }
}

impl View for MeterBucketValue {
    type V = (u64, i64, bool);

    open spec fn view(&self) -> (u64, i64, bool) {
        (self.bucket, self.count, self.is_negative_infinity)
    }
}

/// The view of a [MeterHistogram].
pub struct MeterHistogramView {
    pub name: Seq<char>,
    pub labels: Seq<(Seq<char>, Seq<char>)>,
    pub values: Seq<(u64, i64, bool)>,
}

impl View for MeterHistogram {
    type V = MeterHistogramView;

    open spec fn view(&self) -> MeterHistogramView {
        MeterHistogramView {
            name: self.name@,
            labels: labels_of(self.labels@),
            values: self.values@.map_values(|b: MeterBucketValue| b@),
        }
    }
}

/// The view of a [MeterData].
pub struct MeterDataView {
    pub metric: Option<meter_data::MetricView>,
    pub service: Seq<char>,
    pub service_instance: Seq<char>,
    pub timestamp: i64,
}

impl View for MeterData {
    type V = MeterDataView;

    open spec fn view(&self) -> MeterDataView {
        MeterDataView {
            metric: match self.metric {
                Some(m) => Some(m@),
                None => None,
            },
            service: self.service@,
            service_instance: self.service_instance@,
            timestamp: self.timestamp,
        }
    }
}

/// The view of an [InstanceProperties].
pub struct InstancePropertiesView {
    pub service: Seq<char>,
    pub service_instance: Seq<char>,
    pub properties: Seq<(Seq<char>, Seq<char>)>,
    pub layer: Seq<char>,
}

impl View for InstanceProperties {
    type V = InstancePropertiesView;

    open spec fn view(&self) -> InstancePropertiesView {
        InstancePropertiesView {
            service: self.service@,
            service_instance: self.service_instance@,
            properties: pairs_view(self.properties@),
            layer: self.layer@,
        }
    }
}

/// The view of an [InstancePingPkg].
pub struct InstancePingPkgView {
    pub service: Seq<char>,
    pub service_instance: Seq<char>,
    pub layer: Seq<char>,
}

impl View for InstancePingPkg {
    type V = InstancePingPkgView;

    open spec fn view(&self) -> InstancePingPkgView {
        InstancePingPkgView {
            service: self.service@,
            service_instance: self.service_instance@,
            layer: self.layer@,
        }
    }
}

} // verus!
