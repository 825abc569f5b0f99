//! Log record items.

use crate::common::strings::owned;
use crate::common::system_time::{clock_reading, read_clock, TimePeriod};
use crate::proto::v3::log_data_body::Content;
use crate::proto::v3::{
    pairs_view, JsonLog, KeyStringValuePair, LogData, LogDataBody, LogTags, TextLog, TraceContext,
    YamlLog,
};
use crate::proto::v3::message_pairs;
use crate::trace::span::{AbstractSpan, Span};
use crate::trace::trace_context::TracingContext;
use vstd::prelude::*;

verus! {

/// Log record type of [LogRecord];
#[derive(Debug, Clone, Copy, PartialEq, Eq, Structural)]
pub enum RecordType {
    /// Text type.
    Text,
    /// Json type.
    Json,
    /// Yaml type.
    Yaml,
}

impl Default for RecordType {
    fn default() -> (r: Self)
        ensures
            r == RecordType::Text,
    {
        RecordType::Text
    }
}

/// The view of a [LogRecord].
pub struct LogRecordView {
    /// The custom time, in milliseconds since the Unix epoch.
    pub time: Option<i64>,
    pub is_ignore_time: bool,
    pub endpoint: Seq<char>,
    pub tags: Seq<(Seq<char>, Seq<char>)>,
    pub trace_id: Option<Seq<char>>,
    pub trace_segment_id: Option<Seq<char>>,
    pub span_id: Option<i32>,
    pub record_type: RecordType,
    pub content: Seq<char>,
}

/// The views of tag pairs.
pub open spec fn tags_view(v: Seq<(String, String)>) -> Seq<(Seq<char>, Seq<char>)> {
    v.map_values(|p: (String, String)| (p.0@, p.1@))
}

/// The view of an optional string.
pub open spec fn opt_text(o: Option<String>) -> Option<Seq<char>> {
    match o {
        Some(s) => Some(s@),
        None => None,
    }
}

/// Log record, which will be converted to [LogData] and reported.
pub struct LogRecord {
    time: Option<i64>,
    is_ignore_time: bool,
    endpoint: String,
    tags: Vec<(String, String)>,
    trace_id: Option<String>,
    trace_segment_id: Option<String>,
    span_id: Option<i32>,
    record_type: RecordType,
    content: String,
}

impl View for LogRecord {
    type V = LogRecordView;

    closed spec fn view(&self) -> LogRecordView {
        LogRecordView {
            time: self.time,
            is_ignore_time: self.is_ignore_time,
            endpoint: self.endpoint@,
            tags: tags_view(self.tags@),
            trace_id: opt_text(self.trace_id),
            trace_segment_id: opt_text(self.trace_segment_id),
            span_id: self.span_id,
            record_type: self.record_type,
            content: self.content@,
        }
    }
}

/// The record with one more tag, after its others.
pub open spec fn with_tag(r: LogRecordView, tag: (Seq<char>, Seq<char>)) -> LogRecordView {
    LogRecordView { tags: r.tags.push(tag), ..r }
}

/// The record with the given tags, in order, after its others.
pub open spec fn with_tags(r: LogRecordView, tags: Seq<(Seq<char>, Seq<char>)>) -> LogRecordView {
    LogRecordView { tags: r.tags + tags, ..r }
}

/// The record after adding the given tags one at a time, in order.
pub open spec fn with_each_tag(r: LogRecordView, tags: Seq<(Seq<char>, Seq<char>)>) -> LogRecordView
    decreases tags.len(),
{
    if tags.len() == 0 {
        r
    } else {
        with_tag(with_each_tag(r, tags.drop_last()), tags.last())
    }
}

/// Adding several tags at once is adding them one at a time, in their order;
/// adding none leaves the record as it was.
pub proof fn lemma_add_tags_is_each_add_tag(r: LogRecordView, tags: Seq<(Seq<char>, Seq<char>)>)
    ensures
        with_tags(r, tags) == with_each_tag(r, tags),
    decreases tags.len(),
{
    if tags.len() == 0 {
        assert(r.tags + tags =~= r.tags);
    } else {
        lemma_add_tags_is_each_add_tag(r, tags.drop_last());
        assert(r.tags + tags =~= (r.tags + tags.drop_last()).push(tags.last()));
    }
}

/// The timestamp a record gets when it is converted at time `now`: none (0)
/// where the time is ignored, else its custom time, else `now`.
pub open spec fn record_timestamp(r: LogRecordView, now: i64) -> i64 {
    if r.is_ignore_time {
        0
    } else {
        match r.time {
            Some(t) => t,
            None => now,
        }
    }
}

/// The content of a converted record, by its type.
pub open spec fn content_matches(c: Option<Content>, r: LogRecordView) -> bool {
    match r.record_type {
        RecordType::Text => c matches Some(Content::Text(t)) && t.text@ == r.content,
        RecordType::Json => c matches Some(Content::Json(j)) && j.json@ == r.content,
        RecordType::Yaml => c matches Some(Content::Yaml(y)) && y.yaml@ == r.content,
    }
}

/// The trace context of a converted record: present exactly when the trace
/// id, the segment id and the span id are all set.
pub open spec fn trace_context_matches(c: Option<TraceContext>, r: LogRecordView) -> bool {
    if r.trace_id is Some && r.trace_segment_id is Some && r.span_id is Some {
        c matches Some(t) && t.trace_id@ == r.trace_id->0 && t.trace_segment_id@
            == r.trace_segment_id->0 && t.span_id == r.span_id->0
    } else {
        c is None
    }
}

/// The tags of a converted record: none where the record has none, else all
/// of them in order.
pub open spec fn tags_match(t: Option<LogTags>, r: LogRecordView) -> bool {
    if r.tags.len() == 0 {
        t is None
    } else {
        t matches Some(lt) && pairs_view(lt.data@) == r.tags
    }
}

/// `d` is record `r` converted at time `now` for the service and instance.
pub open spec fn converted(
    d: LogData,
    r: LogRecordView,
    service: Seq<char>,
    instance: Seq<char>,
    now: i64,
) -> bool {
    &&& d.timestamp == record_timestamp(r, now)
    &&& d.service@ == service
    &&& d.service_instance@ == instance
    &&& d.endpoint@ == r.endpoint
    &&& d.body matches Some(b) && b.body_type@ == Seq::<char>::empty() && content_matches(
        b.content,
        r,
    )
    &&& trace_context_matches(d.trace_context, r)
    &&& tags_match(d.tags, r)
    &&& d.layer@ == Seq::<char>::empty()
}

impl LogRecord {
    /// New default [LogRecord];
    #[inline]
    pub fn new() -> (r: Self)
        ensures
            r@ == (LogRecordView {
                time: None,
                is_ignore_time: false,
                endpoint: Seq::empty(),
                tags: Seq::empty(),
                trace_id: None,
                trace_segment_id: None,
                span_id: None,
                record_type: RecordType::Text,
                content: Seq::empty(),
            }),
    {
        let r = LogRecord {
            time: None,
            is_ignore_time: false,
            endpoint: String::new(),
            tags: Vec::new(),
            trace_id: None,
            trace_segment_id: None,
            span_id: None,
            record_type: RecordType::Text,
            content: String::new(),
        };
        assert(tags_view(r.tags@) =~= Seq::<(Seq<char>, Seq<char>)>::empty());
        r
    }

    /// Use custom time rather than now time, in milliseconds since the Unix
    /// epoch.
    #[inline]
    pub fn custom_time(self, time: i64) -> (r: Self)
        ensures
            r@ == (LogRecordView { time: Some(time), ..self@ }),
    {
        let mut s = self;
        s.time = Some(time);
        s
    }

    /// Not set the log time, OAP server would use the received timestamp as
    /// log's timestamp, or relies on the OAP server analyzer.
    #[inline]
    pub fn ignore_time(self) -> (r: Self)
        ensures
            r@ == (LogRecordView { is_ignore_time: true, ..self@ }),
    {
        let mut s = self;
        s.is_ignore_time = true;
        s
    }

    /// The logic name represents the endpoint, which logs belong.
    #[inline]
    pub fn endpoint(self, endpoint: &str) -> (r: Self)
        ensures
            r@ == (LogRecordView { endpoint: endpoint@, ..self@ }),
    {
        let mut s = self;
        s.endpoint = owned(endpoint);
        s
    }

    /// The available tags. OAP server could provide search/analysis
    /// capabilities based on these.
    pub fn add_tag(self, key: &str, value: &str) -> (r: Self)
        ensures
            r@ == with_tag(self@, (key@, value@)),
    {
        let mut s = self;
        let ghost before = s.tags@;
        s.tags.push((owned(key), owned(value)));
        assert(tags_view(s.tags@) =~= tags_view(before).push((key@, value@)));
        s
    }

    /// The available tags. OAP server could provide search/analysis
    /// capabilities based on these.
    pub fn add_tags(self, tags: &[(&str, &str)]) -> (r: Self)
        ensures
            r@ == with_tags(self@, message_pairs(tags@)),
    {
        let mut s = self;
        let ghost start = tags_view(s.tags@);
        let mut i: usize = 0;
        while i < tags.len()
            invariant
                i <= tags@.len(),
                tags_view(s.tags@) == start + message_pairs(tags@.take(i as int)),
                s@ == (LogRecordView { tags: tags_view(s.tags@), ..self@ }),
            decreases tags@.len() - i,
        {
            let (k, v) = tags[i];
            let ghost before = s.tags@;
            s.tags.push((owned(k), owned(v)));
            assert(tags_view(s.tags@) =~= tags_view(before).push((k@, v@)));
            i = i + 1;
            assert(message_pairs(tags@.take(i as int)) =~= message_pairs(tags@.take(i - 1)).push(
                (k@, v@),
            ));
        }
        assert(tags@.take(tags@.len() as int) =~= tags@);
        s
    }

    /// Logs with trace context.
    pub fn with_tracing_context(self, tracing_context: &TracingContext) -> (r: Self)
        ensures
            r@ == (LogRecordView {
                trace_id: Some(tracing_context@.trace_id),
                trace_segment_id: Some(tracing_context@.trace_segment_id),
                ..self@
            }),
    {
        let mut s = self;
        s.trace_id = Some(owned(tracing_context.trace_id()));
        s.trace_segment_id = Some(owned(tracing_context.trace_segment_id()));
        s
    }

    /// The span should be unique in the whole segment.
    pub fn with_span(self, span: &Span) -> (r: Self)
        ensures
            r@ == (LogRecordView { span_id: Some(span.object_view().span_id), ..self@ }),
    {
        let mut s = self;
        s.span_id = Some(span.span_object().span_id);
        s
    }

    /// A type to match analyzer(s) at the OAP server.
    /// The data could be analyzed at the client side, but could be partial.
    pub fn record_type(self, record_type: RecordType) -> (r: Self)
        ensures
            r@ == (LogRecordView { record_type, ..self@ }),
    {
        let mut s = self;
        s.record_type = record_type;
        s
    }

    /// Log content.
    pub fn content(self, content: &str) -> (r: Self)
        ensures
            r@ == (LogRecordView { content: content@, ..self@ }),
    {
        let mut s = self;
        s.content = owned(content);
        s
    }

    /// Convert to [LogData] for the service and instance, taking `now` as the
    /// current time.
    pub fn convert_to_log_data_at(self, service_name: String, instance_name: String, now: i64) -> (d: LogData)
        ensures
            converted(d, self@, service_name@, instance_name@, now),
    {
        let ghost r = self@;
        let timestamp = if self.is_ignore_time {
            0
        } else {
            match self.time {
                Some(time) => time,
                None => now,
            }
        };
        let LogRecord {
            time: _,
            is_ignore_time: _,
            endpoint,
            tags,
            trace_id,
            trace_segment_id,
            span_id,
            record_type,
            content,
        } = self;
        let trace_context = match (trace_id, trace_segment_id, span_id) {
            (Some(trace_id), Some(trace_segment_id), Some(span_id)) => Some(
                TraceContext { trace_id, trace_segment_id, span_id },
            ),
            _ => None,
        };
        let tags = if tags.len() == 0 {
            None
        } else {
            let ghost tv = tags_view(tags@);
            let mut data: Vec<KeyStringValuePair> = Vec::new();
            let mut i: usize = 0;
            let n = tags.len();
            while i < n
                invariant
                    n == tags@.len(),
                    i <= n,
                    tags_view(tags@) == tv,
                    pairs_view(data@) == tv.take(i as int),
                decreases n - i,
            {
                let k = tags[i].0.clone();
                let v = tags[i].1.clone();
                let ghost before = data@;
                data.push(KeyStringValuePair { key: k, value: v });
                assert(pairs_view(data@) =~= tv.take(i + 1)) by {
                    assert(pairs_view(data@) =~= pairs_view(before).push(tv[i as int]));
                }
                i = i + 1;
            }
            assert(tv.take(n as int) =~= tv);
            Some(LogTags { data })
        };
        let content = match record_type {
            RecordType::Text => Some(Content::Text(TextLog { text: content })),
            RecordType::Json => Some(Content::Json(JsonLog { json: content })),
            RecordType::Yaml => Some(Content::Yaml(YamlLog { yaml: content })),
        };
        LogData {
            timestamp,
            service: service_name,
            service_instance: instance_name,
            endpoint,
            body: Some(LogDataBody { body_type: String::new(), content }),
            trace_context,
            tags,
            layer: String::new(),
        }
    }

    /// Convert to [LogData] for the service and instance, stamped with the
    /// current time unless a custom time is set or time is ignored.
    pub fn convert_to_log_data(self, service_name: String, instance_name: String) -> (d: LogData)
        ensures
            exists|now: i64|
                #[trigger] converted(d, self@, service_name@, instance_name@, now) && (
                self@.is_ignore_time || self@.time is Some || clock_reading(TimePeriod::Log, now)),
            self@.is_ignore_time || self@.time is Some ==> converted(
                d,
                self@,
                service_name@,
                instance_name@,
                0,
            ),
    {
        let now = if self.is_ignore_time || self.time.is_some() {
            0
        } else {
            read_clock(TimePeriod::Log)
        };
        self.convert_to_log_data_at(service_name, instance_name, now)
    }
}

impl Default for LogRecord {
    fn default() -> (r: Self)
        ensures
            r@ == (LogRecordView {
                time: None,
                is_ignore_time: false,
                endpoint: Seq::empty(),
                tags: Seq::empty(),
                trace_id: None,
                trace_segment_id: None,
                span_id: None,
                record_type: RecordType::Text,
                content: Seq::empty(),
            }),
    {
        LogRecord::new()
    }
}

} // verus!
