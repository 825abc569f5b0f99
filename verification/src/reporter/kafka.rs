//! The Kafka reporter's configuration, its topics, and where each collected
//! item goes: the topic and the record key.

use crate::common::strings::{bytes_to_vec, owned, push_char, push_str};
use crate::reporter::{CollectItem, ItemKind, kind_of};
use std::sync::Arc;
use vstd::prelude::*;
use vstd::utf8::encode_utf8;

verus! {

/// Log level of the Kafka client.
#[derive(Debug, Clone, Copy, PartialEq, Eq, Structural)]
pub enum LogLevel {
    /// Critical level.
    Critical,
    /// Error level.
    Error,
    /// Warning level.
    Warning,
    /// Notice level.
    Notice,
    /// Info level.
    Info,
    /// Debug level.
    Debug,
}

/// The views of configuration pairs.
pub open spec fn pairs_of(v: Seq<(String, String)>) -> Seq<(Seq<char>, Seq<char>)> {
    v.map_values(|p: (String, String)| (p.0@, p.1@))
}

/// No key occurs twice.
pub open spec fn distinct_keys(s: Seq<(Seq<char>, Seq<char>)>) -> bool {
    forall|i: int, j: int| 0 <= i < j < s.len() ==> s[i].0 != s[j].0
}

/// The position of `key` among the pairs, if it occurs.
pub open spec fn key_position(s: Seq<(Seq<char>, Seq<char>)>, key: Seq<char>) -> Option<int> {
    if exists|i: int| 0 <= i < s.len() && s[i].0 == key {
        Some(choose|i: int| 0 <= i < s.len() && s[i].0 == key)
    } else {
        None
    }
}

/// The pairs after `key` is set to `value`: the value of an existing key is
/// replaced in place, a new key is added at the end.
pub open spec fn set_pair(
    s: Seq<(Seq<char>, Seq<char>)>,
    key: Seq<char>,
    value: Seq<char>,
) -> Seq<(Seq<char>, Seq<char>)> {
    match key_position(s, key) {
        Some(i) => s.update(i, (key, value)),
        None => s.push((key, value)),
    }
}

/// The value of `key`, if it is set.
pub open spec fn value_of(s: Seq<(Seq<char>, Seq<char>)>, key: Seq<char>) -> Option<Seq<char>> {
    match key_position(s, key) {
        Some(i) => Some(s[i].1),
        None => None,
    }
}

/// A parameter reads back as it was last set; setting one leaves the others
/// as they were, and each key still occurs once.
pub proof fn lemma_set_reads_back(
    s: Seq<(Seq<char>, Seq<char>)>,
    key: Seq<char>,
    value: Seq<char>,
    other: Seq<char>,
)
    requires
        distinct_keys(s),
    ensures
        distinct_keys(set_pair(s, key, value)),
        value_of(set_pair(s, key, value), key) == Some(value),
        other != key ==> value_of(set_pair(s, key, value), other) == value_of(s, other),
{
    let t = set_pair(s, key, value);
    let n = s.len() as int;
    let p = key_position(s, key);
    if p is Some {
        let i = p->0;
        assert(0 <= i < n && s[i].0 == key);
    } else {
        assert(forall|j: int| 0 <= j < n ==> s[j].0 != key);
    }
    assert forall|j: int| 0 <= j < t.len() implies (#[trigger] t[j]).0 == (if j < n {
        s[j].0
    } else {
        key
    }) by {}
    assert(distinct_keys(t));
    let k = if p is Some { p->0 } else { n };
    assert(t[k] == (key, value));
    assert(key_position(t, key) == Some(k)) by {
        let c = choose|j: int| 0 <= j < t.len() && t[j].0 == key;
        assert(t[c].0 == t[k].0);
    }
    if other != key {
        let q = key_position(s, other);
        if q is Some {
            let j = q->0;
            assert(0 <= j < n && s[j].0 == other);
            assert(t[j] == s[j]);
            assert(key_position(t, other) == Some(j)) by {
                let c = choose|m: int| 0 <= m < t.len() && t[m].0 == other;
                assert(t[c].0 == t[j].0);
            }
        } else {
            assert(forall|j: int| 0 <= j < n ==> s[j].0 != other);
            assert(key_position(t, other) is None);
        }
    }
}

/// Configuration for the Kafka client: parameters as key-value pairs, each
/// key once, and an optional log level.
#[derive(Debug)]
pub struct ClientConfig {
    params: Vec<(String, String)>,
    log_level: Option<LogLevel>,
}

impl ClientConfig {
    /// The parameters, in the order their keys were first set.
    pub closed spec fn params_view(&self) -> Seq<(Seq<char>, Seq<char>)> {
        pairs_of(self.params@)
    }

    /// The log level.
    pub closed spec fn log_level_view(&self) -> Option<LogLevel> {
        self.log_level
    }

    /// Each key occurs once.
    #[verifier::type_invariant]
    spec fn inv(self) -> bool {
        distinct_keys(pairs_of(self.params@))
    }

    /// Create a new empty configuration.
    pub fn new() -> (r: Self)
        ensures
            r.params_view() == Seq::<(Seq<char>, Seq<char>)>::empty(),
            r.log_level_view() is None,
    {
        let r = ClientConfig { params: Vec::new(), log_level: None };
        assert(pairs_of(r.params@) =~= Seq::<(Seq<char>, Seq<char>)>::empty());
        r
    }

    /// Set a configuration parameter.
    pub fn set(&mut self, key: &str, value: &str) -> (r: &mut Self)
        ensures
            r.params_view() == set_pair(old(self).params_view(), key@, value@),
            r.log_level_view() == old(self).log_level_view(),
            distinct_keys(r.params_view()),
            *final(self) == *final(r),
    {
        proof {
            use_type_invariant(&*self);
        }
        let ghost s = self.params_view();
        proof {
            lemma_set_reads_back(s, key@, value@, key@);
        }
        let key_string = owned(key);
        let mut i: usize = 0;
        let mut found = false;
        while i < self.params.len()
            invariant_except_break
                !found,
                forall|j: int| 0 <= j < i ==> s[j].0 != key@,
            invariant
                i <= self.params@.len(),
                s == pairs_of(self.params@),
                key_string@ == key@,
                distinct_keys(s),
            ensures
                i <= self.params@.len(),
                found ==> i < self.params@.len() && s[i as int].0 == key@,
                !found ==> forall|j: int| 0 <= j < s.len() ==> s[j].0 != key@,
            decreases self.params@.len() - i,
        {
            if self.params[i].0 == key_string {
                found = true;
                break;
            }
            i = i + 1;
        }
        if found {
            assert(key_position(s, key@) == Some(i as int)) by {
                let c = choose|j: int| 0 <= j < s.len() && s[j].0 == key@;
                if c != i {
                    assert(s[c].0 == s[i as int].0);
                }
            }
            let mut params: Vec<(String, String)> = Vec::new();
            std::mem::swap(&mut params, &mut self.params);
            params.set(i, (key_string, owned(value)));
            assert(pairs_of(params@) =~= s.update(i as int, (key@, value@)));
            self.params = params;
        } else {
            assert(key_position(s, key@) is None);
            let mut params: Vec<(String, String)> = Vec::new();
            std::mem::swap(&mut params, &mut self.params);
            params.push((key_string, owned(value)));
            assert(pairs_of(params@) =~= s.push((key@, value@)));
            self.params = params;
        }
        self
    }

    /// Set log level.
    pub fn set_log_level(&mut self, level: LogLevel) -> (r: &mut Self)
        ensures
            r.params_view() == old(self).params_view(),
            r.log_level_view() == Some(level),
            *final(self) == *final(r),
    {
        proof {
            use_type_invariant(&*self);
        }
        self.log_level = Some(level);
        self
    }

    /// The parameters, in the order their keys were first set.
    pub fn params(&self) -> (r: &Vec<(String, String)>)
        ensures
            pairs_of(r@) == self.params_view(),
    {
        &self.params
    }

    /// The log level.
    pub fn log_level(&self) -> (r: Option<LogLevel>)
        ensures
            r == self.log_level_view(),
    {
        self.log_level
    }
}

impl Clone for ClientConfig {
    fn clone(&self) -> (r: Self)
        ensures
            r.params_view() == self.params_view(),
            r.log_level_view() == self.log_level_view(),
    {
        proof {
            use_type_invariant(self);
        }
        let ghost s = self.params_view();
        let mut params: Vec<(String, String)> = Vec::new();
        let mut i: usize = 0;
        while i < self.params.len()
            invariant
                i <= self.params@.len(),
                s == pairs_of(self.params@),
                pairs_of(params@) == s.take(i as int),
            decreases self.params@.len() - i,
        {
            let ghost before = params@;
            params.push((self.params[i].0.clone(), self.params[i].1.clone()));
            assert(pairs_of(params@) =~= pairs_of(before).push(s[i as int]));
            i = i + 1;
            assert(s.take(i as int) =~= s.take(i - 1).push(s[i - 1]));
        }
        assert(s.take(s.len() as int) =~= s);
        ClientConfig { params, log_level: self.log_level }
    }
}

impl Default for ClientConfig {
    fn default() -> (r: Self)
        ensures
            r.params_view() == Seq::<(Seq<char>, Seq<char>)>::empty(),
            r.log_level_view() is None,
    {
        ClientConfig::new()
    }
}

/// The topic of logs.
pub const TOPIC_LOG: &'static str = "skywalking-logs";

/// The topic of instance properties.
pub const TOPIC_MANAGEMENT: &'static str = "skywalking-managements";

/// The topic of meters.
pub const TOPIC_METER: &'static str = "skywalking-meters";

/// The topic of trace segments.
pub const TOPIC_SEGMENT: &'static str = "skywalking-segments";

/// The topic name under a namespace: `namespace-topic`, or the topic itself.
pub open spec fn real_topic(namespace: Option<Seq<char>>, topic: Seq<char>) -> Seq<char> {
    match namespace {
        Some(ns) => ns.push('-') + topic,
        None => topic,
    }
}

/// The namespace's view.
pub open spec fn opt_view(namespace: Option<&str>) -> Option<Seq<char>> {
    match namespace {
        Some(ns) => Some(ns@),
        None => None,
    }
}

/// The topics the Kafka reporter writes to.
#[derive(Debug, Clone)]
pub struct TopicNames {
    pub segment: String,
    pub meter: String,
    pub log: String,
    pub management: String,
}

impl TopicNames {
    /// The topics under `namespace`.
    pub fn new(namespace: Option<&str>) -> (r: Self)
        ensures
            r.segment@ == real_topic(opt_view(namespace), TOPIC_SEGMENT@),
            r.meter@ == real_topic(opt_view(namespace), TOPIC_METER@),
            r.log@ == real_topic(opt_view(namespace), TOPIC_LOG@),
            r.management@ == real_topic(opt_view(namespace), TOPIC_MANAGEMENT@),
    {
        TopicNames {
            segment: Self::real_topic_name(namespace, TOPIC_SEGMENT),
            meter: Self::real_topic_name(namespace, TOPIC_METER),
            log: Self::real_topic_name(namespace, TOPIC_LOG),
            management: Self::real_topic_name(namespace, TOPIC_MANAGEMENT),
        }
    }

    /// The topic name under a namespace: `namespace-topic`, or the topic itself.
    pub fn real_topic_name(namespace: Option<&str>, topic_name: &str) -> (r: String)
        ensures
            r@ == real_topic(opt_view(namespace), topic_name@),
    {
        match namespace {
            Some(namespace) => {
                let mut r = owned(namespace);
                push_char(&mut r, '-');
                push_str(&mut r, topic_name);
                r
            },
            None => owned(topic_name),
        }
    }
}

/// The text that the key of an item's record is made from.
pub open spec fn key_text(item: CollectItem) -> Seq<char> {
    match item {
        CollectItem::Trace(s) => s.trace_segment_id@,
        CollectItem::Log(l) => l.service@,
        CollectItem::Meter(m) => m.service_instance@,
        CollectItem::Instance(p) => "register-"@ + p.service_instance@,
        CollectItem::Ping(p) => p.service_instance@,
    }
}

/// The topic of an item of kind `k`; pings go with the logs.
pub open spec fn topic_of(topics: TopicNames, k: ItemKind) -> Seq<char> {
    match k {
        ItemKind::Trace => topics.segment@,
        ItemKind::Log => topics.log@,
        ItemKind::Meter => topics.meter@,
        ItemKind::Instance => topics.management@,
        ItemKind::Ping => topics.log@,
    }
}

/// Where the Kafka reporter writes `item`: its topic, and the record key,
/// the UTF-8 bytes of the segment id of a trace, the service of a log, the
/// instance of a meter or a ping, and `register-` and the instance for
/// instance properties.
pub fn kafka_destination(topics: &TopicNames, item: &CollectItem) -> (r: (String, Vec<u8>))
    ensures
        r.0@ == topic_of(*topics, kind_of(*item)),
        r.1@ == encode_utf8(key_text(*item)),
{
    match item {
        CollectItem::Trace(s) => (topics.segment.clone(), bytes_to_vec(s.trace_segment_id.as_str().as_bytes())),
        CollectItem::Log(l) => (topics.log.clone(), bytes_to_vec(l.service.as_str().as_bytes())),
        CollectItem::Meter(m) => (topics.meter.clone(), bytes_to_vec(m.service_instance.as_str().as_bytes())),
        CollectItem::Instance(p) => {
            let mut key = owned("register-");
            push_str(&mut key, p.service_instance.as_str());
            (topics.management.clone(), bytes_to_vec(key.as_str().as_bytes()))
        },
        CollectItem::Ping(p) => (topics.log.clone(), bytes_to_vec(p.service_instance.as_str().as_bytes())),
    }
}

/// What the Kafka reporter does with an item reported while its loop is, or
/// is not, closing: once the loop is closing the item is dropped; before, it
/// is handed to the producer.
pub fn admit_item(closing: bool, item: CollectItem) -> (r: Option<CollectItem>)
    ensures
        closing ==> r is None,
        !closing ==> r == Some(item),
{
    if closing {
        None
    } else {
        Some(item)
    }
}


/// The error handler a builder starts with: the error is logged.
#[derive(Debug, Clone, Copy, PartialEq, Eq, Structural)]
pub struct DefaultErrHandle;

/// Builder of the Kafka reporter: the producer and consumer of collected
/// items, the client configuration, the namespace of the topics, and the
/// handler of errors.
pub struct KafkaReportBuilder<P, C, H> {
    producer: Arc<P>,
    consumer: C,
    client_config: ClientConfig,
    namespace: Option<String>,
    err_handle: H,
}

/// What a builder is made of, handed over to build the reporter.
pub struct KafkaReportParts<P, C, H> {
    pub producer: Arc<P>,
    pub consumer: C,
    pub client_config: ClientConfig,
    pub topic_names: TopicNames,
    pub err_handle: H,
}

impl<P, C, H> KafkaReportBuilder<P, C, H> {
    /// The namespace of the topics.
    pub closed spec fn namespace_view(&self) -> Option<Seq<char>> {
        match self.namespace {
            Some(ns) => Some(ns@),
            None => None,
        }
    }

    /// The client configuration.
    pub closed spec fn config_view(&self) -> (Seq<(Seq<char>, Seq<char>)>, Option<LogLevel>) {
        (self.client_config.params_view(), self.client_config.log_level_view())
    }

    /// The error handler.
    pub closed spec fn err_handle_view(&self) -> H {
        self.err_handle
    }

    /// Set error handle. By default, the error will be logged.
    pub fn with_err_handle<H2>(self, handle: H2) -> (r: KafkaReportBuilder<P, C, H2>)
        ensures
            r.err_handle_view() == handle,
            r.namespace_view() == self.namespace_view(),
            r.config_view() == self.config_view(),
    {
        let KafkaReportBuilder { producer, consumer, client_config, namespace, err_handle: _ } = self;
        KafkaReportBuilder { producer, consumer, client_config, namespace, err_handle: handle }
    }

    /// Use to isolate multi OAP server when using same Kafka cluster (final
    /// topic name will append namespace before Kafka topics with - ).
    pub fn with_namespace(self, namespace: &str) -> (r: Self)
        ensures
            r.namespace_view() == Some(namespace@),
            r.config_view() == self.config_view(),
            r.err_handle_view() == self.err_handle_view(),
    {
        let KafkaReportBuilder { producer, consumer, client_config, namespace: _, err_handle } = self;
        KafkaReportBuilder { producer, consumer, client_config, namespace: Some(owned(namespace)), err_handle }
    }

    /// The parts of the reporter: the topics are those of the namespace.
    pub fn into_parts(self) -> (r: KafkaReportParts<P, C, H>)
        ensures
            r.client_config.params_view() == self.config_view().0,
            r.client_config.log_level_view() == self.config_view().1,
            r.topic_names.segment@ == real_topic(self.namespace_view(), TOPIC_SEGMENT@),
            r.topic_names.meter@ == real_topic(self.namespace_view(), TOPIC_METER@),
            r.topic_names.log@ == real_topic(self.namespace_view(), TOPIC_LOG@),
            r.topic_names.management@ == real_topic(self.namespace_view(), TOPIC_MANAGEMENT@),
            r.err_handle == self.err_handle_view(),
    {
        let KafkaReportBuilder { producer, consumer, client_config, namespace, err_handle } = self;
        let topic_names = match &namespace {
            Some(ns) => TopicNames::new(Some(ns.as_str())),
            None => TopicNames::new(None),
        };
        KafkaReportParts { producer, consumer, client_config, topic_names, err_handle }
    }
}

impl<P, C> KafkaReportBuilder<P, C, DefaultErrHandle> {
    /// Special purpose, used for user-defined produce and consume operations.
    pub fn new_with_pc(client_config: ClientConfig, producer: P, consumer: C) -> (r: Self)
        ensures
            r.namespace_view() is None,
            r.config_view() == (client_config.params_view(), client_config.log_level_view()),
            r.err_handle_view() == DefaultErrHandle,
    {
        KafkaReportBuilder {
            producer: Arc::new(producer),
            consumer,
            client_config,
            namespace: None,
            err_handle: DefaultErrHandle,
        }
    }
}
} // verus!
