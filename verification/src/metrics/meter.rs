//! Meters: their identity (name, type, labels), and the meter data a sample
//! of them makes. Meter values are IEEE-754 doubles, carried here by their
//! bit patterns (`f64::to_bits`).

use crate::common::strings::owned;
use crate::proto::v3::meter_data::Metric;
use crate::proto::v3::{Label, MeterBucketValue, MeterData, MeterHistogram, MeterSingleValue};
use vstd::prelude::*;

verus! {

/// A meter that can be sampled into meter data.
pub trait Transform: Send + Sync {
    /// The identity the meter holds.
    spec fn held_id(&self) -> MeterId;

    /// Get the meter id: the identity the meter holds, the same at every
    /// call.
    fn meter_id(&self) -> (r: MeterId)
        ensures
            r@ == self.held_id()@,
    ;

    /// Sample the meter into meter data of the service and instance.
    fn transform(&self, service_name: &str, instance_name: &str) -> MeterData;
}

/// `data` is a sample that `meter` gave for the service and instance (a call
/// of its `Transform::transform`).
pub open spec fn sampled<T: Transform + ?Sized>(meter: &T, service: &str, instance: &str, data: MeterData) -> bool {
    call_ensures(<T as Transform>::transform, (meter, service, instance), data)
}

/// Sample `meter` for the service and instance.
pub fn sample<T: Transform + ?Sized>(meter: &T, service: &str, instance: &str) -> (d: MeterData)
    ensures
        sampled(meter, service, instance, d),
{
    let transform = <T as Transform>::transform;
    transform(meter, service, instance)
}

/// The type of a meter.
#[derive(Debug, Clone, Copy, PartialEq, Eq, Hash, Structural)]
pub enum MeterType {
    Counter,
    Gauge,
    Histogram,
}

/// The view of a [MeterId].
pub struct MeterIdView {
    pub name: Seq<char>,
    pub typ: MeterType,
    pub labels: Seq<(Seq<char>, Seq<char>)>,
}

/// The views of labels.
pub open spec fn labels_view(v: Seq<(String, String)>) -> Seq<(Seq<char>, Seq<char>)> {
    v.map_values(|p: (String, String)| (p.0@, p.1@))
}

/// The views of protocol labels.
pub open spec fn proto_labels_view(v: Seq<Label>) -> Seq<(Seq<char>, Seq<char>)> {
    v.map_values(|l: Label| (l.name@, l.value@))
}

/// The pairs of a list of keys and values.
pub open spec fn str_pairs(v: Seq<(&str, &str)>) -> Seq<(Seq<char>, Seq<char>)> {
    v.map_values(|p: (&str, &str)| (p.0@, p.1@))
}

/// The identity of a meter: name, type and labels.
#[derive(Debug, Hash)]
pub struct MeterId {
    name: String,
    typ: MeterType,
    labels: Vec<(String, String)>,
}

impl View for MeterId {
    type V = MeterIdView;

    closed spec fn view(&self) -> MeterIdView {
        MeterIdView { name: self.name@, typ: self.typ, labels: labels_view(self.labels@) }
    }
}

impl Clone for MeterId {
    fn clone(&self) -> (r: Self)
        ensures
            r@ == self@,
    {
        let mut labels: Vec<(String, String)> = Vec::new();
        let mut i: usize = 0;
        while i < self.labels.len()
            invariant
                i <= self.labels@.len(),
                labels_view(labels@) == labels_view(self.labels@).take(i as int),
            decreases self.labels@.len() - i,
        {
            let ghost before = labels@;
            labels.push((self.labels[i].0.clone(), self.labels[i].1.clone()));
            assert(labels_view(labels@) =~= labels_view(before).push(labels_view(self.labels@)[i as int]));
            i = i + 1;
            assert(labels_view(self.labels@).take(i as int) =~= labels_view(self.labels@).take(i - 1).push(
                labels_view(self.labels@)[i - 1],
            ));
        }
        assert(labels_view(self.labels@).take(self.labels@.len() as int) =~= labels_view(self.labels@));
        MeterId { name: self.name.clone(), typ: self.typ, labels }
    }
}

impl MeterId {
    /// A meter of the given name and type, without labels.
    pub fn new(name: &str, typ: MeterType) -> (r: Self)
        ensures
            r@ == (MeterIdView { name: name@, typ, labels: Seq::empty() }),
    {
        let r = MeterId { name: owned(name), typ, labels: Vec::new() };
        assert(labels_view(r.labels@) =~= Seq::<(Seq<char>, Seq<char>)>::empty());
        r
    }

    /// Add a label.
    pub fn add_label(self, key: &str, value: &str) -> (r: Self)
        ensures
            r@ == (MeterIdView { labels: self@.labels.push((key@, value@)), ..self@ }),
    {
        let mut s = self;
        let ghost before = s.labels@;
        s.labels.push((owned(key), owned(value)));
        assert(labels_view(s.labels@) =~= labels_view(before).push((key@, value@)));
        s
    }

    /// Add labels, in order.
    pub fn add_labels(self, tags: &[(&str, &str)]) -> (r: Self)
        ensures
            r@ == (MeterIdView { labels: self@.labels + str_pairs(tags@), ..self@ }),
    {
        let mut s = self;
        let mut i: usize = 0;
        while i < tags.len()
            invariant
                i <= tags@.len(),
                s@ == (MeterIdView { labels: self@.labels + str_pairs(tags@.take(i as int)), ..self@ }),
            decreases tags@.len() - i,
        {
            let (k, v) = tags[i];
            s = s.add_label(k, v);
            i = i + 1;
            assert(str_pairs(tags@.take(i as int)) =~= str_pairs(tags@.take(i - 1)).push((k@, v@)));
            assert(self@.labels + str_pairs(tags@.take(i as int)) =~= (self@.labels + str_pairs(
                tags@.take(i - 1),
            )).push((k@, v@)));
        }
        assert(tags@.take(tags@.len() as int) =~= tags@);
        s
    }

    /// The name.
    pub fn name(&self) -> (r: &str)
        ensures
            r@ == self@.name,
    {
        self.name.as_str()
    }

    /// The type.
    pub fn typ(&self) -> (r: MeterType)
        ensures
            r == self@.typ,
    {
        self.typ
    }

    /// The labels as protocol labels, in order.
    pub fn proto_labels(&self) -> (r: Vec<Label>)
        ensures
            proto_labels_view(r@) == self@.labels,
    {
        let mut r: Vec<Label> = Vec::new();
        let mut i: usize = 0;
        while i < self.labels.len()
            invariant
                i <= self.labels@.len(),
                proto_labels_view(r@) == labels_view(self.labels@).take(i as int),
            decreases self.labels@.len() - i,
        {
            let ghost before = r@;
            r.push(Label { name: self.labels[i].0.clone(), value: self.labels[i].1.clone() });
            assert(proto_labels_view(r@) =~= proto_labels_view(before).push(labels_view(self.labels@)[i as int]));
            i = i + 1;
            assert(labels_view(self.labels@).take(i as int) =~= labels_view(self.labels@).take(i - 1).push(
                labels_view(self.labels@)[i - 1],
            ));
        }
        assert(labels_view(self.labels@).take(self.labels@.len() as int) =~= labels_view(self.labels@));
        r
    }

    /// The same meter: same name, type and labels.
    pub fn same(&self, other: &MeterId) -> (r: bool)
        ensures
            r == (self@ == other@),
    {
        if !(self.name == other.name) || !(self.typ == other.typ) || self.labels.len() != other.labels.len() {
            proof {
                if self@ == other@ {
                    assert(labels_view(self.labels@).len() == labels_view(other.labels@).len());
                }
            }
            return false;
        }
        let mut i: usize = 0;
        while i < self.labels.len()
            invariant
                i <= self.labels@.len(),
                self.labels@.len() == other.labels@.len(),
                forall|j: int| 0 <= j < i ==> labels_view(self.labels@)[j] == labels_view(other.labels@)[j],
            decreases self.labels@.len() - i,
        {
            if !(self.labels[i].0 == other.labels[i].0) || !(self.labels[i].1 == other.labels[i].1) {
                proof {
                    if self@ == other@ {
                        assert(labels_view(self.labels@)[i as int] == labels_view(other.labels@)[i as int]);
                    }
                }
                return false;
            }
            i = i + 1;
        }
        assert(labels_view(self.labels@) =~= labels_view(other.labels@));
        true
    }
}

/// The view of a single-value sample: name, labels, value bits.
pub open spec fn single_value_matches(d: MeterData, id: MeterIdView, service: Seq<char>, instance: Seq<char>, timestamp: i64, value: u64) -> bool {
    &&& d.service@ == service
    &&& d.service_instance@ == instance
    &&& d.timestamp == timestamp
    &&& d.metric matches Some(Metric::SingleValue(v)) && v.name@ == id.name && proto_labels_view(v.labels@)
        == id.labels && v.value == value
}

/// The views of histogram buckets: lower bound bits, count, negative
/// infinity.
pub open spec fn buckets_view(v: Seq<MeterBucketValue>) -> Seq<(u64, i64, bool)> {
    v.map_values(|b: MeterBucketValue| (b.bucket, b.count, b.is_negative_infinity))
}

/// The meter data of a histogram sample.
pub open spec fn histogram_matches(d: MeterData, id: MeterIdView, service: Seq<char>, instance: Seq<char>, timestamp: i64, buckets: Seq<(u64, i64)>) -> bool {
    &&& d.service@ == service
    &&& d.service_instance@ == instance
    &&& d.timestamp == timestamp
    &&& d.metric matches Some(Metric::Histogram(h)) && h.name@ == id.name && proto_labels_view(h.labels@)
        == id.labels && buckets_view(h.values@) == buckets.map_values(|b: (u64, i64)| (b.0, b.1, false))
}

/// The meter data of a single-value sample of meter `id`: its name and
/// labels, and the value.
pub fn single_value_data(id: &MeterId, service_name: &str, instance_name: &str, timestamp: i64, value: u64) -> (d: MeterData)
    ensures
        single_value_matches(d, id@, service_name@, instance_name@, timestamp, value),
{
    MeterData {
        service: owned(service_name),
        service_instance: owned(instance_name),
        timestamp,
        metric: Some(Metric::SingleValue(MeterSingleValue { name: owned(id.name()), labels: id.proto_labels(), value })),
    }
}

/// The meter data of a histogram sample of meter `id`: its name and labels,
/// and each bucket's lower bound and count, none of them negative infinity.
pub fn histogram_data(id: &MeterId, service_name: &str, instance_name: &str, timestamp: i64, buckets: &[(u64, i64)]) -> (d: MeterData)
    ensures
        histogram_matches(d, id@, service_name@, instance_name@, timestamp, buckets@),
{
    let mut values: Vec<MeterBucketValue> = Vec::new();
    let mut i: usize = 0;
    while i < buckets.len()
        invariant
            i <= buckets@.len(),
            buckets_view(values@) == buckets@.take(i as int).map_values(|b: (u64, i64)| (b.0, b.1, false)),
        decreases buckets@.len() - i,
    {
        let (bucket, count) = buckets[i];
        let ghost before = values@;
        values.push(MeterBucketValue { bucket, count, is_negative_infinity: false });
        assert(buckets_view(values@) =~= buckets_view(before).push((bucket, count, false)));
        i = i + 1;
        assert(buckets@.take(i as int).map_values(|b: (u64, i64)| (b.0, b.1, false)) =~= buckets@.take(
            i - 1,
        ).map_values(|b: (u64, i64)| (b.0, b.1, false)).push((bucket, count, false)));
    }
    assert(buckets@.take(buckets@.len() as int) =~= buckets@);
    MeterData {
        service: owned(service_name),
        service_instance: owned(instance_name),
        timestamp,
        metric: Some(Metric::Histogram(MeterHistogram { name: owned(id.name()), labels: id.proto_labels(), values })),
    }
}

/// Counter mode.
#[allow(non_camel_case_types)]
#[derive(Debug, Clone, Copy, PartialEq, Eq, Structural)]
pub enum CounterMode {
    /// INCREMENT mode represents reporting the latest value.
    INCREMENT,
    /// RATE mode represents reporting the increment rate. Value = latest value
    /// - last reported value.
    RATE,
}

/// A gauge: a meter whose value a getter gives.
pub struct Gauge<G> {
    id: MeterId,
    getter: G,
}

impl<G> Gauge<G> {
    /// The identity of the gauge.
    pub closed spec fn id_view(&self) -> MeterIdView {
        self.id@
    }

    /// New meter with type `Gauge` and getter.
    #[inline]
    pub fn new(name: &str, getter: G) -> (r: Self)
        ensures
            r.id_view() == (MeterIdView { name: name@, typ: MeterType::Gauge, labels: Seq::empty() }),
            r.getter_view() == getter,
    {
        Gauge { id: MeterId::new(name, MeterType::Gauge), getter }
    }

    /// Add label.
    #[inline]
    pub fn add_label(self, key: &str, value: &str) -> (r: Self)
        ensures
            r.id_view() == (MeterIdView { labels: self.id_view().labels.push((key@, value@)), ..self.id_view() }),
            r.getter_view() == self.getter_view(),
    {
        let Gauge { id, getter } = self;
        Gauge { id: id.add_label(key, value), getter }
    }

    /// Add labels.
    #[inline]
    pub fn add_labels(self, tags: &[(&str, &str)]) -> (r: Self)
        ensures
            r.id_view() == (MeterIdView { labels: self.id_view().labels + str_pairs(tags@), ..self.id_view() }),
            r.getter_view() == self.getter_view(),
    {
        let Gauge { id, getter } = self;
        Gauge { id: id.add_labels(tags), getter }
    }

    /// The identity of the gauge.
    pub fn id(&self) -> (r: &MeterId)
        ensures
            r@ == self.id_view(),
    {
        &self.id
    }

    /// The getter.
    pub closed spec fn getter_view(&self) -> G {
        self.getter
    }

    /// The getter of the value.
    pub fn getter(&self) -> (r: &G)
        ensures
            *r == self.getter_view(),
    {
        &self.getter
    }
}

} // verus!
