//! Meter records: samples made by hand, with a name, labels and a value or
//! buckets, converted to meter data. Values are IEEE-754 doubles carried by
//! their bit patterns (`f64::to_bits`).

use crate::common::strings::owned;
use crate::common::system_time::{clock_reading, read_clock, TimePeriod};
use crate::metrics::meter::{buckets_view, labels_view, proto_labels_view, str_pairs};
use crate::proto::v3::meter_data::Metric;
use crate::proto::v3::{Label, MeterBucketValue, MeterData, MeterHistogram, MeterSingleValue};
use vstd::prelude::*;

verus! {

/// The time of a sample: its custom time, in milliseconds since the Unix
/// epoch, or else `now`.
pub open spec fn sample_time(time: Option<i64>, now: i64) -> i64 {
    match time {
        Some(t) => t,
        None => now,
    }
}

/// A meter record: the time of the sample.
pub struct MeterRecord {
    time: Option<i64>,
}

impl MeterRecord {
    /// The custom time.
    pub closed spec fn time_view(&self) -> Option<i64> {
        self.time
    }

    /// A record without custom time.
    #[inline]
    pub fn new() -> (r: Self)
        ensures
            r.time_view() is None,
    {
        MeterRecord { time: None }
    }

    /// Use a custom time, in milliseconds since the Unix epoch.
    #[inline]
    pub fn custome_time(self, time: i64) -> (r: Self)
        ensures
            r.time_view() == Some(time),
    {
        MeterRecord { time: Some(time) }
    }

    /// A single-value sample of this record.
    #[inline]
    pub fn single_value(self) -> (r: SingleValue)
        ensures
            r.time_view() == self.time_view(),
            r.name_view() == Seq::<char>::empty(),
            r.labels_view() == Seq::<(Seq<char>, Seq<char>)>::empty(),
            r.value_view() == 0,
    {
        let r = SingleValue { record: self, name: String::new(), labels: Vec::new(), value: 0 };
        assert(labels_view(r.labels@) =~= Seq::<(Seq<char>, Seq<char>)>::empty());
        r
    }

    /// A histogram sample of this record.
    #[inline]
    pub fn histogram(self) -> (r: Histogram)
        ensures
            r.time_view() == self.time_view(),
            r.name_view() == Seq::<char>::empty(),
            r.labels_view() == Seq::<(Seq<char>, Seq<char>)>::empty(),
            r.values_view() == Seq::<(u64, i64, bool)>::empty(),
    {
        let r = Histogram { record: self, name: String::new(), labels: Vec::new(), values: Vec::new() };
        assert(labels_view(r.labels@) =~= Seq::<(Seq<char>, Seq<char>)>::empty());
        r
    }

    /// The meter data of the record for the service and instance, taking
    /// `now` as the current time: no metric.
    pub fn into_meter_data_at(self, service_name: &str, instance_name: &str, now: i64) -> (d: MeterData)
        ensures
            d.service@ == service_name@,
            d.service_instance@ == instance_name@,
            d.timestamp == sample_time(self.time_view(), now),
            d.metric is None,
    {
        MeterData {
            service: owned(service_name),
            service_instance: owned(instance_name),
            timestamp: match self.time {
                Some(t) => t,
                None => now,
            },
            metric: None,
        }
    }

    /// The time to stamp a sample with where it has no custom time: the
    /// current time, read only where it is needed.
    fn now_unless_custom(&self) -> (r: i64)
        ensures
            self.time_view() is Some ==> r == 0,
            self.time_view() is None ==> clock_reading(TimePeriod::Metric, r),
    {
        if self.time.is_some() {
            0
        } else {
            read_clock(TimePeriod::Metric)
        }
    }

    /// The meter data of the record for the service and instance, stamped
    /// with its custom time or the current time.
    pub fn into_meter_data(self, service_name: &str, instance_name: &str) -> (d: MeterData)
        ensures
            d.service@ == service_name@,
            d.service_instance@ == instance_name@,
            self.time_view() matches Some(t) ==> d.timestamp == t,
            self.time_view() is None ==> clock_reading(TimePeriod::Metric, d.timestamp),
            d.metric is None,
    {
        let now = self.now_unless_custom();
        self.into_meter_data_at(service_name, instance_name, now)
    }
}

/// The protocol labels of label pairs, in order.
fn to_labels(labels: Vec<(String, String)>) -> (r: Vec<Label>)
    ensures
        proto_labels_view(r@) == labels_view(labels@),
{
    let mut r: Vec<Label> = Vec::new();
    let mut i: usize = 0;
    while i < labels.len()
        invariant
            i <= labels@.len(),
            proto_labels_view(r@) == labels_view(labels@).take(i as int),
        decreases labels@.len() - i,
    {
        let ghost before = r@;
        r.push(Label { name: labels[i].0.clone(), value: labels[i].1.clone() });
        assert(proto_labels_view(r@) =~= proto_labels_view(before).push(labels_view(labels@)[i as int]));
        i = i + 1;
        assert(labels_view(labels@).take(i as int) =~= labels_view(labels@).take(i - 1).push(
            labels_view(labels@)[i - 1],
        ));
    }
    assert(labels_view(labels@).take(labels@.len() as int) =~= labels_view(labels@));
    r
}

/// A single-value sample.
pub struct SingleValue {
    record: MeterRecord,
    name: String,
    labels: Vec<(String, String)>,
    value: u64,
}

impl SingleValue {
    /// The custom time.
    pub closed spec fn time_view(&self) -> Option<i64> {
        self.record.time
    }

    /// The name.
    pub closed spec fn name_view(&self) -> Seq<char> {
        self.name@
    }

    /// The labels.
    pub closed spec fn labels_view(&self) -> Seq<(Seq<char>, Seq<char>)> {
        labels_view(self.labels@)
    }

    /// The value bits.
    pub closed spec fn value_view(&self) -> u64 {
        self.value
    }

    /// Set the name.
    #[inline]
    pub fn name(self, name: &str) -> (r: Self)
        ensures
            r.name_view() == name@,
            r.time_view() == self.time_view(),
            r.labels_view() == self.labels_view(),
            r.value_view() == self.value_view(),
    {
        let mut s = self;
        s.name = owned(name);
        s
    }

    /// Add a label.
    pub fn add_label(self, key: &str, value: &str) -> (r: Self)
        ensures
            r.labels_view() == self.labels_view().push((key@, value@)),
            r.name_view() == self.name_view(),
            r.time_view() == self.time_view(),
            r.value_view() == self.value_view(),
    {
        let mut s = self;
        let ghost before = s.labels@;
        s.labels.push((owned(key), owned(value)));
        assert(labels_view(s.labels@) =~= labels_view(before).push((key@, value@)));
        s
    }

    /// Add labels, in order.
    pub fn add_labels(self, tags: &[(&str, &str)]) -> (r: Self)
        ensures
            r.labels_view() == self.labels_view() + str_pairs(tags@),
            r.name_view() == self.name_view(),
            r.time_view() == self.time_view(),
            r.value_view() == self.value_view(),
    {
        let mut s = self;
        let mut i: usize = 0;
        while i < tags.len()
            invariant
                i <= tags@.len(),
                s.labels_view() == self.labels_view() + str_pairs(tags@.take(i as int)),
                s.name_view() == self.name_view(),
                s.time_view() == self.time_view(),
                s.value_view() == self.value_view(),
            decreases tags@.len() - i,
        {
            let (k, v) = tags[i];
            s = s.add_label(k, v);
            i = i + 1;
            assert(str_pairs(tags@.take(i as int)) =~= str_pairs(tags@.take(i - 1)).push((k@, v@)));
            assert(self.labels_view() + str_pairs(tags@.take(i as int)) =~= (self.labels_view()
                + str_pairs(tags@.take(i - 1))).push((k@, v@)));
        }
        assert(tags@.take(tags@.len() as int) =~= tags@);
        s
    }

    /// Set the value, by its bits.
    #[inline]
    pub fn value(self, value: u64) -> (r: Self)
        ensures
            r.value_view() == value,
            r.name_view() == self.name_view(),
            r.labels_view() == self.labels_view(),
            r.time_view() == self.time_view(),
    {
        let mut s = self;
        s.value = value;
        s
    }

    /// The meter data of the sample for the service and instance, stamped
    /// with its custom time or the current time.
    pub fn into_meter_data(self, service_name: &str, instance_name: &str) -> (d: MeterData)
        ensures
            d.service@ == service_name@,
            d.service_instance@ == instance_name@,
            self.time_view() matches Some(t) ==> d.timestamp == t,
            self.time_view() is None ==> clock_reading(TimePeriod::Metric, d.timestamp),
            d.metric matches Some(Metric::SingleValue(v)) && v.name@ == self.name_view()
                && proto_labels_view(v.labels@) == self.labels_view() && v.value == self.value_view(),
    {
        let now = self.record.now_unless_custom();
        self.into_meter_data_at(service_name, instance_name, now)
    }

    /// The meter data of the sample for the service and instance, taking
    /// `now` as the current time.
    pub fn into_meter_data_at(self, service_name: &str, instance_name: &str, now: i64) -> (d: MeterData)
        ensures
            d.service@ == service_name@,
            d.service_instance@ == instance_name@,
            d.timestamp == sample_time(self.time_view(), now),
            d.metric matches Some(Metric::SingleValue(v)) && v.name@ == self.name_view()
                && proto_labels_view(v.labels@) == self.labels_view() && v.value == self.value_view(),
    {
        let SingleValue { record, name, labels, value } = self;
        MeterData {
            service: owned(service_name),
            service_instance: owned(instance_name),
            timestamp: match record.time {
                Some(t) => t,
                None => now,
            },
            metric: Some(Metric::SingleValue(MeterSingleValue { name, labels: to_labels(labels), value })),
        }
    }
}

/// A histogram sample.
pub struct Histogram {
    record: MeterRecord,
    name: String,
    labels: Vec<(String, String)>,
    values: Vec<(u64, i64, bool)>,
}

impl Histogram {
    /// The custom time.
    pub closed spec fn time_view(&self) -> Option<i64> {
        self.record.time
    }

    /// The name.
    pub closed spec fn name_view(&self) -> Seq<char> {
        self.name@
    }

    /// The labels.
    pub closed spec fn labels_view(&self) -> Seq<(Seq<char>, Seq<char>)> {
        labels_view(self.labels@)
    }

    /// The buckets: lower bound bits, count, negative infinity.
    pub closed spec fn values_view(&self) -> Seq<(u64, i64, bool)> {
        self.values@
    }

    /// Set the name.
    #[inline]
    pub fn name(self, name: &str) -> (r: Self)
        ensures
            r.name_view() == name@,
            r.time_view() == self.time_view(),
            r.labels_view() == self.labels_view(),
            r.values_view() == self.values_view(),
    {
        let mut s = self;
        s.name = owned(name);
        s
    }

    /// Add a label.
    pub fn add_label(self, key: &str, value: &str) -> (r: Self)
        ensures
            r.labels_view() == self.labels_view().push((key@, value@)),
            r.name_view() == self.name_view(),
            r.time_view() == self.time_view(),
            r.values_view() == self.values_view(),
    {
        let mut s = self;
        let ghost before = s.labels@;
        s.labels.push((owned(key), owned(value)));
        assert(labels_view(s.labels@) =~= labels_view(before).push((key@, value@)));
        s
    }

    /// Add labels, in order.
    pub fn add_labels(self, tags: &[(&str, &str)]) -> (r: Self)
        ensures
            r.labels_view() == self.labels_view() + str_pairs(tags@),
            r.name_view() == self.name_view(),
            r.time_view() == self.time_view(),
            r.values_view() == self.values_view(),
    {
        let mut s = self;
        let mut i: usize = 0;
        while i < tags.len()
            invariant
                i <= tags@.len(),
                s.labels_view() == self.labels_view() + str_pairs(tags@.take(i as int)),
                s.name_view() == self.name_view(),
                s.time_view() == self.time_view(),
                s.values_view() == self.values_view(),
            decreases tags@.len() - i,
        {
            let (k, v) = tags[i];
            s = s.add_label(k, v);
            i = i + 1;
            assert(str_pairs(tags@.take(i as int)) =~= str_pairs(tags@.take(i - 1)).push((k@, v@)));
            assert(self.labels_view() + str_pairs(tags@.take(i as int)) =~= (self.labels_view()
                + str_pairs(tags@.take(i - 1))).push((k@, v@)));
        }
        assert(tags@.take(tags@.len() as int) =~= tags@);
        s
    }

    /// Add a bucket: its lower bound, by its bits, its count, and whether it
    /// is negative infinity.
    #[inline]
    pub fn add_value(self, bucket: u64, count: i64, is_negative_infinity: bool) -> (r: Self)
        ensures
            r.values_view() == self.values_view().push((bucket, count, is_negative_infinity)),
            r.name_view() == self.name_view(),
            r.labels_view() == self.labels_view(),
            r.time_view() == self.time_view(),
    {
        let mut s = self;
        s.values.push((bucket, count, is_negative_infinity));
        s
    }

    /// The meter data of the sample for the service and instance, stamped
    /// with its custom time or the current time.
    pub fn into_meter_data(self, service_name: &str, instance_name: &str) -> (d: MeterData)
        ensures
            d.service@ == service_name@,
            d.service_instance@ == instance_name@,
            self.time_view() matches Some(t) ==> d.timestamp == t,
            self.time_view() is None ==> clock_reading(TimePeriod::Metric, d.timestamp),
            d.metric matches Some(Metric::Histogram(h)) && h.name@ == self.name_view()
                && proto_labels_view(h.labels@) == self.labels_view() && buckets_view(h.values@)
                == self.values_view(),
    {
        let now = self.record.now_unless_custom();
        self.into_meter_data_at(service_name, instance_name, now)
    }

    /// The meter data of the sample for the service and instance, taking
    /// `now` as the current time.
    pub fn into_meter_data_at(self, service_name: &str, instance_name: &str, now: i64) -> (d: MeterData)
        ensures
            d.service@ == service_name@,
            d.service_instance@ == instance_name@,
            d.timestamp == sample_time(self.time_view(), now),
            d.metric matches Some(Metric::Histogram(h)) && h.name@ == self.name_view()
                && proto_labels_view(h.labels@) == self.labels_view() && buckets_view(h.values@)
                == self.values_view(),
    {
        let Histogram { record, name, labels, values } = self;
        let mut buckets: Vec<MeterBucketValue> = Vec::new();
        let mut i: usize = 0;
        while i < values.len()
            invariant
                i <= values@.len(),
                buckets_view(buckets@) == values@.take(i as int),
            decreases values@.len() - i,
        {
            let (bucket, count, is_negative_infinity) = values[i];
            let ghost before = buckets@;
            buckets.push(MeterBucketValue { bucket, count, is_negative_infinity });
            assert(buckets_view(buckets@) =~= buckets_view(before).push((bucket, count, is_negative_infinity)));
            i = i + 1;
            assert(values@.take(i as int) =~= values@.take(i - 1).push(values@[i - 1]));
        }
        assert(values@.take(values@.len() as int) =~= values@);
        MeterData {
            service: owned(service_name),
            service_instance: owned(instance_name),
            timestamp: match record.time {
                Some(t) => t,
                None => now,
            },
            metric: Some(Metric::Histogram(MeterHistogram { name, labels: to_labels(labels), values: buckets })),
        }
    }
}

} // verus!
