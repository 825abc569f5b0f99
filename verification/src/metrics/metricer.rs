//! Metricer methods: the meters of a service instance, each sampled and
//! reported at every report interval.

use crate::common::strings::owned;
use crate::metrics::meter::{sample, sampled, MeterId, MeterIdView, Transform};
use crate::proto::v3::MeterData;
use crate::reporter::{report_to, reported, CollectItem, Report};
use std::sync::Arc;
use vstd::prelude::*;

verus! {

/// The default report interval, in milliseconds.
pub const DEFAULT_REPORT_INTERVAL_MILLIS: u64 = 20000;

/// A registered meter: its identity, by its view, and the shared transform.
pub type MeterEntry = (MeterIdView, Arc<dyn Transform + 'static>);

/// The registered meters, each by its identity and its transform.
pub open spec fn entries_view(m: Seq<(MeterId, Arc<dyn Transform + 'static>)>) -> Seq<MeterEntry> {
    m.map_values(|e: (MeterId, Arc<dyn Transform + 'static>)| (e.0@, e.1))
}

/// The identities of registered meters.
pub open spec fn ids_of<T>(m: Seq<(MeterIdView, T)>) -> Seq<MeterIdView> {
    m.map_values(|e: (MeterIdView, T)| e.0)
}

/// No meter is registered twice.
pub open spec fn distinct_ids(ids: Seq<MeterIdView>) -> bool {
    forall|i: int, j: int| 0 <= i < j < ids.len() ==> ids[i] != ids[j]
}

/// The meters after `transform` is registered under `id`: a meter of the
/// same identity is replaced in place, else the new one goes at the end.
pub open spec fn registered<T>(
    transform: T,
    m: Seq<(MeterIdView, T)>,
    id: MeterIdView,
) -> Seq<(MeterIdView, T)> {
    if ids_of(m).contains(id) {
        m.update(ids_of(m).index_of(id), (id, transform))
    } else {
        m.push((id, transform))
    }
}

/// Metricer: the meters of a service instance, and the reporter of their
/// samples.
pub struct Metricer<R> {
    service_name: String,
    instance_name: String,
    reporter: R,
    meter_map: Vec<(MeterId, Arc<dyn Transform + 'static>)>,
    report_interval_millis: u64,
}

impl<R> Metricer<R> {
    /// The service name.
    pub closed spec fn service_view(&self) -> Seq<char> {
        self.service_name@
    }

    /// The instance name.
    pub closed spec fn instance_view(&self) -> Seq<char> {
        self.instance_name@
    }

    /// The registered meters, in the order they were first registered.
    pub closed spec fn meters(&self) -> Seq<MeterEntry> {
        entries_view(self.meter_map@)
    }

    /// The reporter.
    pub closed spec fn reporter_view(&self) -> R {
        self.reporter
    }

    /// The report interval, in milliseconds.
    pub closed spec fn interval_view(&self) -> u64 {
        self.report_interval_millis
    }

    /// No meter is registered twice.
    #[verifier::type_invariant]
    spec fn inv(self) -> bool {
        distinct_ids(ids_of(entries_view(self.meter_map@)))
    }
}

impl<R: Report> Metricer<R> {
    /// New with service info and reporter, no meters, and a report interval
    /// of 20 seconds.
    pub fn new(service_name: &str, instance_name: &str, reporter: R) -> (r: Self)
        ensures
            r.service_view() == service_name@,
            r.instance_view() == instance_name@,
            r.meters() == Seq::<MeterEntry>::empty(),
            r.interval_view() == DEFAULT_REPORT_INTERVAL_MILLIS,
    {
        let r = Metricer {
            service_name: owned(service_name),
            instance_name: owned(instance_name),
            reporter,
            meter_map: Vec::new(),
            report_interval_millis: DEFAULT_REPORT_INTERVAL_MILLIS,
        };
        assert(entries_view(r.meter_map@) =~= Seq::<MeterEntry>::empty());
        assert(ids_of(entries_view(r.meter_map@)) =~= Seq::<MeterIdView>::empty());
        r
    }

    /// Get service name.
    pub fn service_name(&self) -> (r: &str)
        ensures
            r@ == self.service_view(),
    {
        self.service_name.as_str()
    }

    /// Get instance name.
    pub fn instance_name(&self) -> (r: &str)
        ensures
            r@ == self.instance_view(),
    {
        self.instance_name.as_str()
    }

    /// Set the report interval, in milliseconds.
    pub fn set_report_interval(&mut self, report_interval_millis: u64)
        ensures
            final(self).interval_view() == report_interval_millis,
            final(self).meters() == old(self).meters(),
            final(self).service_view() == old(self).service_view(),
            final(self).instance_view() == old(self).instance_view(),
    {
        proof {
            use_type_invariant(&*self);
        }
        self.report_interval_millis = report_interval_millis;
    }

    /// The report interval, in milliseconds.
    pub fn report_interval(&self) -> (r: u64)
        ensures
            r == self.interval_view(),
    {
        self.report_interval_millis
    }

    /// Register `transform` under `id`: a meter of the same identity is
    /// replaced in place, else the new one goes at the end.
    pub fn register_with_id(&mut self, id: MeterId, transform: Arc<dyn Transform + 'static>)
        ensures
            final(self).meters() == registered(transform, old(self).meters(), id@),
            final(self).interval_view() == old(self).interval_view(),
            final(self).service_view() == old(self).service_view(),
            final(self).instance_view() == old(self).instance_view(),
    {
        let entry = (id, transform);
        self.put_entry(entry);
    }

    /// Store the meter `entry`, its identity and its transform, replacing
    /// a meter of the same identity.
    fn put_entry(&mut self, entry: (MeterId, Arc<dyn Transform + 'static>))
        ensures
            final(self).meters() == registered(entry.1, old(self).meters(), entry.0@),
            final(self).interval_view() == old(self).interval_view(),
            final(self).service_view() == old(self).service_view(),
            final(self).instance_view() == old(self).instance_view(),
    {
        proof {
            use_type_invariant(&*self);
        }
        let ghost given = entry;
        let (id, transform) = entry;
        let ghost m = self.meters();
        let ghost ids = ids_of(m);
        let ghost idv = id@;
        let mut i: usize = 0;
        while i < self.meter_map.len()
            invariant
                i <= self.meter_map@.len(),
                m == entries_view(self.meter_map@),
                m == old(self).meters(),
                ids == ids_of(m),
                distinct_ids(ids),
                idv == id@,
                given == entry,
                idv == given.0@,
                transform == given.1,
                forall|j: int| 0 <= j < i ==> ids[j] != idv,
                self.report_interval_millis == old(self).report_interval_millis,
                self.service_name@ == old(self).service_name@,
                self.instance_name@ == old(self).instance_name@,
            decreases self.meter_map@.len() - i,
        {
            if self.meter_map[i].0.same(&id) {
                assert(ids[i as int] == idv);
                assert(ids.contains(idv));
                assert(ids.index_of(idv) == i as int);
                let slot = (id, transform);
                let mut meter_map: Vec<(MeterId, Arc<dyn Transform + 'static>)> = Vec::new();
                std::mem::swap(&mut meter_map, &mut self.meter_map);
                meter_map.set(i, slot);
                let ghost e = (idv, transform);
                assert(entries_view(meter_map@) =~= m.update(i as int, e));
                assert(ids_of(entries_view(meter_map@)) =~= ids);
                self.meter_map = meter_map;
                return;
            }
            i = i + 1;
        }
        assert(!ids.contains(idv));
        let slot = (id, transform);
        let mut meter_map: Vec<(MeterId, Arc<dyn Transform + 'static>)> = Vec::new();
        std::mem::swap(&mut meter_map, &mut self.meter_map);
        meter_map.push(slot);
        let ghost e = (idv, transform);
        assert(entries_view(meter_map@) =~= m.push(e));
        assert(ids_of(entries_view(meter_map@)) =~= ids.push(idv));
        self.meter_map = meter_map;
    }

    /// Register `transform` under the identity it reports
    /// (`Transform::meter_id`); a meter of the same identity is replaced.
    /// The metricer keeps the shared transform, the caller its own handle.
    pub fn register(&mut self, transform: Arc<dyn Transform + 'static>)
        ensures
            final(self).meters() == registered(transform, old(self).meters(), transform.held_id()@),
            final(self).interval_view() == old(self).interval_view(),
            final(self).service_view() == old(self).service_view(),
            final(self).instance_view() == old(self).instance_view(),
    {
        let id = transform.meter_id();
        let ghost idv = id@;
        let ghost t = transform;
        let entry = (id, transform);
        self.put_entry(entry);
        assert(self.meters() == registered(t, old(self).meters(), idv));
    }

    /// Sample every meter once, and report each sample as a meter item.
    pub fn report_all(&self)
        ensures
            all_samples_reported(
                self.reporter_view(),
                self.meters(),
                self.service_view(),
                self.instance_view(),
            ),
    {
        let mut i: usize = 0;
        while i < self.meter_map.len()
            invariant
                i <= self.meter_map@.len(),
                forall|j: int|
                    0 <= j < i ==> #[trigger] sample_reported(
                        self.reporter_view(),
                        self.meters()[j],
                        self.service_view(),
                        self.instance_view(),
                    ),
            decreases self.meter_map@.len() - i,
        {
            let service = self.service_name.as_str();
            let instance = self.instance_name.as_str();
            let data = sample(&*self.meter_map[i].1, service, instance);
            let ghost d = data;
            report_to(&self.reporter, CollectItem::Meter(Box::new(data)));
            assert(sampled(&*self.meters()[i as int].1, service, instance, d)
                && reported(self.reporter_view(), CollectItem::Meter(Box::new(d))));
            assert(sample_reported(
                self.reporter_view(),
                self.meters()[i as int],
                self.service_view(),
                self.instance_view(),
            ));
            i = i + 1;
        }
    }
}

/// Each of `meters` was sampled for the service and instance named `service`
/// and `instance`, and its sample handed to `reporter` as a meter item.
pub open spec fn all_samples_reported<R: Report>(
    reporter: R,
    meters: Seq<MeterEntry>,
    service: Seq<char>,
    instance: Seq<char>,
) -> bool {
    forall|i: int| 0 <= i < meters.len() ==> #[trigger] sample_reported(reporter, meters[i], service, instance)
}

/// The meter of `entry` was sampled for the service and instance named
/// `service` and `instance`, and the sample was handed to `reporter` as a
/// meter item.
pub open spec fn sample_reported<R: Report>(
    reporter: R,
    entry: MeterEntry,
    service: Seq<char>,
    instance: Seq<char>,
) -> bool {
    exists|data: MeterData, s: &str, i: &str|
        s@ == service && i@ == instance && #[trigger] sampled(&*entry.1, s, i, data)
            && reported(reporter, CollectItem::Meter(Box::new(data)))
}

/// The handle of a booted metricer.
pub struct Booting {}

/// Reporting all meters samples every registered meter, by its own
/// transform, for the metricer's service and its instance (in that order),
/// and hands each sample to the metricer's reporter as a meter item.
pub proof fn law_report_all_samples_each_meter<R: Report>(metricer: &Metricer<R>, i: int)
    requires
        call_ensures(Metricer::<R>::report_all, (metricer,), ()),
        0 <= i < metricer.meters().len(),
    ensures
        exists|data: MeterData, service: &str, instance: &str|
            service@ == metricer.service_view() && instance@ == metricer.instance_view()
                && #[trigger] sampled(&*metricer.meters()[i].1, service, instance, data)
                && reported(metricer.reporter_view(), CollectItem::Meter(Box::new(data))),
{
    assert(all_samples_reported(
        metricer.reporter_view(),
        metricer.meters(),
        metricer.service_view(),
        metricer.instance_view(),
    ));
    assert(sample_reported(
        metricer.reporter_view(),
        metricer.meters()[i],
        metricer.service_view(),
        metricer.instance_view(),
    ));
}

} // verus!
