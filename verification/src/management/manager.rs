//! Manager methods: report the properties of a service instance, and keep it
//! alive with the collector.

use crate::common::strings::owned;
use crate::management::instance::{flattened, Properties, PropertiesView};
use crate::proto::v3::{
    pairs_view, InstancePingPkg, InstancePingPkgView, InstanceProperties, InstancePropertiesView,
};
use crate::reporter::{report_to, reported, CollectItem, Report};
use std::sync::Arc;
use vstd::prelude::*;

verus! {

/// Manager handles skywalking management operations, integrate with reporter.
pub struct Manager<R> {
    service_name: String,
    instance_name: String,
    reporter: Arc<R>,
}

impl<R> Manager<R> {
    /// The service name.
    pub closed spec fn service_view(&self) -> Seq<char> {
        self.service_name@
    }

    /// The instance name.
    pub closed spec fn instance_view(&self) -> Seq<char> {
        self.instance_name@
    }

    /// The reporter.
    pub closed spec fn reporter_view(&self) -> R {
        *self.reporter
    }
}

/// `item` reports the properties `properties` of the instance: each value
/// with its key, key after key, and no layer.
pub open spec fn properties_item_of(
    item: CollectItem,
    service: Seq<char>,
    instance: Seq<char>,
    properties: PropertiesView,
) -> bool {
    item matches CollectItem::Instance(p) && p@ == (InstancePropertiesView {
        service,
        service_instance: instance,
        properties: flattened(properties),
        layer: Seq::empty(),
    })
}

/// `item` is the keep-alive of the instance: its names, and no layer.
pub open spec fn ping_item_of(item: CollectItem, service: Seq<char>, instance: Seq<char>) -> bool {
    item matches CollectItem::Ping(p) && p@ == (InstancePingPkgView {
        service,
        service_instance: instance,
        layer: Seq::empty(),
    })
}

impl<R: Report> Manager<R> {
    /// New with service info and reporter.
    pub fn new(service_name: &str, instance_name: &str, reporter: R) -> (r: Self)
        ensures
            r.service_view() == service_name@,
            r.instance_view() == instance_name@,
            r.reporter_view() == reporter,
    {
        Manager {
            service_name: owned(service_name),
            instance_name: owned(instance_name),
            reporter: Arc::new(reporter),
        }
    }

    /// Get service name.
    pub fn service_name(&self) -> (r: &str)
        ensures
            r@ == self.service_view(),
    {
        self.service_name.as_str()
    }

    /// Get instance name.
    pub fn instance_name(&self) -> (r: &str)
        ensures
            r@ == self.instance_view(),
    {
        self.instance_name.as_str()
    }

    /// The reporter, shared with the loop that keeps the instance alive.
    pub fn reporter(&self) -> (r: &Arc<R>)
        ensures
            **r == self.reporter_view(),
    {
        &self.reporter
    }

    /// Report instance properties: the reporter gets
    /// [`Manager::properties_item`] of this manager's service and instance.
    pub fn report_properties(&self, properties: Properties)
        ensures
            exists|item: CollectItem|
                #[trigger] reported(self.reporter_view(), item) && properties_item_of(item, self.service_view(), self.instance_view(), properties@),
    {
        let ghost pv = properties@;
        Self::reporter_report_properties(
            &self.reporter,
            self.service_name.clone(),
            self.instance_name.clone(),
            properties,
        );
        proof {
            let item = choose|item: CollectItem|
                #[trigger] reported(*self.reporter, item) && properties_item_of(
                    item,
                    self.service_view(),
                    self.instance_view(),
                    pv,
                );
            assert(reported(self.reporter_view(), item));
        }
    }

    /// The instance item that reports `properties` of the instance: each
    /// value with its key, key after key, and no layer.
    pub fn properties_item(service_name: String, instance_name: String, properties: Properties) -> (r: CollectItem)
        ensures
            r matches CollectItem::Instance(p) && p@ == (InstancePropertiesView {
                service: service_name@,
                service_instance: instance_name@,
                properties: flattened(properties@),
                layer: Seq::empty(),
            }),
    {
        let props = properties.convert_to_instance_properties(service_name, instance_name);
        CollectItem::Instance(Box::new(props))
    }

    /// Report the properties of the instance to `reporter`: it gets
    /// [`Manager::properties_item`].
    pub fn reporter_report_properties(
        reporter: &Arc<R>,
        service_name: String,
        instance_name: String,
        properties: Properties,
    )
        ensures
            exists|item: CollectItem|
                #[trigger] reported(**reporter, item) && properties_item_of(item, service_name@, instance_name@, properties@),
    {
        let item = Self::properties_item(service_name, instance_name, properties);
        let ghost i = item;
        report_to(&**reporter, item);
        assert(reported(**reporter, i));
    }

    /// Do keep alive once: the reporter gets [`Manager::ping_item`] of this
    /// manager's service and instance.
    pub fn keep_alive(&self)
        ensures
            exists|item: CollectItem|
                #[trigger] reported(self.reporter_view(), item) && ping_item_of(item, self.service_view(), self.instance_view()),
    {
        Self::reporter_keep_alive(&self.reporter, self.service_name.clone(), self.instance_name.clone());
        proof {
            let item = choose|item: CollectItem|
                #[trigger] reported(*self.reporter, item) && ping_item_of(
                    item,
                    self.service_view(),
                    self.instance_view(),
                );
            assert(reported(self.reporter_view(), item));
        }
    }

    /// The ping item that keeps the instance alive: its service and instance
    /// names, and no layer.
    pub fn ping_item(service_name: String, instance_name: String) -> (r: CollectItem)
        ensures
            r matches CollectItem::Ping(p) && p@ == (InstancePingPkgView {
                service: service_name@,
                service_instance: instance_name@,
                layer: Seq::empty(),
            }),
    {
        CollectItem::Ping(
            Box::new(
                InstancePingPkg { service: service_name, service_instance: instance_name, layer: String::new() },
            ),
        )
    }

    /// Report a keep-alive of the instance to `reporter`: it gets
    /// [`Manager::ping_item`].
    pub fn reporter_keep_alive(reporter: &Arc<R>, service_name: String, instance_name: String)
        ensures
            exists|item: CollectItem|
                #[trigger] reported(**reporter, item) && ping_item_of(item, service_name@, instance_name@),
    {
        let item = Self::ping_item(service_name, instance_name);
        let ghost i = item;
        report_to(&**reporter, item);
        assert(reported(**reporter, i));
    }
}

/// What a heartbeat does.
#[derive(Debug, Clone, Copy, PartialEq, Eq, Structural)]
pub enum Heartbeat {
    /// Report the instance properties.
    ReportProperties,
    /// Keep the instance alive.
    KeepAlive,
}

/// The counter after one more heartbeat: it counts up and wraps to 0 when it
/// reaches the factor.
pub open spec fn next_counter(counter: int, factor: int) -> int {
    if counter + 1 >= factor {
        0
    } else {
        counter + 1
    }
}

/// The counter after `n` heartbeats, from 0.
pub open spec fn counter_after(factor: int, n: nat) -> int
    decreases n,
{
    if n == 0 {
        0
    } else {
        next_counter(counter_after(factor, (n - 1) as nat), factor)
    }
}

/// The schedule of `Manager::report_and_keep_alive`: every heartbeat
/// reports the properties when its counter is 0, and keeps the instance alive
/// otherwise; so the properties go every `properties_report_period_factor`
/// heartbeats, starting with the first.
pub struct KeepAliveSchedule {
    counter: usize,
    factor: usize,
}

impl KeepAliveSchedule {
    /// The counter.
    pub closed spec fn counter(&self) -> int {
        self.counter as int
    }

    /// The factor.
    pub closed spec fn factor(&self) -> int {
        self.factor as int
    }

    /// The counter stays below the factor, or at 0.
    #[verifier::type_invariant]
    spec fn inv(self) -> bool {
        self.counter == 0 || self.counter < self.factor
    }

    /// A schedule of the given factor, before its first heartbeat.
    pub fn new(properties_report_period_factor: usize) -> (r: Self)
        ensures
            r.counter() == 0,
            r.factor() == properties_report_period_factor,
    {
        KeepAliveSchedule { counter: 0, factor: properties_report_period_factor }
    }

    /// One heartbeat: what it does, and the counter moves on.
    pub fn tick(&mut self) -> (r: Heartbeat)
        ensures
            r == (if old(self).counter() == 0 {
                Heartbeat::ReportProperties
            } else {
                Heartbeat::KeepAlive
            }),
            final(self).counter() == next_counter(old(self).counter(), old(self).factor()),
            final(self).factor() == old(self).factor(),
    {
        proof {
            use_type_invariant(&*self);
        }
        let action = if self.counter == 0 {
            Heartbeat::ReportProperties
        } else {
            Heartbeat::KeepAlive
        };
        let next = self.counter + 1;
        self.counter = if next >= self.factor {
            0
        } else {
            next
        };
        action
    }
}

/// After `n` heartbeats the counter is `n` modulo the factor; with a factor
/// of 0 or 1 it stays 0.
pub proof fn lemma_counter_after(factor: int, n: nat)
    requires
        factor >= 0,
    ensures
        counter_after(factor, n) == (if factor <= 1 {
            0
        } else {
            (n as int) % factor
        }),
    decreases n,
{
    if n > 0 {
        lemma_counter_after(factor, (n - 1) as nat);
        if factor > 1 {
            let m = (n - 1) as nat;
            assert((m as int) % factor + 1 == factor ==> (n as int) % factor == 0) by (nonlinear_arith)
                requires
                    factor > 1,
                    n == m + 1,
            ;
            assert((m as int) % factor + 1 < factor ==> (n as int) % factor == (m as int) % factor + 1) by (nonlinear_arith)
                requires
                    factor > 1,
                    n == m + 1,
            ;
        }
    }
}

/// The properties are reported at heartbeat `n` (counted from 0) exactly
/// when `n` is a multiple of the factor; with a factor of 0 or 1, at every
/// heartbeat.
pub proof fn lemma_properties_every_factor(factor: int, n: nat)
    requires
        factor >= 0,
    ensures
        (counter_after(factor, n) == 0) <==> (factor <= 1 || (n as int) % factor == 0),
{
    lemma_counter_after(factor, n);
}

/// Reporting properties hands the manager's reporter an instance item of
/// the manager's service and instance, carrying each value with its key, key
/// after key, and no layer.
pub proof fn law_report_properties_reports_the_instance<R: Report>(manager: &Manager<R>, properties: Properties)
    requires
        call_ensures(Manager::<R>::report_properties, (manager, properties), ()),
    ensures
        exists|p: InstanceProperties|
            #[trigger] reported(manager.reporter_view(), CollectItem::Instance(Box::new(p)))
                && p.service@ == manager.service_view()
                && p.service_instance@ == manager.instance_view()
                && pairs_view(p.properties@) == flattened(properties@)
                && p.layer@ == Seq::<char>::empty(),
{
    let item = choose|item: CollectItem|
        #[trigger] reported(manager.reporter_view(), item) && properties_item_of(
            item,
            manager.service_view(),
            manager.instance_view(),
            properties@,
        );
    let p = *item->Instance_0;
    assert(item == CollectItem::Instance(Box::new(p)));
}

/// Keeping alive hands the manager's reporter a ping of the manager's
/// service and instance, with no layer.
pub proof fn law_keep_alive_pings_the_instance<R: Report>(manager: &Manager<R>)
    requires
        call_ensures(Manager::<R>::keep_alive, (manager,), ()),
    ensures
        exists|p: InstancePingPkg|
            #[trigger] reported(manager.reporter_view(), CollectItem::Ping(Box::new(p)))
                && p.service@ == manager.service_view()
                && p.service_instance@ == manager.instance_view()
                && p.layer@ == Seq::<char>::empty(),
{
    let item = choose|item: CollectItem|
        #[trigger] reported(manager.reporter_view(), item) && ping_item_of(
            item,
            manager.service_view(),
            manager.instance_view(),
        );
    let p = *item->Ping_0;
    assert(item == CollectItem::Ping(Box::new(p)));
}

} // verus!
