//! Reporter contains common `Report` trait and the implementations.

pub mod kafka;
pub mod log;
pub mod print;
pub mod reporting;

use crate::proto::v3::{InstancePingPkg, InstanceProperties, LogData, MeterData, SegmentObject};
use std::sync::Arc;
use vstd::prelude::*;

verus! {

/// Collect item of protobuf object.
#[derive(Debug)]
pub enum CollectItem {
    /// Tracing object.
    Trace(Box<SegmentObject>),
    /// Log object.
    Log(Box<LogData>),
    /// Metric object.
    Meter(Box<MeterData>),
    /// Instance properties object.
    Instance(Box<InstanceProperties>),
    /// Keep alive object.
    Ping(Box<InstancePingPkg>),
}

/// The kind of a collected item.
#[derive(Debug, Clone, Copy, PartialEq, Eq, Structural)]
pub enum ItemKind {
    Trace,
    Log,
    Meter,
    Instance,
    Ping,
}

/// The kind of `item`.
pub open spec fn kind_of(item: CollectItem) -> ItemKind {
    match item {
        CollectItem::Trace(_) => ItemKind::Trace,
        CollectItem::Log(_) => ItemKind::Log,
        CollectItem::Meter(_) => ItemKind::Meter,
        CollectItem::Instance(_) => ItemKind::Instance,
        CollectItem::Ping(_) => ItemKind::Ping,
    }
}

impl CollectItem {
    /// The kind of this item.
    pub fn kind(&self) -> (r: ItemKind)
        ensures
            r == kind_of(*self),
    {
        match self {
            CollectItem::Trace(_) => ItemKind::Trace,
            CollectItem::Log(_) => ItemKind::Log,
            CollectItem::Meter(_) => ItemKind::Meter,
            CollectItem::Instance(_) => ItemKind::Instance,
            CollectItem::Ping(_) => ItemKind::Ping,
        }
    }
}

/// Report provide non-blocking report method for trace, log and metric object.
pub trait Report {
    /// The non-blocking report method.
    fn report(&self, item: CollectItem);
}

/// `item` was handed to `reporter` (a call of its `Report::report`).
pub open spec fn reported<R: Report>(reporter: R, item: CollectItem) -> bool {
    call_ensures(<R as Report>::report, (&reporter, item), ())
}

/// Hand `item` to `reporter`.
pub fn report_to<R: Report>(reporter: &R, item: CollectItem)
    ensures
        reported(*reporter, item),
{
    let report = <R as Report>::report;
    report(reporter, item)
}

/// Noop reporter.
impl Report for () {
    fn report(&self, item: CollectItem) {
        let _ = item;
    }
}

impl<T: Report> Report for Box<T> {
    fn report(&self, item: CollectItem) {
        (**self).report(item)
    }
}

impl<T: Report> Report for Arc<T> {
    fn report(&self, item: CollectItem) {
        (**self).report(item)
    }
}

} // verus!
