//! Logger and global methods.

use crate::common::strings::owned;
use crate::common::system_time::{clock_reading, TimePeriod};
use crate::logging::record::{converted, LogRecord, LogRecordView};
use crate::proto::v3::LogData;
use crate::reporter::{report_to, reported, CollectItem, Report};
use crate::trace::tracer::share;
use std::sync::Arc;
use vstd::prelude::*;

verus! {

struct Inner<R> {
    service_name: String,
    instance_name: String,
    reporter: R,
}

/// Logger handles skywalking logging operations, integrate with reporter.
pub struct Logger<R> {
    inner: Arc<Inner<R>>,
}

impl<R> Logger<R> {
    /// The service name.
    pub closed spec fn service_view(&self) -> Seq<char> {
        self.inner.service_name@
    }

    /// The instance name.
    pub closed spec fn instance_view(&self) -> Seq<char> {
        self.inner.instance_name@
    }

    /// The reporter.
    pub closed spec fn reporter_view(&self) -> R {
        self.inner.reporter
    }
}

/// `item` is the log item of `record` for the service and instance, stamped
/// at `now`.
pub open spec fn log_item_of(
    item: CollectItem,
    record: LogRecordView,
    service: Seq<char>,
    instance: Seq<char>,
    now: i64,
) -> bool {
    item matches CollectItem::Log(d) && converted(*d, record, service, instance, now)
}

/// `now` is the time a record logged now is stamped with: a reading of the
/// clock, unless the record keeps its own time or ignores time.
pub open spec fn log_stamp(record: LogRecordView, now: i64) -> bool {
    record.is_ignore_time || record.time is Some || clock_reading(TimePeriod::Log, now)
}

impl<R: Report> Logger<R> {
    /// New with service info and reporter.
    pub fn new(service_name: &str, instance_name: &str, reporter: R) -> (r: Self)
        ensures
            r.service_view() == service_name@,
            r.instance_view() == instance_name@,
    {
        Logger {
            inner: Arc::new(
                Inner {
                    service_name: owned(service_name),
                    instance_name: owned(instance_name),
                    reporter,
                },
            ),
        }
    }

    /// Get service name.
    pub fn service_name(&self) -> (r: &str)
        ensures
            r@ == self.service_view(),
    {
        self.inner.service_name.as_str()
    }

    /// Get instance name.
    pub fn instance_name(&self) -> (r: &str)
        ensures
            r@ == self.instance_view(),
    {
        self.inner.instance_name.as_str()
    }

    /// Report log record: the reporter gets [`Logger::log_item`] of the
    /// record.
    pub fn log(&self, record: LogRecord)
        ensures
            exists|item: CollectItem, now: i64|
                #![trigger reported(self.reporter_view(), item), log_stamp(record@, now)]
                reported(self.reporter_view(), item) && log_item_of(
                    item,
                    record@,
                    self.service_view(),
                    self.instance_view(),
                    now,
                ) && log_stamp(record@, now),
    {
        let ghost rv = record@;
        let item = self.log_item(record);
        let ghost i = item;
        report_to(&self.inner.reporter, item);
        proof {
            let now = choose|now: i64|
                #[trigger] log_item_of(i, rv, self.service_view(), self.instance_view(), now)
                    && log_stamp(rv, now);
            assert(reported(self.reporter_view(), i) && log_stamp(rv, now));
        }
    }

    /// Report log record, taking `now` as the current time: the reporter gets
    /// [`Logger::log_item_at`] of the record.
    pub fn log_at(&self, record: LogRecord, now: i64)
        ensures
            exists|item: CollectItem|
                #[trigger] reported(self.reporter_view(), item) && log_item_of(
                    item,
                    record@,
                    self.service_view(),
                    self.instance_view(),
                    now,
                ),
    {
        let item = self.log_item_at(record, now);
        let ghost i = item;
        report_to(&self.inner.reporter, item);
        assert(reported(self.reporter_view(), i));
    }

    /// The log item that reports `record` at time `now`: the record converted
    /// to log data of this logger's service and instance.
    pub fn log_item_at(&self, record: LogRecord, now: i64) -> (r: CollectItem)
        ensures
            r matches CollectItem::Log(d) && converted(*d, record@, self.service_view(), self.instance_view(), now),
    {
        let data = record.convert_to_log_data_at(
            self.inner.service_name.clone(),
            self.inner.instance_name.clone(),
            now,
        );
        CollectItem::Log(Box::new(data))
    }

    /// The log item that reports `record` now: the record converted to log
    /// data of this logger's service and instance, stamped with a reading of
    /// the clock unless a custom time is set or time is ignored.
    pub fn log_item(&self, record: LogRecord) -> (r: CollectItem)
        ensures
            exists|now: i64|
                #[trigger] log_item_of(r, record@, self.service_view(), self.instance_view(), now)
                    && log_stamp(record@, now),
            record@.is_ignore_time || record@.time is Some ==> (r matches CollectItem::Log(d)
                && converted(*d, record@, self.service_view(), self.instance_view(), 0)),
    {
        let ghost rv = record@;
        let data = record.convert_to_log_data(
            self.inner.service_name.clone(),
            self.inner.instance_name.clone(),
        );
        proof {
            let now = choose|now: i64|
                converted(data, rv, self.service_view(), self.instance_view(), now)
                    && (rv.is_ignore_time || rv.time is Some || clock_reading(TimePeriod::Log, now));
            assert(log_item_of(CollectItem::Log(Box::new(data)), rv, self.service_view(), self.instance_view(), now));
        }
        CollectItem::Log(Box::new(data))
    }
}

impl<R> Clone for Logger<R> {
    fn clone(&self) -> (r: Self)
        ensures
            r.service_view() == self.service_view(),
            r.instance_view() == self.instance_view(),
    {
        Logger { inner: share(&self.inner) }
    }
}

/// Logging a record hands the reporter a log item whose data belongs to the
/// logger's service and to its instance, in that order, carries the record's
/// endpoint, and is stamped with 0 where the record ignores time, else with
/// the record's own time, else with a reading of the clock.
pub proof fn law_log_reports_for_the_logger<R: Report>(logger: &Logger<R>, record: LogRecord)
    requires
        call_ensures(Logger::<R>::log, (logger, record), ()),
    ensures
        exists|d: LogData|
            #[trigger] reported(logger.reporter_view(), CollectItem::Log(Box::new(d)))
                && d.service@ == logger.service_view()
                && d.service_instance@ == logger.instance_view()
                && d.endpoint@ == record@.endpoint
                && (record@.is_ignore_time ==> d.timestamp == 0)
                && (!record@.is_ignore_time && record@.time is Some ==> d.timestamp == record@.time->0)
                && (!record@.is_ignore_time && record@.time is None ==> clock_reading(TimePeriod::Log, d.timestamp)),
{
    let (item, now) = choose|item: CollectItem, now: i64|
        #![trigger reported(logger.reporter_view(), item), log_stamp(record@, now)]
        reported(logger.reporter_view(), item) && log_item_of(
            item,
            record@,
            logger.service_view(),
            logger.instance_view(),
            now,
        ) && log_stamp(record@, now);
    let d = *item->Log_0;
    assert(item == CollectItem::Log(Box::new(d)));
}

/// Logging a record at `now` hands the reporter a log item whose data
/// belongs to the logger's service and instance and is stamped with `now`,
/// unless the record ignores time or keeps its own.
pub proof fn law_log_at_reports_for_the_logger<R: Report>(logger: &Logger<R>, record: LogRecord, now: i64)
    requires
        call_ensures(Logger::<R>::log_at, (logger, record, now), ()),
    ensures
        exists|d: LogData|
            #[trigger] reported(logger.reporter_view(), CollectItem::Log(Box::new(d)))
                && d.service@ == logger.service_view()
                && d.service_instance@ == logger.instance_view()
                && d.endpoint@ == record@.endpoint
                && (!record@.is_ignore_time && record@.time is None ==> d.timestamp == now),
{
    let item = choose|item: CollectItem|
        #[trigger] reported(logger.reporter_view(), item) && log_item_of(
            item,
            record@,
            logger.service_view(),
            logger.instance_view(),
            now,
        );
    let d = *item->Log_0;
    assert(item == CollectItem::Log(Box::new(d)));
}

} // verus!
