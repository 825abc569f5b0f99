//! A reporter that prints each collected item to the standard output or error.
use std::io::Write;

use crate::common::strings::{owned, push_str};
use crate::proto::v3::{
    InstancePingPkg, InstancePingPkgView, InstanceProperties, InstancePropertiesView, LogData,
    LogDataView, MeterData, MeterDataView, SegmentObject, SegmentObjectView,
};
use crate::reporter::{CollectItem, ItemKind, Report, kind_of};
use vstd::prelude::*;

verus! {

/// The text before the data of an item of kind `k` in the printed line.
pub open spec fn label_of(k: ItemKind) -> Seq<char> {
    match k {
        ItemKind::Trace => "trace segment="@,
        ItemKind::Log => "log data="@,
        ItemKind::Meter => "meter data="@,
        ItemKind::Instance => "instance properties data="@,
        ItemKind::Ping => "ping data="@,
    }
}

/// The text before the data of an item of kind `k`.
pub fn item_label(k: ItemKind) -> (r: &'static str)
    ensures
        r@ == label_of(k),
{
    match k {
        ItemKind::Trace => "trace segment=",
        ItemKind::Log => "log data=",
        ItemKind::Meter => "meter data=",
        ItemKind::Instance => "instance properties data=",
        ItemKind::Ping => "ping data=",
    }
}

/// What the derived `Debug` of [SegmentObject] writes (`{:?}`) for a segment.
pub uninterp spec fn segment_debug_text(segment: SegmentObjectView) -> Seq<char>;

/// What the derived `Debug` of [LogData] writes (`{:?}`) for a log.
pub uninterp spec fn log_debug_text(log: LogDataView) -> Seq<char>;

/// What the derived `Debug` of [MeterData] writes (`{:?}`) for a sample.
pub uninterp spec fn meter_debug_text(meter: MeterDataView) -> Seq<char>;

/// What the derived `Debug` of [InstanceProperties] writes (`{:?}`).
pub uninterp spec fn properties_debug_text(properties: InstancePropertiesView) -> Seq<char>;

/// What the derived `Debug` of [InstancePingPkg] writes (`{:?}`).
pub uninterp spec fn ping_debug_text(ping: InstancePingPkgView) -> Seq<char>;

/// The `Debug` text of the data that `item` carries.
pub open spec fn item_debug_text(item: CollectItem) -> Seq<char> {
    match item {
        CollectItem::Trace(d) => segment_debug_text(d@),
        CollectItem::Log(d) => log_debug_text(d@),
        CollectItem::Meter(d) => meter_debug_text(d@),
        CollectItem::Instance(d) => properties_debug_text(d@),
        CollectItem::Ping(d) => ping_debug_text(d@),
    }
}

/// `format!("{:?}", segment)`, over the derived `Debug` of [SegmentObject]:
/// its text is a function of the segment's fields alone, here named.
#[verifier::external_body]
fn segment_debug(segment: &SegmentObject) -> (r: String)
    ensures
        r@ == segment_debug_text(segment@),
{
    format!("{:?}", segment)
}

/// `format!("{:?}", log)`, over the derived `Debug` of [LogData]: its text is
/// a function of the log's fields alone, here named.
#[verifier::external_body]
fn log_debug(log: &LogData) -> (r: String)
    ensures
        r@ == log_debug_text(log@),
{
    format!("{:?}", log)
}

/// `format!("{:?}", meter)`, over the derived `Debug` of [MeterData]: its
/// text is a function of the sample's fields alone, here named.
#[verifier::external_body]
fn meter_debug(meter: &MeterData) -> (r: String)
    ensures
        r@ == meter_debug_text(meter@),
{
    format!("{:?}", meter)
}

/// `format!("{:?}", properties)`, over the derived `Debug` of
/// [InstanceProperties]: its text is a function of the fields alone, here
/// named.
#[verifier::external_body]
fn properties_debug(properties: &InstanceProperties) -> (r: String)
    ensures
        r@ == properties_debug_text(properties@),
{
    format!("{:?}", properties)
}

/// `format!("{:?}", ping)`, over the derived `Debug` of [InstancePingPkg]:
/// its text is a function of the fields alone, here named.
#[verifier::external_body]
fn ping_debug(ping: &InstancePingPkg) -> (r: String)
    ensures
        r@ == ping_debug_text(ping@),
{
    format!("{:?}", ping)
}

/// Writes `line` and a line break to the standard output (`writeln!` on
/// `std::io::stdout()`); a failed write is ignored.
#[verifier::external_body]
fn write_stdout(line: &str) {
    let _ = writeln!(std::io::stdout(), "{}", line);
}

/// Writes `line` and a line break to the standard error (`writeln!` on
/// `std::io::stderr()`); a failed write is ignored.
#[verifier::external_body]
fn write_stderr(line: &str) {
    let _ = writeln!(std::io::stderr(), "{}", line);
}

/// Prints each item, labelled by its kind, with its data in `Debug` form.
#[derive(Debug, Clone)]
pub struct PrintReporter {
    use_stderr: bool,
}

impl PrintReporter {
    /// Whether the reporter prints to the standard error.
    pub closed spec fn prints_to_stderr(&self) -> bool {
        self.use_stderr
    }

    /// A reporter that prints to the standard output.
    #[inline]
    pub fn new() -> (r: Self)
        ensures
            !r.prints_to_stderr(),
    {
        PrintReporter { use_stderr: false }
    }

    /// Choose the standard error (`true`) or output (`false`).
    pub fn use_stderr(self, use_stderr: bool) -> (r: Self)
        ensures
            r.prints_to_stderr() == use_stderr,
    {
        let mut s = self;
        s.use_stderr = use_stderr;
        s
    }

    /// Whether the reporter prints to the standard error.
    pub fn uses_stderr(&self) -> (r: bool)
        ensures
            r == self.prints_to_stderr(),
    {
        self.use_stderr
    }

    /// The line printed for `item`: its label, then its data in `Debug` form.
    pub fn line(item: &CollectItem) -> (r: String)
        ensures
            r@ == label_of(kind_of(*item)) + item_debug_text(*item),
    {
        let mut line = owned(item_label(item.kind()));
        let data = match item {
            CollectItem::Trace(data) => segment_debug(&**data),
            CollectItem::Log(data) => log_debug(&**data),
            CollectItem::Meter(data) => meter_debug(&**data),
            CollectItem::Instance(data) => properties_debug(&**data),
            CollectItem::Ping(data) => ping_debug(&**data),
        };
        push_str(&mut line, data.as_str());
        line
    }
}

impl Default for PrintReporter {
    fn default() -> (r: Self)
        ensures
            !r.prints_to_stderr(),
    {
        PrintReporter::new()
    }
}

/// `text` was written as a line to the standard error.
pub closed spec fn stderr_line_written(text: Seq<char>) -> bool {
    exists|line: &str| line@ == text && #[trigger] call_ensures(write_stderr, (line,), ())
}

/// `text` was written as a line to the standard output.
pub closed spec fn stdout_line_written(text: Seq<char>) -> bool {
    exists|line: &str| line@ == text && #[trigger] call_ensures(write_stdout, (line,), ())
}

/// `text` was written as a line to the standard error (`to_stderr`) or
/// output.
pub open spec fn line_written(to_stderr: bool, text: Seq<char>) -> bool {
    if to_stderr {
        stderr_line_written(text)
    } else {
        stdout_line_written(text)
    }
}

impl Report for PrintReporter {
    /// The item's line, its label then its data, is written to the standard
    /// error or output, as the reporter is set.
    fn report(&self, items: CollectItem)
        ensures
            line_written(self.prints_to_stderr(), label_of(kind_of(items)) + item_debug_text(items)),
    {
        let line = PrintReporter::line(&items);
        let text = line.as_str();
        if self.use_stderr {
            let write = write_stderr;
            write(text);
            assert(call_ensures(write_stderr, (text,), ()));
            assert(line_written(true, text@));
        } else {
            let write = write_stdout;
            write(text);
            assert(call_ensures(write_stdout, (text,), ()));
            assert(line_written(false, text@));
        }
    }
}

} // verus!
