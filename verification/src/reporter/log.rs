//! A reporter that hands each segment to a log line, by `println` or by the
//! `tracing` crate.

use crate::common::strings::owned;
use vstd::prelude::*;

verus! {

/// Where the lines go.
#[derive(Debug, Clone, Copy, PartialEq, Eq, Structural)]
pub enum Used {
    /// The standard output.
    Println,
    /// An `info` event of the `tracing` crate.
    Tracing,
}

/// Writes a line `"{tip} segment={segment:?}"` for each collected segment.
#[derive(Debug, Clone)]
pub struct LogReporter {
    tip: String,
    used: Used,
}

impl LogReporter {
    /// The text that starts each line.
    pub closed spec fn tip_view(&self) -> Seq<char> {
        self.tip@
    }

    /// Where the lines go.
    pub closed spec fn used_view(&self) -> Used {
        self.used
    }

    /// A reporter with the tip `Collect` that prints its lines.
    #[inline]
    pub fn new() -> (r: Self)
        ensures
            r.tip_view() == "Collect"@,
            r.used_view() == Used::Println,
    {
        LogReporter { tip: owned("Collect"), used: Used::Println }
    }

    /// Set the text that starts each line.
    pub fn tip(self, tip: String) -> (r: Self)
        ensures
            r.tip_view() == tip@,
            r.used_view() == self.used_view(),
    {
        let mut s = self;
        s.tip = tip;
        s
    }

    /// Hand the lines to the `tracing` crate.
    pub fn use_tracing(self) -> (r: Self)
        ensures
            r.tip_view() == self.tip_view(),
            r.used_view() == Used::Tracing,
    {
        let mut s = self;
        s.used = Used::Tracing;
        s
    }

    /// Print the lines.
    pub fn use_println(self) -> (r: Self)
        ensures
            r.tip_view() == self.tip_view(),
            r.used_view() == Used::Println,
    {
        let mut s = self;
        s.used = Used::Println;
        s
    }

    /// The text that starts each line.
    pub fn tip_text(&self) -> (r: &str)
        ensures
            r@ == self.tip_view(),
    {
        self.tip.as_str()
    }

    /// Where the lines go.
    pub fn used(&self) -> (r: Used)
        ensures
            r == self.used_view(),
    {
        self.used
    }
}

impl Default for LogReporter {
    fn default() -> (r: Self)
        ensures
            r.tip_view() == "Collect"@,
            r.used_view() == Used::Println,
    {
        LogReporter::new()
    }
}

} // verus!
