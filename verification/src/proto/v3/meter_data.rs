//! The metric of a meter sample.
use super::{MeterHistogram, MeterHistogramView, MeterSingleValue, MeterSingleValueView};
use vstd::prelude::*;

verus! {

/// A single value or a histogram.
#[derive(Debug, PartialEq)]
pub enum Metric {
    SingleValue(MeterSingleValue),
    Histogram(MeterHistogram),
}

/// The view of a [Metric].
pub enum MetricView {
    SingleValue(MeterSingleValueView),
    Histogram(MeterHistogramView),
}

impl View for Metric {
    type V = MetricView;

    open spec fn view(&self) -> MetricView {
        match self {
            Metric::SingleValue(v) => MetricView::SingleValue(v@),
            Metric::Histogram(h) => MetricView::Histogram(h@),
        }
    }
}

} // verus!
