//! The schema: which metrics are collected from where, how they are grouped,
//! and how each is aggregated, transformed and displayed.
//!
//! The schema is a tree of plain values. Nothing ties one field to another:
//! a metric may name an axis its group gives no range for.

use vstd::prelude::*;
use std::collections::HashMap;
use crate::aggregate::Aggregate;
use crate::range::{AxisRange, Range};
use crate::transform::Transform;

verus! {

/// One of the two axes of a chart.
#[derive(Debug, Clone, Copy, PartialEq, Eq, Structural)]
pub enum Axis {
    Y1,
    Y2,
}

/// How a metric is drawn. The flags are independent.
#[derive(Debug, Clone, Copy, PartialEq, Eq, Structural)]
pub enum Display {
    Stacked,
    Inverted,
    Percentage,
}

/// A metric: a selector naming the underlying data, and what is done to it
/// on the way to the chart. An absent list and an empty list are different
/// values.
#[derive(Debug, PartialEq, Eq)]
pub struct Metric {
    pub name: String,
    /// The unit the values are displayed in.
    pub unit: Option<String>,
    /// Names the underlying raw metric; not interpreted here.
    pub selector: String,
    pub aggregate: Option<Vec<Aggregate>>,
    /// The stages of the pipeline, applied in the order of the list.
    pub transform: Option<Vec<Transform>>,
    pub display: Option<Vec<Display>>,
    pub axis: Option<Axis>,
}

/// A named group of metrics, with the bounds of its axis or axes.
#[derive(Debug, PartialEq, Eq)]
pub struct Group {
    pub name: String,
    /// The bounds of a single axis.
    pub range: Option<Range>,
    /// The bounds of each of two axes.
    pub axis_range: Option<AxisRange>,
    pub metrics: Vec<Metric>,
}

/// Where metrics are read from.
#[derive(Debug, PartialEq, Eq)]
pub enum Collector {
    Prometheus { endpoint: String },
    Statsd { endpoint: String },
    Telegraf,
}

/// The root of the schema: one collector, and the groups by name. The
/// groups come in no order.
#[derive(Debug, PartialEq, Eq)]
pub struct Metrics {
    pub collect: Collector,
    pub groups: HashMap<String, Group>,
}

} // verus!
