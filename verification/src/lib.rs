//! A declarative schema for how metrics are collected, aggregated,
//! transformed and displayed, with the codecs for its compact string forms.
//!
//! The schema ([`schema`]) is a tree of plain values. Three kinds of leaf
//! have a string form of their own, each with a decoder and an encoder:
//!
//! - ranges ([`range`]): two integers, lower bound first;
//! - aggregates ([`aggregate`]): `sum` or `mean`, with an optional label;
//! - transforms ([`transform`]): `rate`, or `mul`, `div`, `add`, `sub` with
//!   an integer operand.
//!
//! Integers are written under one grammar ([`number`]): an optional minus,
//! decimal digits, and an optional unit `K`, `M`, `G` or `T` that scales by
//! a power of 1024. Encoding is canonical rather than faithful: it writes
//! plain decimal and drops the label of an aggregate, so that decoding what
//! was encoded gives back every value but those labels.
//!
//! Every decoder is total: it returns the value or an [`Error`] that says
//! what was wrong, and its contract says which of the two on every input.

pub mod aggregate;
pub mod error;
pub mod format;
pub mod number;
pub mod range;
pub mod schema;
pub mod text;
pub mod transform;

pub use crate::aggregate::{parse_aggregate_str, AggOp, Aggregate, AggregateView};
pub use crate::error::{Error, ErrorKind, ErrorView};
pub use crate::format::{Format, UnrecognizedFormat};
pub use crate::number::{format_decimal, parse_next_int, parse_with_unit};
pub use crate::range::{AxisRange, Range};
pub use crate::schema::{Axis, Collector, Display, Group, Metric, Metrics};
pub use crate::transform::{parse_transform_str, Transform};
