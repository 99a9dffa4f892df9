//! Aggregates: a reduction over a metric, optionally scoped to a label.
//!
//! The string form is `<op>` or `<op>:<label>`, where `<op>` is `sum` or
//! `mean`. Encoding writes the operation alone: the label is not kept.

use vstd::prelude::*;
use vstd::string::StringExecFns;
use crate::error::{Error, ErrorView, outcome};
use crate::text::{
    lemma_split_joined, lemma_split_plain, operation, parameter, same_text, split_first,
};

verus! {

/// A reduction operation.
#[derive(Debug, Clone, Copy, PartialEq, Eq, Structural)]
pub enum AggOp {
    Sum,
    Mean,
}

/// A reduction operation with the label it is grouped by, if any.
#[derive(Debug, PartialEq, Eq)]
pub struct Aggregate(pub AggOp, pub Option<String>);

/// The mathematical content of an [`Aggregate`].
pub struct AggregateView {
    pub op: AggOp,
    pub label: Option<Seq<char>>,
}

impl View for Aggregate {
    type V = AggregateView;

    open spec fn view(&self) -> AggregateView {
        AggregateView {
            op: self.0,
            label: match self.1 {
                Some(label) => Some(label@),
                None => None,
            },
        }
    }
}

/// What decoding an aggregate yields. The token before the first `:` names
/// the operation; whatever follows that `:` is the label, as it stands.
pub open spec fn decode_aggregate(s: Seq<char>) -> Result<AggregateView, ErrorView> {
    if operation(s) == "sum"@ {
        Ok(AggregateView { op: AggOp::Sum, label: parameter(s) })
    } else if operation(s) == "mean"@ {
        Ok(AggregateView { op: AggOp::Mean, label: parameter(s) })
    } else {
        Err(ErrorView::UnsupportedOperation(operation(s)))
    }
}

/// The string form of an aggregate: the token of its operation.
pub open spec fn encode_aggregate(a: AggregateView) -> Seq<char> {
    match a.op {
        AggOp::Sum => "sum"@,
        AggOp::Mean => "mean"@,
    }
}

/// Decodes `<op>` or `<op>:<label>`.
///
/// Succeeds exactly when the operation token is `sum` or `mean`; any other
/// token, the empty one included, is reported back in the error.
pub fn parse_aggregate_str(s: &str) -> (r: Result<Aggregate, Error>)
    ensures
        outcome(r) == decode_aggregate(s@),
{
    let (token, rest) = split_first(s);
    let op: AggOp = if same_text(token, "sum") {
        AggOp::Sum
    } else if same_text(token, "mean") {
        AggOp::Mean
    } else {
        return Err(Error::UnsupportedOperation(String::from_str(token)));
    };
    let label: Option<String> = match rest {
        Some(text) => Some(String::from_str(text)),
        None => None,
    };
    Ok(Aggregate(op, label))
}

impl Aggregate {
    /// Encodes the aggregate as the token of its operation. The label is
    /// dropped.
    pub fn encode(&self) -> (text: String)
        ensures
            text@ == encode_aggregate(self@),
    {
        match self.0 {
            AggOp::Sum => String::from_str("sum"),
            AggOp::Mean => String::from_str("mean"),
        }
    }
}

/// Decoding what encoding wrote gives the operation back and no label:
/// encoding keeps the operation and drops the label.
pub proof fn lemma_aggregate_round_trip(a: AggregateView)
    ensures
        decode_aggregate(encode_aggregate(a)) == Ok::<AggregateView, ErrorView>(
            AggregateView { op: a.op, label: None },
        ),
{
    reveal_strlit("sum");
    reveal_strlit("mean");
    lemma_split_plain("sum"@);
    lemma_split_plain("mean"@);
}

/// An operation token, a `:` and a label decode to that operation with the
/// label as it stands, further `:` included.
pub proof fn lemma_aggregate_label(op: AggOp, label: Seq<char>)
    ensures
        decode_aggregate(encode_aggregate(AggregateView { op, label: None }) + seq![':'] + label)
            == Ok::<AggregateView, ErrorView>(AggregateView { op, label: Some(label) }),
{
    reveal_strlit("sum");
    reveal_strlit("mean");
    lemma_split_joined("sum"@, label);
    lemma_split_joined("mean"@, label);
}

} // verus!
