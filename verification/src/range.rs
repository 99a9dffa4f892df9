//! Ranges: the display bounds of an axis.
//!
//! The string form is a sequence of exactly two numbers under the
//! unit-suffixed integer grammar, lower bound first. Nothing orders the two
//! bounds: a range whose lower bound exceeds its upper one is a range.

use vstd::prelude::*;
use crate::error::{Error, ErrorView, outcome};
use crate::number::{
    decimal, decode_number, format_decimal, lemma_decode_decimal, parse_with_unit,
};

verus! {

/// A lower and an upper bound.
#[derive(Debug, Clone, Copy, PartialEq, Eq, Structural)]
pub struct Range(pub i64, pub i64);

/// The bounds of the two axes of a chart.
#[derive(Debug, Clone, Copy, PartialEq, Eq, Structural)]
pub struct AxisRange {
    pub y1: Range,
    pub y2: Range,
}

impl View for Range {
    type V = Range;

    open spec fn view(&self) -> Range {
        *self
    }
}

/// The texts that a sequence of strings holds, in order.
pub open spec fn texts(elems: Seq<String>) -> Seq<Seq<char>> {
    Seq::new(elems.len(), |i: int| elems[i]@)
}

/// What decoding a range yields: the two bounds if the sequence has exactly
/// two elements and each decodes as a number, and one and the same error
/// otherwise.
pub open spec fn decode_range(elems: Seq<Seq<char>>) -> Result<Range, ErrorView> {
    if elems.len() == 2 && decode_number(elems[0]) is Ok && decode_number(elems[1]) is Ok {
        Ok(Range(decode_number(elems[0])->Ok_0, decode_number(elems[1])->Ok_0))
    } else {
        Err(ErrorView::MalformedRange)
    }
}

/// The string form of a range: its two bounds in plain decimal.
pub open spec fn encode_range(r: Range) -> Seq<Seq<char>> {
    seq![decimal(r.0 as int), decimal(r.1 as int)]
}

impl Range {
    /// Decodes a sequence of two numbers, each with an optional unit suffix.
    ///
    /// Succeeds exactly when there are two elements and both decode; the
    /// bounds are taken as they come, in no required order.
    pub fn decode(elems: &[String]) -> (r: Result<Range, Error>)
        ensures
            outcome(r) == decode_range(texts(elems@)),
    {
        if elems.len() != 2 {
            return Err(Error::MalformedRange);
        }
        let lower: i64 = match parse_with_unit(elems[0].as_str()) {
            Ok(n) => n,
            Err(_) => {
                return Err(Error::MalformedRange);
            },
        };
        let upper: i64 = match parse_with_unit(elems[1].as_str()) {
            Ok(n) => n,
            Err(_) => {
                return Err(Error::MalformedRange);
            },
        };
        Ok(Range(lower, upper))
    }

    /// Encodes the range as its two bounds in plain decimal.
    pub fn encode(&self) -> (elems: Vec<String>)
        ensures
            texts(elems@) == encode_range(*self),
    {
        let mut elems: Vec<String> = Vec::new();
        elems.push(format_decimal(self.0));
        elems.push(format_decimal(self.1));
        assert(texts(elems@) =~= encode_range(*self));
        elems
    }
}

/// Decoding inverts encoding: every range comes back from its string form,
/// whatever the order of its bounds.
pub proof fn lemma_range_round_trip(r: Range)
    ensures
        decode_range(encode_range(r)) == Ok::<Range, ErrorView>(r),
{
    lemma_decode_decimal(r.0);
    lemma_decode_decimal(r.1);
}

} // verus!
