//! Transforms: the stages of the pipeline applied to a metric's values.
//!
//! The string form is `rate`, which takes no parameter, or `<op>:<operand>`
//! with `<op>` one of `mul`, `div`, `add`, `sub` and the operand an integer
//! under the unit-suffixed grammar. Encoding writes the operand in plain
//! decimal.

use vstd::prelude::*;
use vstd::string::StringExecFns;
use crate::error::{Error, ErrorView, outcome};
use crate::number::{
    decimal, decode_operand, format_decimal, lemma_decode_decimal, parse_next_int,
};
use crate::text::{
    lemma_split_joined, lemma_split_plain, no_colon, operation, parameter, same_text, split_first,
};

verus! {

/// One stage of a metric's pipeline: the rate of change, or arithmetic with
/// a fixed operand.
#[derive(Debug, Clone, Copy, PartialEq, Eq, Structural)]
pub enum Transform {
    Rate,
    Mul(i64),
    Div(i64),
    Add(i64),
    Sub(i64),
}

impl View for Transform {
    type V = Transform;

    open spec fn view(&self) -> Transform {
        *self
    }
}

/// What decoding the operand of an arithmetic stage yields, wrapped by the
/// stage's constructor.
pub open spec fn decode_stage(
    stage: spec_fn(i64) -> Transform,
    operand: Option<Seq<char>>,
) -> Result<Transform, ErrorView> {
    match decode_operand(operand) {
        Ok(n) => Ok(stage(n)),
        Err(e) => Err(e),
    }
}

/// What decoding a transform yields. The token before the first `:` selects
/// the stage; `rate` admits nothing after it, and the four arithmetic stages
/// take all that follows the first `:` as their operand.
pub open spec fn decode_transform(s: Seq<char>) -> Result<Transform, ErrorView> {
    if operation(s) == "rate"@ {
        if parameter(s) is Some {
            Err(ErrorView::UnexpectedParameter)
        } else {
            Ok(Transform::Rate)
        }
    } else if operation(s) == "mul"@ {
        decode_stage(|n: i64| Transform::Mul(n), parameter(s))
    } else if operation(s) == "div"@ {
        decode_stage(|n: i64| Transform::Div(n), parameter(s))
    } else if operation(s) == "add"@ {
        decode_stage(|n: i64| Transform::Add(n), parameter(s))
    } else if operation(s) == "sub"@ {
        decode_stage(|n: i64| Transform::Sub(n), parameter(s))
    } else {
        Err(ErrorView::UnsupportedOperation(operation(s)))
    }
}

/// The string form of a transform: `rate`, or the stage's token, a `:` and
/// the operand in plain decimal.
pub open spec fn encode_transform(t: Transform) -> Seq<char> {
    match t {
        Transform::Rate => "rate"@,
        Transform::Mul(n) => "mul:"@ + decimal(n as int),
        Transform::Div(n) => "div:"@ + decimal(n as int),
        Transform::Add(n) => "add:"@ + decimal(n as int),
        Transform::Sub(n) => "sub:"@ + decimal(n as int),
    }
}

/// Decodes `rate` or `<op>:<operand>`.
///
/// Succeeds exactly on `rate` alone and on `mul`, `div`, `add` or `sub`
/// followed by a `:` and a number whose value fits in an `i64`. Every other
/// text is an error that says what was wrong with it.
pub fn parse_transform_str(s: &str) -> (r: Result<Transform, Error>)
    ensures
        outcome(r) == decode_transform(s@),
{
    let (token, rest) = split_first(s);
    if same_text(token, "rate") {
        match rest {
            Some(_) => Err(Error::UnexpectedParameter),
            None => Ok(Transform::Rate),
        }
    } else if same_text(token, "mul") {
        match parse_next_int(rest) {
            Ok(n) => Ok(Transform::Mul(n)),
            Err(e) => Err(e),
        }
    } else if same_text(token, "div") {
        match parse_next_int(rest) {
            Ok(n) => Ok(Transform::Div(n)),
            Err(e) => Err(e),
        }
    } else if same_text(token, "add") {
        match parse_next_int(rest) {
            Ok(n) => Ok(Transform::Add(n)),
            Err(e) => Err(e),
        }
    } else if same_text(token, "sub") {
        match parse_next_int(rest) {
            Ok(n) => Ok(Transform::Sub(n)),
            Err(e) => Err(e),
        }
    } else {
        Err(Error::UnsupportedOperation(String::from_str(token)))
    }
}

impl Transform {
    /// Encodes the transform; the operand is written in plain decimal,
    /// whatever unit it was decoded with.
    pub fn encode(&self) -> (text: String)
        ensures
            text@ == encode_transform(*self),
    {
        match *self {
            Transform::Rate => String::from_str("rate"),
            Transform::Mul(n) => String::from_str("mul:").concat(format_decimal(n).as_str()),
            Transform::Div(n) => String::from_str("div:").concat(format_decimal(n).as_str()),
            Transform::Add(n) => String::from_str("add:").concat(format_decimal(n).as_str()),
            Transform::Sub(n) => String::from_str("sub:").concat(format_decimal(n).as_str()),
        }
    }
}

/// Decoding inverts encoding: every transform comes back from its string
/// form, stage and operand alike.
pub proof fn lemma_transform_round_trip(t: Transform)
    ensures
        decode_transform(encode_transform(t)) == Ok::<Transform, ErrorView>(t),
{
    reveal_strlit("rate");
    reveal_strlit("mul");
    reveal_strlit("div");
    reveal_strlit("add");
    reveal_strlit("sub");
    reveal_strlit("mul:");
    reveal_strlit("div:");
    reveal_strlit("add:");
    reveal_strlit("sub:");
    match t {
        Transform::Rate => {
            lemma_split_plain("rate"@);
        },
        Transform::Mul(n) => {
            lemma_operand_round_trip("mul"@, n);
            assert("mul:"@ =~= "mul"@ + seq![':']);
        },
        Transform::Div(n) => {
            lemma_operand_round_trip("div"@, n);
            assert("div:"@ =~= "div"@ + seq![':']);
        },
        Transform::Add(n) => {
            lemma_operand_round_trip("add"@, n);
            assert("add:"@ =~= "add"@ + seq![':']);
        },
        Transform::Sub(n) => {
            lemma_operand_round_trip("sub"@, n);
            assert("sub:"@ =~= "sub"@ + seq![':']);
        },
    }
}

/// A token without `:`, a `:` and the decimal form of an operand split into
/// that token and a parameter that decodes to the operand.
proof fn lemma_operand_round_trip(token: Seq<char>, n: i64)
    requires
        no_colon(token),
    ensures
        operation(token + seq![':'] + decimal(n as int)) == token,
        decode_operand(parameter(token + seq![':'] + decimal(n as int))) == Ok::<i64, ErrorView>(n),
{
    lemma_split_joined(token, decimal(n as int));
    lemma_decode_decimal(n);
}

} // verus!
