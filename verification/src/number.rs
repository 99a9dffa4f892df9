//! The unit-suffixed integer grammar: `SIGN? DIGITS UNIT?`.
//!
//! `SIGN` is a minus, `DIGITS` is one or more of `0`..`9`, and `UNIT` is one
//! of `K`, `M`, `G`, `T`, which scales the integer by 1024 to the power 1, 2,
//! 3, 4. Decoding accepts the suffix; encoding always writes plain decimal.
//!
//! The grammar is stated here as spec functions on sequences of characters,
//! and the contracts and laws of this module speak of those alone. Decoding
//! leaves the match of a text against the grammar to the `regex` crate, and
//! reads the digits and scales the value itself.

use vstd::prelude::*;
use vstd::string::StrSliceExecFns;
use vstd::string::StringExecFns;
use crate::error::{Error, ErrorView, outcome};
use crate::text::{same_text, text_of};

verus! {

/// `c` is one of the ten decimal digits.
pub open spec fn is_digit(c: char) -> bool {
    '0' <= c && c <= '9'
}

/// The number a decimal digit stands for.
pub open spec fn digit_value(c: char) -> int {
    c as int - 48
}

/// The decimal digit that stands for `d`, for `0 <= d <= 9`.
pub open spec fn digit_char(d: int) -> char {
    (d + 48) as u8 as char
}

/// Every character of `s` is a decimal digit.
pub open spec fn all_digits(s: Seq<char>) -> bool {
    forall|i: int| 0 <= i < s.len() ==> is_digit(#[trigger] s[i])
}

/// The natural number that a run of decimal digits denotes, most significant
/// digit first. Leading zeros do not matter; the empty run denotes 0.
pub open spec fn digits_value(s: Seq<char>) -> int
    decreases s.len(),
{
    if s.len() == 0 {
        0
    } else {
        10 * digits_value(s.drop_last()) + digit_value(s.last())
    }
}

/// `c` is one of the four unit suffixes.
pub open spec fn is_unit(c: char) -> bool {
    c == 'K' || c == 'M' || c == 'G' || c == 'T'
}

/// What a unit suffix multiplies by; an absent unit multiplies by 1.
pub open spec fn unit_multiplier(unit: Option<char>) -> int {
    match unit {
        Some(c) => if c == 'K' {
            1024
        } else if c == 'M' {
            1024int * 1024
        } else if c == 'G' {
            1024int * 1024 * 1024
        } else if c == 'T' {
            1024int * 1024 * 1024 * 1024
        } else {
            1
        },
        None => 1,
    }
}

/// The text starts with a minus.
pub open spec fn has_sign(s: Seq<char>) -> bool {
    s.len() > 0 && s[0] == '-'
}

/// The unit suffix that the text ends with, if it ends with one.
pub open spec fn unit_of(s: Seq<char>) -> Option<char> {
    if s.len() > 0 && is_unit(s.last()) {
        Some(s.last())
    } else {
        None
    }
}

/// What is left of the text once a leading minus and a trailing unit are
/// taken away.
pub open spec fn digit_run(s: Seq<char>) -> Seq<char> {
    s.subrange(
        if has_sign(s) { 1 } else { 0 },
        if unit_of(s) is Some { s.len() - 1 } else { s.len() as int },
    )
}

/// The text matches `SIGN? DIGITS UNIT?`.
pub open spec fn is_number(s: Seq<char>) -> bool {
    digit_run(s).len() > 0 && all_digits(digit_run(s))
}

/// The integer that the text denotes before scaling: its digit run, negated
/// under a minus.
pub open spec fn unscaled_value(s: Seq<char>) -> int {
    if has_sign(s) {
        -digits_value(digit_run(s))
    } else {
        digits_value(digit_run(s))
    }
}

/// The integer that the text denotes: the signed digit run times the unit's
/// multiplier.
pub open spec fn number_value(s: Seq<char>) -> int {
    unscaled_value(s) * unit_multiplier(unit_of(s))
}

/// What decoding a text under the grammar yields: the value if the text
/// matches and the value fits in 64 signed bits, the reason otherwise.
pub open spec fn decode_number(s: Seq<char>) -> Result<i64, ErrorView> {
    if !is_number(s) {
        Err(ErrorView::InvalidNumber)
    } else if number_value(s) < i64::MIN || number_value(s) > i64::MAX {
        Err(ErrorView::NumberOutOfRange)
    } else {
        Ok(number_value(s) as i64)
    }
}

/// What decoding an operand yields: an absent operand is a missing
/// parameter, a present one is decoded as a number.
pub open spec fn decode_operand(text: Option<Seq<char>>) -> Result<i64, ErrorView> {
    match text {
        Some(s) => decode_number(s),
        None => Err(ErrorView::MissingParameter),
    }
}

/// The decimal digits of a natural number, without leading zeros.
pub open spec fn natural_digits(n: nat) -> Seq<char>
    decreases n,
{
    if n < 10 {
        seq![digit_char(n as int)]
    } else {
        natural_digits(n / 10).push(digit_char((n % 10) as int))
    }
}

/// The plain decimal form of an integer: a minus for a negative one, then
/// the digits of its magnitude.
pub open spec fn decimal(n: int) -> Seq<char> {
    if n < 0 {
        seq!['-'] + natural_digits((-n) as nat)
    } else {
        natural_digits(n as nat)
    }
}

/// The text of a unit suffix; an absent unit is the empty text.
pub open spec fn unit_text(unit: Option<char>) -> Seq<char> {
    match unit {
        Some(c) => seq![c],
        None => Seq::empty(),
    }
}

/// The text made of an optional minus, a run of digits and an optional unit.
pub open spec fn number_text(negative: bool, digits: Seq<char>, unit: Option<char>) -> Seq<char> {
    (if negative { seq!['-'] } else { Seq::empty() }) + digits + unit_text(unit)
}

/// Appending a digit to a run multiplies its value by ten and adds the digit.
proof fn lemma_digits_value_push(s: Seq<char>, c: char)
    ensures
        digits_value(s.push(c)) == 10 * digits_value(s) + digit_value(c),
{
    assert(s.push(c).drop_last() =~= s);
}

/// Scaling by a multiplier of at least 1 does not shrink a magnitude.
proof fn lemma_scaling_grows(magnitude: int, multiplier: int)
    requires
        magnitude >= 0,
        multiplier >= 1,
    ensures
        magnitude * multiplier >= magnitude,
        (-magnitude) * multiplier <= -magnitude,
{
    assert(magnitude * multiplier >= magnitude) by (nonlinear_arith)
        requires
            magnitude >= 0,
            multiplier >= 1,
    ;
    assert((-magnitude) * multiplier == -(magnitude * multiplier)) by (nonlinear_arith);
}

/// The largest magnitude a 64-bit signed integer can have: 2^63, that of the
/// least one.
const MAX_MAGNITUDE: u64 = 0x8000_0000_0000_0000;

/// What the scan of a digit run found.
enum Magnitude {
    /// Some character is not a digit.
    NotDigits,
    /// All are digits, and the value exceeds `MAX_MAGNITUDE`.
    TooLarge,
    /// All are digits, with this value, at most `MAX_MAGNITUDE`.
    Value(u64),
}

/// Reads a run of digits, most significant first.
fn read_digits(run: &str) -> (m: Magnitude)
    ensures
        match m {
            Magnitude::NotDigits => !all_digits(run@),
            Magnitude::TooLarge => all_digits(run@) && digits_value(run@) > MAX_MAGNITUDE,
            Magnitude::Value(v) => all_digits(run@) && digits_value(run@) == v && v
                <= MAX_MAGNITUDE,
        },
{
    let mut acc: u64 = 0;
    let mut too_large: bool = false;
    for c in it: run.chars()
        invariant
            it.seq() == run@,
            all_digits(run@.take(it.index())),
            too_large ==> digits_value(run@.take(it.index())) > MAX_MAGNITUDE,
            !too_large ==> digits_value(run@.take(it.index())) == acc && acc <= MAX_MAGNITUDE,
    {
        if !('0' <= c && c <= '9') {
            assert(!is_digit(run@[it.index()]));
            return Magnitude::NotDigits;
        }
        proof {
            let seen = run@.take(it.index());
            assert(run@.take(it.index() + 1) =~= seen.push(c));
            lemma_digits_value_push(seen, c);
        }
        if !too_large {
            let next: u128 = acc as u128 * 10 + (c as u128 - 48);
            if next > MAX_MAGNITUDE as u128 {
                too_large = true;
            } else {
                acc = next as u64;
            }
        }
    }
    assert(run@.take(run@.len() as int) =~= run@);
    if too_large {
        Magnitude::TooLarge
    } else {
        Magnitude::Value(acc)
    }
}

/// The grammar as a regular expression: the whole text is a first group of
/// an optional minus and one or more digits, and a second group of at most
/// one unit.
pub const NUMBER_PATTERN: &'static str = "^(-?[0-9]+)([KMGT]?)$";

/// Matches `text` against `pattern`, which is compiled by `regex::Regex::new`
/// and run by `regex::Regex::captures`, and hands out what its two groups
/// captured.
///
/// Not proved, but taken from the matcher's documentation of its syntax, for
/// the number pattern alone: `^` and `$` tie the match to the two ends of
/// the text, `[0-9]` is one of the ten digits, `[KMGT]` one of the four
/// units, `?` is none or one and `+` one or more, and a group captures what
/// its part of the pattern matched. The pattern is well-formed and small, so
/// compiling it does not fail. So there is a match exactly when the text is
/// a number; the second group is then the unit, or empty, and the first is
/// all that stands before it.
#[verifier::external_body]
fn number_groups(pattern: &str, text: &str) -> (groups: Option<(String, String)>)
    requires
        pattern@ == NUMBER_PATTERN@,
    ensures
        groups is Some <==> is_number(text@),
        groups matches Some((number, unit)) ==> number@ + unit@ == text@ && unit@ == unit_text(
            unit_of(text@),
        ),
{
    let found = regex::Regex::new(pattern).ok()?.captures(text)?;
    let number = found.get(1)?.as_str().to_owned();
    let unit = found.get(2)?.as_str().to_owned();
    Some((number, unit))
}

/// Decodes a text of the form `SIGN? DIGITS UNIT?` to the integer it denotes.
///
/// Succeeds exactly on the texts that match the grammar and whose scaled
/// value fits in an `i64`; on every other text it says which of the two
/// failed.
pub fn parse_with_unit(s: &str) -> (r: Result<i64, Error>)
    ensures
        outcome(r) == decode_number(s@),
{
    let (number, unit) = match number_groups(NUMBER_PATTERN, s) {
        Some(groups) => groups,
        None => {
            return Err(Error::InvalidNumber);
        },
    };
    proof {
        reveal_strlit("K");
        reveal_strlit("M");
        reveal_strlit("G");
        reveal_strlit("T");
        if let Some(c) = unit_of(s@) {
            assert(unit@[0] == c);
            assert(c == 'K' ==> unit@ =~= "K"@);
            assert(c == 'M' ==> unit@ =~= "M"@);
            assert(c == 'G' ==> unit@ =~= "G"@);
            assert(c == 'T' ==> unit@ =~= "T"@);
        }
    }
    let multiplier: i64 = if same_text(unit.as_str(), "K") {
        1024
    } else if same_text(unit.as_str(), "M") {
        1024 * 1024
    } else if same_text(unit.as_str(), "G") {
        1024 * 1024 * 1024
    } else if same_text(unit.as_str(), "T") {
        1024 * 1024 * 1024 * 1024
    } else {
        1
    };
    assert(multiplier == unit_multiplier(unit_of(s@)));
    let len: usize = number.as_str().unicode_len();
    assert(digit_run(s@).len() > 0);
    let negative: bool = number.as_str().get_char(0) == '-';
    let start: usize = if negative { 1 } else { 0 };
    let run: &str = number.as_str().substring_char(start, len);
    assert(run@ =~= digit_run(s@));
    match read_digits(run) {
        Magnitude::NotDigits => Err(Error::InvalidNumber),
        Magnitude::TooLarge => {
            proof {
                lemma_scaling_grows(digits_value(run@), multiplier as int);
            }
            Err(Error::NumberOutOfRange)
        },
        Magnitude::Value(v) => {
            proof {
                lemma_scaling_grows(v as int, multiplier as int);
            }
            let number: i64 = if negative {
                if v == MAX_MAGNITUDE {
                    i64::MIN
                } else {
                    -(v as i64)
                }
            } else {
                if v >= MAX_MAGNITUDE {
                    return Err(Error::NumberOutOfRange);
                }
                v as i64
            };
            assert(number == unscaled_value(s@));
            match number.checked_mul(multiplier) {
                Some(value) => Ok(value),
                None => Err(Error::NumberOutOfRange),
            }
        },
    }
}

/// Decodes the operand of an operation that takes one.
///
/// An absent operand is a missing parameter; a present one is decoded under
/// the unit-suffixed integer grammar.
pub fn parse_next_int(os: Option<&str>) -> (r: Result<i64, Error>)
    ensures
        outcome(r) == decode_operand(text_of(os)),
{
    match os {
        Some(s) => parse_with_unit(s),
        None => Err(Error::MissingParameter),
    }
}

/// Appends the decimal digits of `n` to `out`.
fn push_natural(out: &mut String, n: u64)
    ensures
        final(out)@ == old(out)@ + natural_digits(n as nat),
    decreases n,
{
    if n >= 10 {
        push_natural(out, n / 10);
    }
    let d: usize = (n % 10) as usize;
    proof {
        reveal_strlit("0123456789");
    }
    let digit: &str = "0123456789".substring_ascii(d, d + 1);
    assert(digit@ =~= seq![digit_char(d as int)]);
    out.append(digit);
    assert(out@ =~= old(out)@ + natural_digits(n as nat));
}

/// Encodes an integer in plain decimal: no unit suffix, whatever the text it
/// was decoded from.
pub fn format_decimal(n: i64) -> (text: String)
    ensures
        text@ == decimal(n as int),
{
    let mut text: String = String::new();
    let magnitude: u64 = if n < 0 {
        proof {
            reveal_strlit("-");
        }
        text.append("-");
        (-(n + 1)) as u64 + 1
    } else {
        n as u64
    };
    push_natural(&mut text, magnitude);
    assert(text@ =~= decimal(n as int));
    text
}

/// The decimal digits of a natural number are a non-empty run of digits that
/// denotes that number.
pub proof fn lemma_natural_digits(n: nat)
    ensures
        natural_digits(n).len() > 0,
        all_digits(natural_digits(n)),
        digits_value(natural_digits(n)) == n,
    decreases n,
{
    if n < 10 {
        let c = digit_char(n as int);
        lemma_digits_value_push(Seq::empty(), c);
        assert(Seq::<char>::empty().push(c) =~= natural_digits(n));
    } else {
        let c = digit_char((n % 10) as int);
        lemma_natural_digits(n / 10);
        lemma_digits_value_push(natural_digits(n / 10), c);
    }
}

/// The grammar read forwards: an optional minus, a non-empty run of digits
/// and an optional unit make a number, whose parts are the ones it was made
/// of and whose value is the signed run times the unit's multiplier.
pub proof fn lemma_number_from_parts(negative: bool, digits: Seq<char>, unit: Option<char>)
    requires
        digits.len() > 0,
        all_digits(digits),
        unit matches Some(c) ==> is_unit(c),
    ensures
        is_number(number_text(negative, digits, unit)),
        has_sign(number_text(negative, digits, unit)) == negative,
        digit_run(number_text(negative, digits, unit)) == digits,
        unit_of(number_text(negative, digits, unit)) == unit,
        number_value(number_text(negative, digits, unit)) == (if negative {
            -digits_value(digits)
        } else {
            digits_value(digits)
        }) * unit_multiplier(unit),
{
    let s = number_text(negative, digits, unit);
    assert(is_digit(digits[0]));
    assert(is_digit(digits.last()));
    assert(has_sign(s) == negative);
    assert(unit_of(s) == unit);
    assert(digit_run(s) =~= digits);
}

/// The grammar read backwards: every number is its optional minus, its
/// digit run and its optional unit, in that order and with nothing else.
pub proof fn lemma_number_into_parts(s: Seq<char>)
    requires
        is_number(s),
    ensures
        s == number_text(has_sign(s), digit_run(s), unit_of(s)),
        digit_run(s).len() > 0,
        all_digits(digit_run(s)),
        unit_of(s) matches Some(c) ==> is_unit(c),
{
    assert(s =~= number_text(has_sign(s), digit_run(s), unit_of(s)));
}

/// Decoding inverts writing: the decimal form of an integer, followed by a
/// unit or by none, decodes to the integer times the unit's multiplier
/// whenever that product fits in an `i64`, and is out of range otherwise.
/// With no unit the multiplier is 1 and the integer comes back unchanged.
pub proof fn lemma_decode_decimal_with_unit(n: int, unit: Option<char>)
    requires
        unit matches Some(c) ==> is_unit(c),
    ensures
        is_number(decimal(n) + unit_text(unit)),
        number_value(decimal(n) + unit_text(unit)) == n * unit_multiplier(unit),
        decode_number(decimal(n) + unit_text(unit)) == if i64::MIN <= n * unit_multiplier(unit)
            <= i64::MAX {
            Ok::<i64, ErrorView>((n * unit_multiplier(unit)) as i64)
        } else {
            Err::<i64, ErrorView>(ErrorView::NumberOutOfRange)
        },
{
    let magnitude: nat = if n < 0 { (-n) as nat } else { n as nat };
    lemma_natural_digits(magnitude);
    lemma_number_from_parts(n < 0, natural_digits(magnitude), unit);
    assert(decimal(n) + unit_text(unit) =~= number_text(n < 0, natural_digits(magnitude), unit));
}

/// Decoding inverts writing in plain decimal: every `i64` comes back from
/// its decimal form.
pub proof fn lemma_decode_decimal(n: i64)
    ensures
        decode_number(decimal(n as int)) == Ok::<i64, ErrorView>(n),
{
    lemma_decode_decimal_with_unit(n as int, None);
    assert(decimal(n as int) + unit_text(None) =~= decimal(n as int));
}

} // verus!
