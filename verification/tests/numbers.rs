use metrics_lib::number::NUMBER_PATTERN;
use metrics_lib::{format_decimal, parse_next_int, parse_with_unit, Error, ErrorKind};
use regex::Regex;

const KILO: i64 = 1024;
const MEGA: i64 = 1024 * 1024;
const GIGA: i64 = 1024 * 1024 * 1024;
const TERA: i64 = 1024 * 1024 * 1024 * 1024;

#[test]
fn unit_suffixes_scale_by_powers_of_1024() {
    assert_eq!(parse_with_unit("10K"), Ok(10240));
    assert_eq!(parse_with_unit("-10T"), Ok(-10995116277760));
    assert_eq!(parse_with_unit("1K"), Ok(KILO));
    assert_eq!(parse_with_unit("1M"), Ok(1048576));
    assert_eq!(parse_with_unit("1G"), Ok(1073741824));
    assert_eq!(parse_with_unit("1T"), Ok(1099511627776));
    assert_eq!(parse_with_unit("3"), Ok(3));
}

#[test]
fn decimal_form_with_any_unit_decodes_to_the_product() {
    let units: [(&str, i64); 5] = [("", 1), ("K", KILO), ("M", MEGA), ("G", GIGA), ("T", TERA)];
    let numbers: [i64; 9] = [0, 1, -1, 7, -7, 42, 1023, -4096, 8388607];
    for n in numbers {
        for (suffix, multiplier) in units {
            let text = format!("{}{}", format_decimal(n), suffix);
            assert_eq!(parse_with_unit(&text), Ok(n * multiplier), "{}", text);
        }
    }
}

#[test]
fn sign_and_zeros() {
    assert_eq!(parse_with_unit("0"), Ok(0));
    assert_eq!(parse_with_unit("-0"), Ok(0));
    assert_eq!(parse_with_unit("-0K"), Ok(0));
    assert_eq!(parse_with_unit("007"), Ok(7));
    assert_eq!(parse_with_unit("-007M"), Ok(-7 * MEGA));
    assert_eq!(
        parse_with_unit("000000000000000000000000000000000000000001K"),
        Ok(1024)
    );
}

#[test]
fn texts_outside_the_grammar_are_invalid_numbers() {
    let texts = [
        "", "-", "K", "-K", "+5", "5k", "5KK", "5 K", " 5", "5 ", "5\n", "--5", "5-", "K5", "1.5",
        "1e3", "0x10", "abc", "5B", "5P", "1_000", "１２", "٣", "5K\u{0}", "-5-K",
    ];
    for text in texts {
        assert_eq!(parse_with_unit(text), Err(Error::InvalidNumber), "{:?}", text);
    }
}

#[test]
fn the_whole_of_the_64_bit_range_decodes() {
    assert_eq!(parse_with_unit("9223372036854775807"), Ok(i64::MAX));
    assert_eq!(parse_with_unit("-9223372036854775808"), Ok(i64::MIN));
    assert_eq!(parse_with_unit("-8388608T"), Ok(i64::MIN));
    assert_eq!(parse_with_unit("8388607T"), Ok(8388607 * TERA));
    assert_eq!(parse_with_unit("-8589934592G"), Ok(i64::MIN));
}

#[test]
fn values_beyond_64_bits_are_out_of_range() {
    let texts = [
        "9223372036854775808",
        "-9223372036854775809",
        "18446744073709551616",
        "99999999999999999999999999999999999999999999",
        "-99999999999999999999999999999999999999999999",
        "8388608T",
        "-8388609T",
        "9223372036854775807K",
        "9007199254740992K",
        "99999999999999999999999999999999999999999999T",
    ];
    for text in texts {
        assert_eq!(parse_with_unit(text), Err(Error::NumberOutOfRange), "{}", text);
    }
}

#[test]
fn an_invalid_text_is_invalid_however_long_its_digits() {
    assert_eq!(
        parse_with_unit("99999999999999999999999999999999999999999999x"),
        Err(Error::InvalidNumber)
    );
    assert_eq!(
        parse_with_unit("9999999999999999999999x9999999999999999999999"),
        Err(Error::InvalidNumber)
    );
}

#[test]
fn number_errors_are_grammar_errors() {
    assert_eq!(Error::InvalidNumber.kind(), ErrorKind::Grammar);
    assert_eq!(Error::NumberOutOfRange.kind(), ErrorKind::Grammar);
    assert_eq!(Error::MalformedRange.kind(), ErrorKind::Grammar);
    assert_eq!(Error::UnexpectedParameter.kind(), ErrorKind::Grammar);
    assert_eq!(
        Error::UnsupportedOperation("foo".to_string()).kind(),
        ErrorKind::Grammar
    );
    assert_eq!(Error::MissingParameter.kind(), ErrorKind::MissingParameter);
}

#[test]
fn an_operand_is_a_number_and_its_absence_a_missing_parameter() {
    assert_eq!(parse_next_int(Some("8")), Ok(8));
    assert_eq!(parse_next_int(Some("2G")), Ok(2 * GIGA));
    assert_eq!(parse_next_int(Some("-1")), Ok(-1));
    assert_eq!(parse_next_int(Some("")), Err(Error::InvalidNumber));
    assert_eq!(parse_next_int(Some("abc")), Err(Error::InvalidNumber));
    assert_eq!(
        parse_next_int(Some("9223372036854775808")),
        Err(Error::NumberOutOfRange)
    );
    assert_eq!(parse_next_int(None), Err(Error::MissingParameter));
}

#[test]
fn encoding_writes_plain_decimal() {
    assert_eq!(format_decimal(0), "0");
    assert_eq!(format_decimal(7), "7");
    assert_eq!(format_decimal(-7), "-7");
    assert_eq!(format_decimal(10), "10");
    assert_eq!(format_decimal(10240), "10240");
    assert_eq!(format_decimal(2147483648), "2147483648");
    assert_eq!(format_decimal(-10995116277760), "-10995116277760");
    assert_eq!(format_decimal(i64::MAX), "9223372036854775807");
    assert_eq!(format_decimal(i64::MIN), "-9223372036854775808");
}

#[test]
fn encoding_agrees_with_the_standard_decimal_form() {
    let mut n: i64 = 1;
    for _ in 0..63 {
        for m in [n - 1, n, n + 1, -n, -n - 1, 1 - n] {
            assert_eq!(format_decimal(m), m.to_string());
        }
        n = n.wrapping_mul(2);
    }
}

#[test]
fn decoding_inverts_encoding() {
    let mut n: i64 = 1;
    for _ in 0..63 {
        for m in [n - 1, n, n + 1, -n, -n - 1, 1 - n] {
            assert_eq!(parse_with_unit(&format_decimal(m)), Ok(m));
        }
        n = n.wrapping_mul(2);
    }
    assert_eq!(parse_with_unit(&format_decimal(i64::MAX)), Ok(i64::MAX));
    assert_eq!(parse_with_unit(&format_decimal(i64::MIN)), Ok(i64::MIN));
}

#[test]
fn a_unit_is_not_kept_by_encoding() {
    let decoded = parse_with_unit("10K").unwrap();
    assert_eq!(format_decimal(decoded), "10240");
    assert_eq!(parse_with_unit("10240"), Ok(decoded));
}

#[test]
fn the_number_pattern_captures_the_signed_digits_and_the_unit() {
    let pattern = Regex::new(NUMBER_PATTERN).unwrap();
    let cases = [
        ("0", "0", ""),
        ("12", "12", ""),
        ("-12", "-12", ""),
        ("12K", "12", "K"),
        ("-5M", "-5", "M"),
        ("007G", "007", "G"),
        ("-0T", "-0", "T"),
    ];
    for (text, number, unit) in cases {
        let found = pattern.captures(text).unwrap();
        assert_eq!(found.get(1).map(|group| group.as_str()), Some(number), "{}", text);
        assert_eq!(found.get(2).map(|group| group.as_str()), Some(unit), "{}", text);
    }
    for text in ["", "-", "K", "-K", "+5", "5k", "5KK", "K5", "5\n", "\n5", "٣", "１２", "5-", "--5"] {
        assert!(pattern.captures(text).is_none(), "{:?}", text);
    }
}

/// The texts of up to `length` characters over a few that matter to the
/// grammar.
fn short_texts(length: usize) -> Vec<String> {
    let alphabet = ['-', '0', '7', 'K', 'T', 'x', '٣'];
    let mut texts: Vec<String> = vec![String::new()];
    let mut start = 0;
    for _ in 0..length {
        let end = texts.len();
        for i in start..end {
            for c in alphabet {
                let mut longer = texts[i].clone();
                longer.push(c);
                texts.push(longer);
            }
        }
        start = end;
    }
    texts
}

/// The grammar read off character by character: what is left between a
/// leading minus and a trailing unit is one or more digits.
fn parts(text: &str) -> Option<(String, String)> {
    let chars: Vec<char> = text.chars().collect();
    let unit = match chars.last() {
        Some(c) if "KMGT".contains(*c) => 1,
        _ => 0,
    };
    let sign = match chars.first() {
        Some('-') => 1,
        _ => 0,
    };
    let cut = chars.len() - unit;
    if sign >= cut || !chars[sign..cut].iter().all(|c| c.is_ascii_digit()) {
        return None;
    }
    Some((chars[..cut].iter().collect(), chars[cut..].iter().collect()))
}

#[test]
fn the_number_pattern_matches_exactly_the_grammar() {
    let pattern = Regex::new(NUMBER_PATTERN).unwrap();
    let texts = short_texts(5);
    assert_eq!(texts.len(), 1 + 7 + 49 + 343 + 2401 + 16807);
    for text in &texts {
        let found = pattern.captures(text).map(|groups| {
            (
                groups.get(1).unwrap().as_str().to_string(),
                groups.get(2).unwrap().as_str().to_string(),
            )
        });
        assert_eq!(found, parts(text), "{:?}", text);
    }
}

/// The grammar as a regular expression over all digits, with the digit run
/// read by the standard integer parser and the scaling checked for overflow.
fn by_pattern(pattern: &Regex, text: &str) -> Option<i64> {
    let captures = pattern.captures(text)?;
    let number: i64 = captures.get(1)?.as_str().parse().ok()?;
    let multiplier: i64 = match captures.get(2).map(|m| m.as_str()) {
        Some("K") => KILO,
        Some("M") => MEGA,
        Some("G") => GIGA,
        Some("T") => TERA,
        _ => 1,
    };
    number.checked_mul(multiplier)
}

#[test]
fn decoding_agrees_with_the_grammar_as_a_regular_expression() {
    let pattern = Regex::new(r"^(-?\d+)([KMGT]?)$").unwrap();
    let texts = short_texts(4);
    assert_eq!(texts.len(), 1 + 7 + 49 + 343 + 2401);
    for text in &texts {
        assert_eq!(parse_with_unit(text).ok(), by_pattern(&pattern, text), "{:?}", text);
    }
    let long = [
        "9223372036854775807",
        "9223372036854775808",
        "-9223372036854775808",
        "-9223372036854775809",
        "8388607T",
        "8388608T",
        "-8388608T",
        "-8388609T",
        "8589934591G",
        "8589934592G",
        "5\n",
        "\n5",
        "5K\n",
        "１２",
        "12M ",
    ];
    for text in long {
        assert_eq!(parse_with_unit(text).ok(), by_pattern(&pattern, text), "{:?}", text);
    }
}
