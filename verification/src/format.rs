//! The two textual formats a document can be written in, and the selectors
//! that name them.

use vstd::prelude::*;
use crate::text::same_text;

verus! {

/// A textual format.
#[derive(Debug, Clone, Copy, PartialEq, Eq, Structural)]
pub enum Format {
    TOML,
    YAML,
}

/// A selector that names no format.
#[derive(Debug, Clone, Copy, PartialEq, Eq, Structural)]
pub struct UnrecognizedFormat;

/// The format a selector names: `t`, `toml` and `TOML` name the first,
/// `y`, `yaml` and `YAML` the second, and nothing else names any.
pub open spec fn format_named(s: Seq<char>) -> Option<Format> {
    if s == "t"@ || s == "toml"@ || s == "TOML"@ {
        Some(Format::TOML)
    } else if s == "y"@ || s == "yaml"@ || s == "YAML"@ {
        Some(Format::YAML)
    } else {
        None
    }
}

impl Format {
    /// Reads a format selector.
    pub fn from_str(s: &str) -> (r: Result<Format, UnrecognizedFormat>)
        ensures
            match r {
                Ok(format) => format_named(s@) == Some(format),
                Err(_) => format_named(s@) is None,
            },
    {
        if same_text(s, "t") || same_text(s, "toml") || same_text(s, "TOML") {
            Ok(Format::TOML)
        } else if same_text(s, "y") || same_text(s, "yaml") || same_text(s, "YAML") {
            Ok(Format::YAML)
        } else {
            Err(UnrecognizedFormat)
        }
    }
}

} // verus!
