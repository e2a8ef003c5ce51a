//! The formats in which the command line prints lists.

use vstd::prelude::*;

use crate::error::BoxliteError;
use crate::error::ErrorKind;
use crate::error::ErrorView;
use crate::text::chars_eq_str;
use crate::text::chars_of;
use crate::text::push_str;
use crate::text::string_of;
use crate::text::to_lowercase;
use crate::text::unicode_lowercase;

verus! {

/// A format for printed lists.
#[derive(Clone, Copy, Debug, PartialEq, Eq, Structural)]
pub enum OutputFormat {
    Table,
    Json,
    Yaml,
}

/// The format that a name in lowercase stands for.
pub open spec fn format_named(lower: Seq<char>) -> Option<OutputFormat> {
    if lower == "table"@ {
        Some(OutputFormat::Table)
    } else if lower == "json"@ {
        Some(OutputFormat::Json)
    } else if lower == "yaml"@ {
        Some(OutputFormat::Yaml)
    } else {
        None
    }
}

/// The failure reported for a format name that is not known.
pub open spec fn unknown_format_failure(name: Seq<char>) -> ErrorView {
    ErrorView {
        kind: ErrorKind::Config,
        message: "Unknown format: '"@ + name + "'. Valid formats: table, json, yaml"@,
    }
}

impl OutputFormat {
    /// The format that `lower` names. `lower` is the lowercase form of the
    /// name `given`, which is quoted in the failure.
    pub fn from_lowercase(lower: &str, given: &str) -> (r: Result<OutputFormat, BoxliteError>)
        ensures
            match r {
                Ok(f) => format_named(lower@) == Some(f),
                Err(e) => format_named(lower@) is None && e.deep_view() == unknown_format_failure(
                    given@,
                ),
            },
    {
        let l = chars_of(lower);
        if chars_eq_str(&l, "table") {
            Ok(OutputFormat::Table)
        } else if chars_eq_str(&l, "json") {
            Ok(OutputFormat::Json)
        } else if chars_eq_str(&l, "yaml") {
            Ok(OutputFormat::Yaml)
        } else {
            let mut m = chars_of("Unknown format: '");
            push_str(&mut m, given);
            push_str(&mut m, "'. Valid formats: table, json, yaml");
            Err(BoxliteError::Config(string_of(&m)))
        }
    }

    /// The format that a name stands for, whatever its case.
    pub fn from_str(s: &str) -> (r: Result<OutputFormat, BoxliteError>)
        ensures
            match r {
                Ok(f) => format_named(unicode_lowercase(s@)) == Some(f),
                Err(e) => format_named(unicode_lowercase(s@)) is None && e.deep_view()
                    == unknown_format_failure(s@),
            },
    {
        let lower = to_lowercase(s);
        OutputFormat::from_lowercase(lower.as_str(), s)
    }
}

} // verus!
