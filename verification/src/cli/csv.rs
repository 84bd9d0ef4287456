//! CSV conversion subcommand: descriptions only, the conversion itself is
//! a caller-side concern.

use super::{ascii_lower_matches, matches_keyword};
use vstd::prelude::*;

verus! {

/// Convert the CSV file `input` into `output` in the chosen format.
#[derive(Debug, Clone)]
pub struct CsvOpts {
    pub input: String,
    pub output: String,
    pub delimiter: char,
    pub header: bool,
}

/// The structured output formats a CSV file can be converted to.
#[derive(Debug, Clone, Copy, PartialEq, Eq, Structural)]
pub enum OutputFormat {
    Json,
    Yaml,
}

impl OutputFormat {
    pub open spec fn spec_name(self) -> Seq<char> {
        match self {
            OutputFormat::Json => "json"@,
            OutputFormat::Yaml => "yaml"@,
        }
    }

    /// The canonical lower-case name of the format.
    pub fn name(&self) -> (s: &'static str)
        ensures
            s@ == self.spec_name(),
    {
        match self {
            OutputFormat::Json => "json",
            OutputFormat::Yaml => "yaml",
        }
    }
}

/// Which output format, if any, the text `s` names, up to ASCII case.
pub open spec fn spec_parse_output_format(s: Seq<char>) -> Option<OutputFormat> {
    if ascii_lower_matches(s, "json"@) {
        Some(OutputFormat::Json)
    } else if ascii_lower_matches(s, "yaml"@) {
        Some(OutputFormat::Yaml)
    } else {
        None
    }
}

/// Parse an output format name, ignoring ASCII case.
pub fn parse_output_format(s: &str) -> (r: Option<OutputFormat>)
    ensures
        r == spec_parse_output_format(s@),
{
    if matches_keyword(s, "json") {
        Some(OutputFormat::Json)
    } else if matches_keyword(s, "yaml") {
        Some(OutputFormat::Yaml)
    } else {
        None
    }
}

} // verus!
