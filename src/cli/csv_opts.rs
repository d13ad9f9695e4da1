use vstd::math::min;
use vstd::prelude::*;

use crate::error::{is_unsupported, RcliError};
use crate::utils::{lower_of, lowercase, same_text};

verus! {

/// Options of CSV conversion: the input file, the output file, the output format,
/// the field delimiter and whether the first record is a header.
#[derive(Debug)]
pub struct CsvOpts {
    pub file: String,
    pub output: Option<String>,
    pub format: OutputFormat,
    pub delimiter: char,
    pub header: bool,
}

/// The formats CSV records can be converted to.
#[derive(Debug, Clone, Copy, PartialEq, Eq, Structural)]
pub enum OutputFormat {
    Json,
    Yaml,
    Toml,
}

/// The output format a lower-case name stands for.
pub open spec fn output_format_named(name: Seq<char>) -> Option<OutputFormat> {
    if name == "json"@ {
        Some(OutputFormat::Json)
    } else if name == "yaml"@ {
        Some(OutputFormat::Yaml)
    } else if name == "toml"@ {
        Some(OutputFormat::Toml)
    } else {
        None
    }
}

/// The name of an output format.
pub open spec fn output_format_name(f: OutputFormat) -> Seq<char> {
    match f {
        OutputFormat::Json => "json"@,
        OutputFormat::Yaml => "yaml"@,
        OutputFormat::Toml => "toml"@,
    }
}

impl OutputFormat {
    /// The output format named by `name`, which is already in lower case.
    pub fn from_lowercase(name: &str) -> (r: Result<Self, RcliError>)
        ensures
            match r {
                Ok(f) => output_format_named(name@) == Some(f),
                Err(e) => output_format_named(name@) is None && is_unsupported(e, name@),
            },
    {
        if same_text(name, "json") {
            Ok(OutputFormat::Json)
        } else if same_text(name, "yaml") {
            Ok(OutputFormat::Yaml)
        } else if same_text(name, "toml") {
            Ok(OutputFormat::Toml)
        } else {
            Err(RcliError::UnsupportedFormat(name.to_owned()))
        }
    }

    /// The name of the output format.
    pub fn as_str(&self) -> (r: &'static str)
        ensures
            output_format_named(r@) == Some(*self),
            r@ == output_format_name(*self),
    {
        proof {
            reveal_strlit("json");
            reveal_strlit("yaml");
            reveal_strlit("toml");
            assert("json"@[0] != "yaml"@[0]);
            assert("json"@[0] != "toml"@[0]);
            assert("yaml"@[0] != "toml"@[0]);
        }
        match self {
            OutputFormat::Json => "json",
            OutputFormat::Yaml => "yaml",
            OutputFormat::Toml => "toml",
        }
    }

    /// Whether records can be written in this format; TOML cannot hold a
    /// top-level list of records.
    pub fn is_supported_output(&self) -> (r: bool)
        ensures
            r == (*self != OutputFormat::Toml),
    {
        !matches!(self, OutputFormat::Toml)
    }
}

/// The output format named by `s`, in any letter case.
pub fn parse_output_format(s: &str) -> (r: Result<OutputFormat, RcliError>)
    ensures
        match r {
            Ok(f) => output_format_named(lower_of(s@)) == Some(f),
            Err(e) => output_format_named(lower_of(s@)) is None && is_unsupported(e, lower_of(s@)),
        },
{
    let lower = lowercase(s);
    OutputFormat::from_lowercase(lower.as_str())
}

impl std::str::FromStr for OutputFormat {
    type Err = RcliError;

    fn from_str(s: &str) -> (r: Result<Self, RcliError>)
        ensures
            match r {
                Ok(f) => output_format_named(lower_of(s@)) == Some(f),
                Err(e) => output_format_named(lower_of(s@)) is None && is_unsupported(e, lower_of(s@)),
            },
    {
        parse_output_format(s)
    }
}

impl From<OutputFormat> for &'static str {
    fn from(f: OutputFormat) -> (r: &'static str) {
        match f {
            OutputFormat::Json => "json",
            OutputFormat::Yaml => "yaml",
            OutputFormat::Toml => "toml",
        }
    }
}

impl vstd::std_specs::convert::FromSpecImpl<OutputFormat> for &'static str {
    open spec fn obeys_from_spec() -> bool {
        true
    }

    open spec fn from_spec(f: OutputFormat) -> &'static str {
        match f {
            OutputFormat::Json => "json",
            OutputFormat::Yaml => "yaml",
            OutputFormat::Toml => "toml",
        }
    }
}

/// The records of a CSV file paired field by field with the header: each record
/// becomes a list of (header, value) pairs, as long as the shorter of the two.
pub fn pair_records(headers: &Vec<String>, records: &Vec<Vec<String>>) -> (r: Vec<Vec<(String, String)>>)
    ensures
        r@.len() == records@.len(),
        forall|i: int|
            #![trigger r@[i]]
            0 <= i < r@.len() ==> r@[i]@.len() == min(headers@.len() as int, records@[i]@.len() as int)
                && forall|j: int|
                #![trigger r@[i]@[j]]
                0 <= j < r@[i]@.len() ==> r@[i]@[j].0@ == headers@[j]@ && r@[i]@[j].1@ == records@[i]@[j]@,
{
    let mut out: Vec<Vec<(String, String)>> = Vec::new();
    let mut i: usize = 0;
    while i < records.len()
        invariant
            i <= records@.len(),
            out@.len() == i,
            forall|k: int|
                #![trigger out@[k]]
                0 <= k < i ==> out@[k]@.len() == min(headers@.len() as int, records@[k]@.len() as int)
                    && forall|j: int|
                    #![trigger out@[k]@[j]]
                    0 <= j < out@[k]@.len() ==> out@[k]@[j].0@ == headers@[j]@ && out@[k]@[j].1@
                        == records@[k]@[j]@,
        decreases records@.len() - i,
    {
        let record = &records[i];
        let mut row: Vec<(String, String)> = Vec::new();
        let mut j: usize = 0;
        while j < headers.len() && j < record.len()
            invariant
                j <= headers@.len(),
                j <= record@.len(),
                row@.len() == j,
                forall|m: int|
                    #![trigger row@[m]]
                    0 <= m < j ==> row@[m].0@ == headers@[m]@ && row@[m].1@ == record@[m]@,
            decreases headers@.len() - j,
        {
            row.push((headers[j].as_str().to_owned(), record[j].as_str().to_owned()));
            j += 1;
        }
        out.push(row);
        i += 1;
    }
    out
}

} // verus!
