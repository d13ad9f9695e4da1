use vstd::prelude::*;

use crate::error::{is_unsupported, RcliError};
use crate::utils::{lower_of, lowercase, same_text};

verus! {

/// The base64 subcommands.
#[derive(Debug)]
pub enum Base64Cmd {
    Encode(Base64EncodeOpts),
    Decode(Base64DecodeOpts),
}

/// Options of base64 encoding: the input file (`-` for standard input) and the alphabet.
#[derive(Debug)]
pub struct Base64EncodeOpts {
    pub input: String,
    pub format: Base64FormatType,
}

/// Options of base64 decoding: the input file (`-` for standard input) and the alphabet.
#[derive(Debug)]
pub struct Base64DecodeOpts {
    pub input: String,
    pub format: Base64FormatType,
}

/// The base64 alphabets the tool encodes and decodes with.
#[allow(non_camel_case_types)]
#[derive(Debug, Clone, Copy, PartialEq, Eq, Structural)]
pub enum Base64FormatType {
    UrlSafe,
    STANDARD,
}

/// The alphabet a lower-case name stands for.
pub open spec fn base64_format_named(name: Seq<char>) -> Option<Base64FormatType> {
    if name == "urlsafe"@ {
        Some(Base64FormatType::UrlSafe)
    } else if name == "standard"@ {
        Some(Base64FormatType::STANDARD)
    } else {
        None
    }
}

impl Base64FormatType {
    /// The alphabet named by `name`, which is already in lower case.
    pub fn from_lowercase(name: &str) -> (r: Result<Self, RcliError>)
        ensures
            match r {
                Ok(f) => base64_format_named(name@) == Some(f),
                Err(e) => base64_format_named(name@) is None && is_unsupported(e, name@),
            },
    {
        if same_text(name, "urlsafe") {
            Ok(Base64FormatType::UrlSafe)
        } else if same_text(name, "standard") {
            Ok(Base64FormatType::STANDARD)
        } else {
            Err(RcliError::UnsupportedFormat(name.to_owned()))
        }
    }

    /// The name the alphabet is shown under.
    pub fn as_str(&self) -> (r: &'static str)
        ensures
            base64_format_named(r@) == Some(*self),
            *self == Base64FormatType::UrlSafe ==> r@ == "urlsafe"@,
            *self == Base64FormatType::STANDARD ==> r@ == "standard"@,
    {
        proof {
            reveal_strlit("urlsafe");
            reveal_strlit("standard");
            assert("urlsafe"@.len() != "standard"@.len());
        }
        match self {
            Base64FormatType::UrlSafe => "urlsafe",
            Base64FormatType::STANDARD => "standard",
        }
    }
}

/// The alphabet named by `s`, in any letter case.
pub fn parse_base64_format(s: &str) -> (r: Result<Base64FormatType, RcliError>)
    ensures
        match r {
            Ok(f) => base64_format_named(lower_of(s@)) == Some(f),
            Err(e) => base64_format_named(lower_of(s@)) is None && is_unsupported(e, lower_of(s@)),
        },
{
    let lower = lowercase(s);
    Base64FormatType::from_lowercase(lower.as_str())
}

impl std::str::FromStr for Base64FormatType {
    type Err = RcliError;

    fn from_str(s: &str) -> (r: Result<Self, RcliError>)
        ensures
            match r {
                Ok(f) => base64_format_named(lower_of(s@)) == Some(f),
                Err(e) => base64_format_named(lower_of(s@)) is None && is_unsupported(e, lower_of(s@)),
            },
    {
        parse_base64_format(s)
    }
}

} // verus!
