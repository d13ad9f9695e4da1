pub mod base64_opts;
pub mod csv_opts;
pub mod gen_pass_opts;
pub mod http;
pub mod jwt_opts;
pub mod text;

use vstd::prelude::*;

use crate::error::{is_not_found, RcliError};
use crate::utils::same_text;

pub use base64_opts::{parse_base64_format, Base64Cmd, Base64DecodeOpts, Base64EncodeOpts, Base64FormatType};
pub use csv_opts::{pair_records, parse_output_format, CsvOpts, OutputFormat};
pub use gen_pass_opts::GenPassOpts;
pub use http::{HttpServerOpts, HttpSubCmd};
pub use jwt_opts::{split_audience, JWTCmd, JWTKeyGenerateOpts, JWTSignOpts, JWTVerifyOpts};
pub use text::{key_files, parse_format, TextKeyGenerateOpts, TextSignFormat, TextSignOpts, TextSubCmd, TextVerifyOpts};

verus! {

/// The parsed command line.
#[derive(Debug)]
pub struct Opts {
    pub cmd: Command,
}

/// The tool's commands.
#[derive(Debug)]
pub enum Command {
    Csv(CsvOpts),
    GenPass(GenPassOpts),
    Base64(Base64Cmd),
    Text(TextSubCmd),
    Http(HttpSubCmd),
    JWT(JWTCmd),
}

/// Accepts an input file name given whether a file of that name `exists`; `-`,
/// standard input, is always accepted.
pub fn file_check(filename: &str, exists: bool) -> (r: Result<String, RcliError>)
    ensures
        match r {
            Ok(name) => (filename@ == "-"@ || exists) && name@ == filename@,
            Err(e) => !(filename@ == "-"@ || exists) && is_not_found(e, filename@),
        },
{
    if same_text(filename, "-") || exists {
        Ok(filename.to_owned())
    } else {
        Err(RcliError::NotFound(filename.to_owned()))
    }
}

/// Accepts a directory path given whether it `exists`.
pub fn path_check(path: &str, exists: bool) -> (r: Result<String, RcliError>)
    ensures
        match r {
            Ok(p) => exists && p@ == path@,
            Err(e) => !exists && is_not_found(e, path@),
        },
{
    if exists {
        Ok(path.to_owned())
    } else {
        Err(RcliError::NotFound(path.to_owned()))
    }
}

/// Accepts the directory to serve given whether it `exists`.
pub fn path_buf_check(path: &str, exists: bool) -> (r: Result<String, RcliError>)
    ensures
        match r {
            Ok(p) => exists && p@ == path@,
            Err(e) => !exists && is_not_found(e, path@),
        },
{
    path_check(path, exists)
}

} // verus!
