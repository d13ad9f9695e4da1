use vstd::prelude::*;

verus! {

/// Why an operation of the library did not produce its result.
#[derive(Debug, PartialEq, Eq)]
pub enum RcliError {
    /// An input or key file that does not exist.
    NotFound(String),
    /// Key material shorter than the scheme requires.
    KeyLength,
    /// Malformed signature text, signature length or public key encoding.
    Decode,
    /// Authenticated encryption or decryption failed.
    Crypto,
    /// Decoded bytes that are not valid UTF-8 text.
    Utf8,
    /// A format name that the tool does not know.
    UnsupportedFormat(String),
    /// A password length that cannot hold one character of each selected class.
    PasswordLength,
}

/// Whether `e` reports `name` as a format the tool does not know.
pub open spec fn is_unsupported(e: RcliError, name: Seq<char>) -> bool {
    match e {
        RcliError::UnsupportedFormat(n) => n@ == name,
        _ => false,
    }
}

/// Whether `e` reports `name` as a file that does not exist.
pub open spec fn is_not_found(e: RcliError, name: Seq<char>) -> bool {
    match e {
        RcliError::NotFound(n) => n@ == name,
        _ => false,
    }
}

} // verus!
