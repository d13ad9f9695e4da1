use vstd::prelude::*;

verus! {

/// Options of password generation: the length and which character classes to use.
#[derive(Debug)]
pub struct GenPassOpts {
    pub length: u8,
    pub uppercase: bool,
    pub lowercase: bool,
    pub numbers: bool,
    pub symbols: bool,
}

} // verus!
