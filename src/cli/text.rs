use vstd::prelude::*;
use vstd::slice::slice_to_vec;

use crate::error::{is_unsupported, RcliError};
use crate::utils::{lower_of, lowercase, same_text};

verus! {

/// The text subcommands: sign, verify, and generate a key.
#[derive(Debug)]
pub enum TextSubCmd {
    Sign(TextSignOpts),
    Verify(TextVerifyOpts),
    Generate(TextKeyGenerateOpts),
}

/// Options of signing: the input file (`-` for standard input), the key file and
/// the scheme.
#[derive(Debug)]
pub struct TextSignOpts {
    pub input: String,
    pub key: String,
    pub format: TextSignFormat,
}

/// Options of verifying: the input file (`-` for standard input), the key file,
/// the signature text and the scheme.
#[derive(Debug)]
pub struct TextVerifyOpts {
    pub input: String,
    pub key: String,
    pub signature: String,
    pub format: TextSignFormat,
}

/// Options of key generation: the scheme and the directory the key files go to.
#[derive(Debug)]
pub struct TextKeyGenerateOpts {
    pub format: TextSignFormat,
    pub path: String,
}

/// The signing schemes: keyed hashing, asymmetric signatures, and authenticated
/// encryption (named `base64` on the command line).
#[derive(Debug, Clone, Copy, PartialEq, Eq, Structural)]
pub enum TextSignFormat {
    Blake3,
    Ed25519,
    ChaCha20,
}

/// The scheme a lower-case name stands for.
pub open spec fn text_sign_format_named(name: Seq<char>) -> Option<TextSignFormat> {
    if name == "blake3"@ {
        Some(TextSignFormat::Blake3)
    } else if name == "ed25519"@ {
        Some(TextSignFormat::Ed25519)
    } else if name == "base64"@ {
        Some(TextSignFormat::ChaCha20)
    } else {
        None
    }
}

impl TextSignFormat {
    /// The scheme named by `name`, which is already in lower case.
    pub fn from_lowercase(name: &str) -> (r: Result<Self, RcliError>)
        ensures
            match r {
                Ok(f) => text_sign_format_named(name@) == Some(f),
                Err(e) => text_sign_format_named(name@) is None && is_unsupported(e, name@),
            },
    {
        if same_text(name, "blake3") {
            Ok(TextSignFormat::Blake3)
        } else if same_text(name, "ed25519") {
            Ok(TextSignFormat::Ed25519)
        } else if same_text(name, "base64") {
            Ok(TextSignFormat::ChaCha20)
        } else {
            Err(RcliError::UnsupportedFormat(name.to_owned()))
        }
    }

    /// The name the scheme is shown under, the one `parse_format` reads.
    pub fn as_str(&self) -> (r: &'static str)
        ensures
            text_sign_format_named(r@) == Some(*self),
            *self == TextSignFormat::Blake3 ==> r@ == "blake3"@,
            *self == TextSignFormat::Ed25519 ==> r@ == "ed25519"@,
            *self == TextSignFormat::ChaCha20 ==> r@ == "base64"@,
    {
        proof {
            reveal_strlit("blake3");
            reveal_strlit("ed25519");
            reveal_strlit("base64");
            assert("blake3"@[1] != "base64"@[1]);
            assert("blake3"@.len() != "ed25519"@.len());
            assert("ed25519"@.len() != "base64"@.len());
        }
        match self {
            TextSignFormat::Blake3 => "blake3",
            TextSignFormat::Ed25519 => "ed25519",
            TextSignFormat::ChaCha20 => "base64",
        }
    }
}

/// The scheme named by `s`, in any letter case.
pub fn parse_format(s: &str) -> (r: Result<TextSignFormat, RcliError>)
    ensures
        match r {
            Ok(f) => text_sign_format_named(lower_of(s@)) == Some(f),
            Err(e) => text_sign_format_named(lower_of(s@)) is None && is_unsupported(e, lower_of(s@)),
        },
{
    let lower = lowercase(s);
    TextSignFormat::from_lowercase(lower.as_str())
}

impl std::str::FromStr for TextSignFormat {
    type Err = RcliError;

    fn from_str(s: &str) -> (r: Result<Self, RcliError>)
        ensures
            match r {
                Ok(f) => text_sign_format_named(lower_of(s@)) == Some(f),
                Err(e) => text_sign_format_named(lower_of(s@)) is None && is_unsupported(e, lower_of(s@)),
            },
    {
        parse_format(s)
    }
}

/// The concatenation of byte sequences, in order.
pub open spec fn concat_all(s: Seq<Seq<u8>>) -> Seq<u8>
    decreases s.len(),
{
    if s.len() == 0 {
        Seq::empty()
    } else {
        concat_all(s.drop_last()) + s.last()
    }
}

/// The byte sequences held by a vector of byte vectors.
pub open spec fn keys_view(keys: Seq<Vec<u8>>) -> Seq<Seq<u8>> {
    keys.map_values(|k: Vec<u8>| k@)
}

/// Whether generated key material has the parts that the scheme's files take.
pub open spec fn has_key_parts(format: TextSignFormat, keys: Seq<Seq<u8>>) -> bool {
    match format {
        TextSignFormat::Blake3 => keys.len() >= 1,
        TextSignFormat::Ed25519 => keys.len() >= 2,
        TextSignFormat::ChaCha20 => true,
    }
}

/// The files, by name within the key directory, that generated key material is
/// stored in: `blake3.key`; `ed25519.pub` (public key) and `ed25519.priv` (secret
/// key); `base64.key` (key followed by nonce).
pub open spec fn key_file_layout(format: TextSignFormat, keys: Seq<Seq<u8>>) -> Seq<(Seq<char>, Seq<u8>)> {
    match format {
        TextSignFormat::Blake3 => seq![("blake3.key"@, keys[0])],
        TextSignFormat::Ed25519 => seq![("ed25519.pub"@, keys[1]), ("ed25519.priv"@, keys[0])],
        TextSignFormat::ChaCha20 => seq![("base64.key"@, concat_all(keys))],
    }
}

/// The names and contents of the files that generated key material goes to.
pub fn key_files(format: TextSignFormat, keys: &Vec<Vec<u8>>) -> (r: Vec<(String, Vec<u8>)>)
    requires
        has_key_parts(format, keys_view(keys@)),
    ensures
        r@.len() == key_file_layout(format, keys_view(keys@)).len(),
        forall|i: int|
            0 <= i < r@.len() ==> (#[trigger] r@[i]).0@ == key_file_layout(format, keys_view(keys@))[i].0
                && r@[i].1@ == key_file_layout(format, keys_view(keys@))[i].1,
{
    let ghost kv = keys_view(keys@);
    match format {
        TextSignFormat::Blake3 => {
            let key = slice_to_vec(keys[0].as_slice());
            vec![("blake3.key".to_owned(), key)]
        },
        TextSignFormat::Ed25519 => {
            let public = slice_to_vec(keys[1].as_slice());
            let secret = slice_to_vec(keys[0].as_slice());
            vec![("ed25519.pub".to_owned(), public), ("ed25519.priv".to_owned(), secret)]
        },
        TextSignFormat::ChaCha20 => {
            let mut all: Vec<u8> = Vec::new();
            let mut i: usize = 0;
            while i < keys.len()
                invariant
                    i <= keys@.len(),
                    kv == keys_view(keys@),
                    all@ == concat_all(kv.subrange(0, i as int)),
                decreases keys@.len() - i,
            {
                let mut part = slice_to_vec(keys[i].as_slice());
                all.append(&mut part);
                proof {
                    assert(kv.subrange(0, i + 1).drop_last() =~= kv.subrange(0, i as int));
                }
                i += 1;
            }
            assert(kv.subrange(0, kv.len() as int) =~= kv);
            vec![("base64.key".to_owned(), all)]
        },
    }
}

} // verus!
