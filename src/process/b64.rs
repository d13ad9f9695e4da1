use vstd::prelude::*;
use vstd::utf8::{decode_utf8, valid_utf8};

use base64::engine::general_purpose::{STANDARD, URL_SAFE, URL_SAFE_NO_PAD};
use base64::Engine;

use crate::cli::Base64FormatType;
use crate::error::RcliError;
use crate::utils::{string_from_utf8, trim, trimmed};

verus! {

/// The base64 symbol for the 6-bit value `v`: `A`-`Z`, `a`-`z`, `0`-`9`, then
/// `+` and `/` in the standard alphabet or `-` and `_` in the URL-safe one.
pub open spec fn b64_symbol(v: u8, url_safe: bool) -> char {
    if v < 26 {
        ((v + 65) as u8) as char
    } else if v < 52 {
        ((v + 71) as u8) as char
    } else if v < 62 {
        ((v - 4) as u8) as char
    } else if v == 62 {
        if url_safe { '-' } else { '+' }
    } else {
        if url_safe { '_' } else { '/' }
    }
}

/// The four symbols that encode the three bytes `b0`, `b1`, `b2`.
pub open spec fn b64_group(b0: u8, b1: u8, b2: u8, url_safe: bool) -> Seq<char> {
    seq![
        b64_symbol(b0 >> 2u8, url_safe),
        b64_symbol(((b0 & 3u8) << 4u8) | (b1 >> 4u8), url_safe),
        b64_symbol(((b1 & 15u8) << 2u8) | (b2 >> 6u8), url_safe),
        b64_symbol(b2 & 63u8, url_safe),
    ]
}

/// `n` padding symbols when padding is in use, else none.
pub open spec fn b64_padding(n: nat, padded: bool) -> Seq<char> {
    if padded { Seq::new(n, |i: int| '=') } else { Seq::empty() }
}

/// The base64 encoding of `b`: each group of three bytes becomes four symbols,
/// and a final group of one or two bytes becomes two or three symbols followed,
/// when padding is in use, by `=` up to four.
pub open spec fn b64_encode(b: Seq<u8>, url_safe: bool, padded: bool) -> Seq<char>
    decreases b.len(),
{
    if b.len() == 0 {
        Seq::empty()
    } else if b.len() == 1 {
        b64_group(b[0], 0, 0, url_safe).subrange(0, 2) + b64_padding(2, padded)
    } else if b.len() == 2 {
        b64_group(b[0], b[1], 0, url_safe).subrange(0, 3) + b64_padding(1, padded)
    } else {
        b64_group(b[0], b[1], b[2], url_safe) + b64_encode(b.subrange(3, b.len() as int), url_safe, padded)
    }
}

proof fn lemma_symbol_injective(v: u8, w: u8, url_safe: bool)
    requires
        v < 64,
        w < 64,
        b64_symbol(v, url_safe) == b64_symbol(w, url_safe),
    ensures
        v == w,
{
}

proof fn lemma_symbol_not_pad(v: u8, url_safe: bool)
    requires
        v < 64,
    ensures
        b64_symbol(v, url_safe) != '=',
{
}

proof fn lemma_group_symbols(b0: u8, b1: u8, b2: u8)
    ensures
        b0 >> 2u8 < 64,
        ((b0 & 3u8) << 4u8) | (b1 >> 4u8) < 64,
        ((b1 & 15u8) << 2u8) | (b2 >> 6u8) < 64,
        b2 & 63u8 < 64,
{
    assert(b0 >> 2u8 < 64) by (bit_vector);
    assert(((b0 & 3u8) << 4u8) | (b1 >> 4u8) < 64) by (bit_vector);
    assert(((b1 & 15u8) << 2u8) | (b2 >> 6u8) < 64) by (bit_vector);
    assert(b2 & 63u8 < 64) by (bit_vector);
}

/// Equal leading symbols of two groups mean equal leading bytes: two symbols fix
/// the first byte, three the first two, four all three.
proof fn lemma_group_injective(a0: u8, a1: u8, a2: u8, c0: u8, c1: u8, c2: u8, url_safe: bool, n: int)
    requires
        2 <= n <= 4,
        n < 4 ==> a2 == 0 && c2 == 0,
        n < 3 ==> a1 == 0 && c1 == 0,
        b64_group(a0, a1, a2, url_safe).subrange(0, n) == b64_group(c0, c1, c2, url_safe).subrange(0, n),
    ensures
        a0 == c0,
        n >= 3 ==> a1 == c1,
        n >= 4 ==> a2 == c2,
{
    let ga = b64_group(a0, a1, a2, url_safe);
    let gc = b64_group(c0, c1, c2, url_safe);
    lemma_group_symbols(a0, a1, a2);
    lemma_group_symbols(c0, c1, c2);
    assert(ga[0] == gc[0] && ga[1] == gc[1]) by {
        assert(ga.subrange(0, n)[0] == gc.subrange(0, n)[0]);
        assert(ga.subrange(0, n)[1] == gc.subrange(0, n)[1]);
    }
    lemma_symbol_injective(a0 >> 2u8, c0 >> 2u8, url_safe);
    lemma_symbol_injective(((a0 & 3u8) << 4u8) | (a1 >> 4u8), ((c0 & 3u8) << 4u8) | (c1 >> 4u8), url_safe);
    if n >= 3 {
        assert(ga.subrange(0, n)[2] == gc.subrange(0, n)[2]);
        lemma_symbol_injective(((a1 & 15u8) << 2u8) | (a2 >> 6u8), ((c1 & 15u8) << 2u8) | (c2 >> 6u8), url_safe);
    }
    if n >= 4 {
        assert(ga.subrange(0, n)[3] == gc.subrange(0, n)[3]);
        lemma_symbol_injective(a2 & 63u8, c2 & 63u8, url_safe);
    }
    if n == 2 {
        assert(a0 >> 2u8 == c0 >> 2u8 && ((a0 & 3u8) << 4u8) | (a1 >> 4u8) == ((c0 & 3u8) << 4u8) | (c1 >> 4u8)
            && a1 == 0 && c1 == 0 ==> a0 == c0) by (bit_vector);
    } else if n == 3 {
        assert(a0 >> 2u8 == c0 >> 2u8 && ((a0 & 3u8) << 4u8) | (a1 >> 4u8) == ((c0 & 3u8) << 4u8) | (c1 >> 4u8)
            && ((a1 & 15u8) << 2u8) | (a2 >> 6u8) == ((c1 & 15u8) << 2u8) | (c2 >> 6u8) && a2 == 0 && c2 == 0
            ==> a0 == c0 && a1 == c1) by (bit_vector);
    } else {
        assert(a0 >> 2u8 == c0 >> 2u8 && ((a0 & 3u8) << 4u8) | (a1 >> 4u8) == ((c0 & 3u8) << 4u8) | (c1 >> 4u8)
            && ((a1 & 15u8) << 2u8) | (a2 >> 6u8) == ((c1 & 15u8) << 2u8) | (c2 >> 6u8)
            && a2 & 63u8 == c2 & 63u8 ==> a0 == c0 && a1 == c1 && a2 == c2) by (bit_vector);
    }
}

/// The shape of an encoding: its length, and which of its symbols are padding.
proof fn lemma_encode_shape(b: Seq<u8>, url_safe: bool, padded: bool)
    ensures
        b.len() == 0 ==> b64_encode(b, url_safe, padded).len() == 0,
        b.len() == 1 ==> b64_encode(b, url_safe, padded).len() == if padded { 4int } else { 2int },
        b.len() == 2 ==> b64_encode(b, url_safe, padded).len() == if padded { 4int } else { 3int },
        b.len() >= 3 ==> b64_encode(b, url_safe, padded).len() >= 4,
        b.len() >= 1 ==> b64_encode(b, url_safe, padded)[1] != '=',
        b.len() >= 2 ==> b64_encode(b, url_safe, padded)[2] != '=',
        b.len() >= 3 ==> b64_encode(b, url_safe, padded)[3] != '=',
        b.len() == 1 && padded ==> b64_encode(b, url_safe, padded)[2] == '=',
        b.len() == 2 && padded ==> b64_encode(b, url_safe, padded)[3] == '=',
{
    let e = b64_encode(b, url_safe, padded);
    if b.len() == 1 {
        lemma_group_symbols(b[0], 0, 0);
        lemma_symbol_not_pad(((b[0] & 3u8) << 4u8) | (0u8 >> 4u8), url_safe);
    } else if b.len() == 2 {
        lemma_group_symbols(b[0], b[1], 0);
        lemma_symbol_not_pad(((b[0] & 3u8) << 4u8) | (b[1] >> 4u8), url_safe);
        lemma_symbol_not_pad(((b[1] & 15u8) << 2u8) | (0u8 >> 6u8), url_safe);
    } else if b.len() >= 3 {
        lemma_group_symbols(b[0], b[1], b[2]);
        lemma_symbol_not_pad(((b[0] & 3u8) << 4u8) | (b[1] >> 4u8), url_safe);
        lemma_symbol_not_pad(((b[1] & 15u8) << 2u8) | (b[2] >> 6u8), url_safe);
        lemma_symbol_not_pad(b[2] & 63u8, url_safe);
    }
}

/// Base64 encoding is injective: two byte sequences with the same encoding are equal.
pub proof fn lemma_encode_injective(x: Seq<u8>, y: Seq<u8>, url_safe: bool, padded: bool)
    requires
        b64_encode(x, url_safe, padded) == b64_encode(y, url_safe, padded),
    ensures
        x == y,
    decreases x.len(),
{
    let ex = b64_encode(x, url_safe, padded);
    let ey = b64_encode(y, url_safe, padded);
    lemma_encode_shape(x, url_safe, padded);
    lemma_encode_shape(y, url_safe, padded);
    if x.len() == 0 || y.len() == 0 {
        assert(x.len() == 0 && y.len() == 0);
        assert(x =~= y);
    } else if x.len() < 3 || y.len() < 3 {
        assert(x.len() == y.len());
        let n: int = x.len() as int + 1;
        assert(ex.subrange(0, n) == ey.subrange(0, n));
        if x.len() == 1 {
            assert(ex.subrange(0, n) =~= b64_group(x[0], 0, 0, url_safe).subrange(0, n));
            assert(ey.subrange(0, n) =~= b64_group(y[0], 0, 0, url_safe).subrange(0, n));
            lemma_group_injective(x[0], 0, 0, y[0], 0, 0, url_safe, n);
        } else {
            assert(ex.subrange(0, n) =~= b64_group(x[0], x[1], 0, url_safe).subrange(0, n));
            assert(ey.subrange(0, n) =~= b64_group(y[0], y[1], 0, url_safe).subrange(0, n));
            lemma_group_injective(x[0], x[1], 0, y[0], y[1], 0, url_safe, n);
        }
        assert(x =~= y);
    } else {
        let gx = b64_group(x[0], x[1], x[2], url_safe);
        let gy = b64_group(y[0], y[1], y[2], url_safe);
        let rx = x.subrange(3, x.len() as int);
        let ry = y.subrange(3, y.len() as int);
        assert(ex == gx + b64_encode(rx, url_safe, padded));
        assert(ey == gy + b64_encode(ry, url_safe, padded));
        assert(gx.subrange(0, 4) =~= ex.subrange(0, 4));
        assert(gy.subrange(0, 4) =~= ey.subrange(0, 4));
        lemma_group_injective(x[0], x[1], x[2], y[0], y[1], y[2], url_safe, 4);
        assert(b64_encode(rx, url_safe, padded) =~= ex.subrange(4, ex.len() as int));
        assert(b64_encode(ry, url_safe, padded) =~= ey.subrange(4, ey.len() as int));
        lemma_encode_injective(rx, ry, url_safe, padded);
        assert(x =~= seq![x[0], x[1], x[2]] + rx);
        assert(y =~= seq![y[0], y[1], y[2]] + ry);
    }
}

/// The bytes whose encoding is `s`, if any; by injectivity there is at most one.
pub open spec fn b64_decode(s: Seq<char>, url_safe: bool, padded: bool) -> Option<Seq<u8>> {
    if exists|d: Seq<u8>| b64_encode(d, url_safe, padded) == s {
        Some(choose|d: Seq<u8>| b64_encode(d, url_safe, padded) == s)
    } else {
        None
    }
}

/// Decoding undoes encoding: the encoding of any bytes decodes to those bytes.
pub proof fn lemma_round_trip(b: Seq<u8>, url_safe: bool, padded: bool)
    ensures
        b64_decode(b64_encode(b, url_safe, padded), url_safe, padded) == Some(b),
{
    let s = b64_encode(b, url_safe, padded);
    assert(exists|d: Seq<u8>| b64_encode(d, url_safe, padded) == s);
    let d = choose|d: Seq<u8>| b64_encode(d, url_safe, padded) == s;
    lemma_encode_injective(d, b, url_safe, padded);
}

/// A successful decode gives the one byte sequence whose encoding is the text.
proof fn lemma_decode_unique(s: Seq<char>, d: Seq<u8>, url_safe: bool, padded: bool)
    requires
        b64_encode(d, url_safe, padded) == s,
    ensures
        b64_decode(s, url_safe, padded) == Some(d),
{
    lemma_round_trip(d, url_safe, padded);
}

#[verifier::external_type_specification]
#[verifier::external_body]
pub struct ExDecodeError(base64::DecodeError);

/// Relies on base64's `STANDARD` engine `encode`: standard alphabet, padded.
#[verifier::external_body]
fn encode_standard(b: &[u8]) -> (r: String)
    ensures
        r@ == b64_encode(b@, false, true),
{
    STANDARD.encode(b)
}

/// Relies on base64's `URL_SAFE` engine `encode`: URL-safe alphabet, padded.
#[verifier::external_body]
fn encode_url_safe(b: &[u8]) -> (r: String)
    ensures
        r@ == b64_encode(b@, true, true),
{
    URL_SAFE.encode(b)
}

/// Relies on base64's `URL_SAFE_NO_PAD` engine `encode`: URL-safe alphabet, no padding.
#[verifier::external_body]
fn encode_url_safe_no_pad(b: &[u8]) -> (r: String)
    ensures
        r@ == b64_encode(b@, true, false),
{
    URL_SAFE_NO_PAD.encode(b)
}

/// Relies on base64's `STANDARD` engine `decode`, which requires canonical padding
/// and zero trailing bits, so it accepts exactly the texts that `encode` produces.
#[verifier::external_body]
fn decode_standard(s: &str) -> (r: Result<Vec<u8>, base64::DecodeError>)
    ensures
        r is Ok <==> exists|d: Seq<u8>| b64_encode(d, false, true) == s@,
        r matches Ok(d) ==> b64_encode(d@, false, true) == s@,
{
    STANDARD.decode(s)
}

/// Relies on base64's `URL_SAFE` engine `decode`, which requires canonical padding
/// and zero trailing bits, so it accepts exactly the texts that `encode` produces.
#[verifier::external_body]
fn decode_url_safe(s: &str) -> (r: Result<Vec<u8>, base64::DecodeError>)
    ensures
        r is Ok <==> exists|d: Seq<u8>| b64_encode(d, true, true) == s@,
        r matches Ok(d) ==> b64_encode(d@, true, true) == s@,
{
    URL_SAFE.decode(s)
}

/// Relies on base64's `URL_SAFE_NO_PAD` engine `decode`, which refuses padding and
/// requires zero trailing bits, so it accepts exactly the texts that `encode` produces.
#[verifier::external_body]
fn decode_url_safe_no_pad(s: &str) -> (r: Result<Vec<u8>, base64::DecodeError>)
    ensures
        r is Ok <==> exists|d: Seq<u8>| b64_encode(d, true, false) == s@,
        r matches Ok(d) ==> b64_encode(d@, true, false) == s@,
{
    URL_SAFE_NO_PAD.decode(s)
}

/// The URL-safe, unpadded base64 text of `b`, the form in which signatures are shown.
pub fn encode_signature(b: &[u8]) -> (r: String)
    ensures
        r@ == b64_encode(b@, true, false),
{
    encode_url_safe_no_pad(b)
}

/// The bytes of a signature given as URL-safe, unpadded base64 text.
pub fn decode_signature(s: &str) -> (r: Result<Vec<u8>, RcliError>)
    ensures
        match r {
            Ok(d) => b64_decode(s@, true, false) == Some(d@),
            Err(e) => b64_decode(s@, true, false) is None && e == RcliError::Decode,
        },
{
    match decode_url_safe_no_pad(s) {
        Ok(d) => {
            proof {
                lemma_decode_unique(s@, d@, true, false);
            }
            Ok(d)
        },
        Err(_) => Err(RcliError::Decode),
    }
}

/// Whether the format uses the URL-safe alphabet.
pub open spec fn is_url_safe(format: Base64FormatType) -> bool {
    format == Base64FormatType::UrlSafe
}

/// The padded base64 text of `data` in the chosen alphabet.
pub fn process_encode(data: &[u8], format: Base64FormatType) -> (r: String)
    ensures
        r@ == b64_encode(data@, is_url_safe(format), true),
{
    match format {
        Base64FormatType::STANDARD => encode_standard(data),
        Base64FormatType::UrlSafe => encode_url_safe(data),
    }
}

/// What decoding the (already trimmed) base64 text `s` to UTF-8 text yields.
pub open spec fn decoded_text(s: Seq<char>, format: Base64FormatType) -> Result<Seq<char>, RcliError> {
    match b64_decode(s, is_url_safe(format), true) {
        None => Err(RcliError::Decode),
        Some(b) => if valid_utf8(b) {
            Ok(decode_utf8(b))
        } else {
            Err(RcliError::Utf8)
        },
    }
}

/// The text of a `Result` whose success value is a `String`.
pub open spec fn text_result(r: Result<String, RcliError>) -> Result<Seq<char>, RcliError> {
    match r {
        Ok(s) => Ok(s@),
        Err(e) => Err(e),
    }
}

/// Decodes base64 text that carries no surrounding whitespace into UTF-8 text.
pub fn decode_trimmed(s: &str, format: Base64FormatType) -> (r: Result<String, RcliError>)
    ensures
        text_result(r) == decoded_text(s@, format),
{
    let decoded = match format {
        Base64FormatType::UrlSafe => decode_url_safe(s),
        Base64FormatType::STANDARD => decode_standard(s),
    };
    let bytes = match decoded {
        Ok(d) => d,
        Err(_) => return Err(RcliError::Decode),
    };
    proof {
        lemma_decode_unique(s@, bytes@, is_url_safe(format), true);
    }
    match string_from_utf8(bytes) {
        Ok(text) => Ok(text),
        Err(_) => Err(RcliError::Utf8),
    }
}

/// Decodes base64 text, ignoring surrounding whitespace, into UTF-8 text.
pub fn process_decode(s: &str, format: Base64FormatType) -> (r: Result<String, RcliError>)
    ensures
        text_result(r) == decoded_text(trimmed(s@), format),
{
    decode_trimmed(trim(s), format)
}

} // verus!
