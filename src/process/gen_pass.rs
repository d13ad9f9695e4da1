use vstd::prelude::*;
use vstd::utf8::{decode_utf8, encode_utf8, valid_utf8};

use rand::rngs::ThreadRng;
use rand::seq::SliceRandom;

use crate::error::RcliError;
use crate::utils::string_from_utf8;

verus! {

broadcast use vstd::seq_lib::group_to_multiset_ensures;

#[verifier::external_type_specification]
#[verifier::external_body]
pub struct ExThreadRng(rand::rngs::ThreadRng);

/// Relies on rand::thread_rng: a handle on the thread's random number generator.
#[verifier::external_body]
fn thread_rng() -> (r: ThreadRng) {
    rand::thread_rng()
}

/// Relies on rand's `SliceRandom::choose` for slices: `None` exactly on an empty
/// slice, else one of its elements.
#[verifier::external_body]
fn choose_byte(rng: &mut ThreadRng, from: &[u8]) -> (r: Option<u8>)
    ensures
        r is Some <==> from@.len() > 0,
        r matches Some(c) ==> from@.contains(c),
{
    from.choose(rng).copied()
}

/// Relies on rand's `SliceRandom::shuffle` for slices: the elements are permuted.
#[verifier::external_body]
fn shuffle_bytes(rng: &mut ThreadRng, v: &mut Vec<u8>)
    ensures
        final(v)@.to_multiset() == old(v)@.to_multiset(),
{
    v.shuffle(rng)
}

/// Upper-case letters, without the easily confused `I` and `O`.
pub open spec fn is_upper(c: u8) -> bool {
    65 <= c <= 90 && c != 73 && c != 79
}

/// Lower-case letters, without the easily confused `l`.
pub open spec fn is_lower(c: u8) -> bool {
    97 <= c <= 122 && c != 108
}

/// Digits, without the easily confused `0`.
pub open spec fn is_number(c: u8) -> bool {
    49 <= c <= 57
}

/// The symbols `!@#$%^&*_`.
pub open spec fn is_symbol(c: u8) -> bool {
    c == 33 || c == 64 || c == 35 || c == 36 || c == 37 || c == 94 || c == 38 || c == 42 || c == 95
}

/// Whether `c` belongs to one of the selected character classes.
pub open spec fn in_charset(c: u8, upper: bool, lower: bool, num: bool, sym: bool) -> bool {
    (upper && is_upper(c)) || (lower && is_lower(c)) || (num && is_number(c)) || (sym && is_symbol(c))
}

/// The number of selected character classes.
pub open spec fn class_count(upper: bool, lower: bool, num: bool, sym: bool) -> nat {
    (if upper { 1nat } else { 0nat }) + (if lower { 1nat } else { 0nat }) + (if num { 1nat } else { 0nat })
        + (if sym { 1nat } else { 0nat })
}

/// Whether a password of `length` characters can be made from the selected classes:
/// it must hold one character of each, and a non-empty one needs a class.
pub open spec fn password_possible(length: u8, upper: bool, lower: bool, num: bool, sym: bool) -> bool {
    length >= class_count(upper, lower, num, sym) && (length == 0 || class_count(upper, lower, num, sym) > 0)
}

/// What every generated password is: `length` characters of the selected classes,
/// with at least one of each selected class.
pub open spec fn valid_password(p: Seq<u8>, length: u8, upper: bool, lower: bool, num: bool, sym: bool) -> bool {
    &&& p.len() == length
    &&& forall|i: int| 0 <= i < p.len() ==> in_charset(#[trigger] p[i], upper, lower, num, sym)
    &&& upper ==> exists|i: int| 0 <= i < p.len() && is_upper(#[trigger] p[i])
    &&& lower ==> exists|i: int| 0 <= i < p.len() && is_lower(#[trigger] p[i])
    &&& num ==> exists|i: int| 0 <= i < p.len() && is_number(#[trigger] p[i])
    &&& sym ==> exists|i: int| 0 <= i < p.len() && is_symbol(#[trigger] p[i])
}

fn upper_chars() -> (r: Vec<u8>)
    ensures
        r@.len() > 0,
        forall|i: int| 0 <= i < r@.len() ==> is_upper(#[trigger] r@[i]),
{
    vec![
        'A' as u8, 'B' as u8, 'C' as u8, 'D' as u8, 'E' as u8, 'F' as u8, 'G' as u8, 'H' as u8,
        'J' as u8, 'K' as u8, 'L' as u8, 'M' as u8, 'N' as u8, 'P' as u8, 'Q' as u8, 'R' as u8,
        'S' as u8, 'T' as u8, 'U' as u8, 'V' as u8, 'W' as u8, 'X' as u8, 'Y' as u8, 'Z' as u8,
    ]
}

fn lower_chars() -> (r: Vec<u8>)
    ensures
        r@.len() > 0,
        forall|i: int| 0 <= i < r@.len() ==> is_lower(#[trigger] r@[i]),
{
    vec![
        'a' as u8, 'b' as u8, 'c' as u8, 'd' as u8, 'e' as u8, 'f' as u8, 'g' as u8, 'h' as u8,
        'i' as u8, 'j' as u8, 'k' as u8, 'm' as u8, 'n' as u8, 'o' as u8, 'p' as u8, 'q' as u8,
        'r' as u8, 's' as u8, 't' as u8, 'u' as u8, 'v' as u8, 'w' as u8, 'x' as u8, 'y' as u8,
        'z' as u8,
    ]
}

fn number_chars() -> (r: Vec<u8>)
    ensures
        r@.len() > 0,
        forall|i: int| 0 <= i < r@.len() ==> is_number(#[trigger] r@[i]),
{
    vec![
        '1' as u8, '2' as u8, '3' as u8, '4' as u8, '5' as u8, '6' as u8, '7' as u8, '8' as u8,
        '9' as u8,
    ]
}

fn symbol_chars() -> (r: Vec<u8>)
    ensures
        r@.len() > 0,
        forall|i: int| 0 <= i < r@.len() ==> is_symbol(#[trigger] r@[i]),
{
    vec![
        '!' as u8, '@' as u8, '#' as u8, '$' as u8, '%' as u8, '^' as u8, '&' as u8, '*' as u8,
        '_' as u8,
    ]
}

/// Whether the bytes of `s` all belong to the selected classes.
pub open spec fn all_in_charset(s: Seq<u8>, upper: bool, lower: bool, num: bool, sym: bool) -> bool {
    forall|i: int| 0 <= i < s.len() ==> in_charset(#[trigger] s[i], upper, lower, num, sym)
}

/// A random password as bytes: one character of each selected class, filled up to
/// `length` from the union of the classes, then shuffled.
pub fn gen_pass_bytes(length: u8, upper: bool, lower: bool, num: bool, sym: bool) -> (r: Result<
    Vec<u8>,
    RcliError,
>)
    ensures
        r is Ok <==> password_possible(length, upper, lower, num, sym),
        r matches Ok(p) ==> valid_password(p@, length, upper, lower, num, sym),
        r matches Err(e) ==> e == RcliError::PasswordLength,
{
    let mut count: u8 = 0;
    if upper {
        count += 1;
    }
    if lower {
        count += 1;
    }
    if num {
        count += 1;
    }
    if sym {
        count += 1;
    }
    assert(count == class_count(upper, lower, num, sym));
    if length < count || (count == 0 && length > 0) {
        return Err(RcliError::PasswordLength);
    }
    let mut rng = thread_rng();
    let mut password: Vec<u8> = Vec::new();
    let mut chars: Vec<u8> = Vec::new();
    if upper {
        let mut class = upper_chars();
        let c = match choose_byte(&mut rng, &class) {
            Some(c) => c,
            None => return Err(RcliError::PasswordLength),
        };
        password.push(c);
        chars.append(&mut class);
    }
    let ghost after_upper = password@;
    if lower {
        let mut class = lower_chars();
        let c = match choose_byte(&mut rng, &class) {
            Some(c) => c,
            None => return Err(RcliError::PasswordLength),
        };
        password.push(c);
        chars.append(&mut class);
    }
    let ghost after_lower = password@;
    if num {
        let mut class = number_chars();
        let c = match choose_byte(&mut rng, &class) {
            Some(c) => c,
            None => return Err(RcliError::PasswordLength),
        };
        password.push(c);
        chars.append(&mut class);
    }
    let ghost after_num = password@;
    if sym {
        let mut class = symbol_chars();
        let c = match choose_byte(&mut rng, &class) {
            Some(c) => c,
            None => return Err(RcliError::PasswordLength),
        };
        password.push(c);
        chars.append(&mut class);
    }
    let ghost prefix = password@;
    let ghost iu = 0int;
    let ghost il = after_upper.len() as int;
    let ghost inum = after_lower.len() as int;
    let ghost isym = after_num.len() as int;
    assert(prefix.len() == count);
    assert(upper ==> is_upper(prefix[iu]) && iu < count);
    assert(lower ==> is_lower(prefix[il]) && il < count);
    assert(num ==> is_number(prefix[inum]) && inum < count);
    assert(sym ==> is_symbol(prefix[isym]) && isym < count);
    while password.len() < length as usize
        invariant
            password@.len() <= length,
            count <= password@.len(),
            prefix.len() == count,
            forall|j: int| 0 <= j < count ==> password@[j] == prefix[j],
            count > 0 ==> chars@.len() > 0,
            count == 0 ==> length == 0,
            all_in_charset(chars@, upper, lower, num, sym),
            all_in_charset(password@, upper, lower, num, sym),
        decreases length - password@.len(),
    {
        let c = match choose_byte(&mut rng, &chars) {
            Some(c) => c,
            None => return Err(RcliError::PasswordLength),
        };
        password.push(c);
    }
    let ghost before = password@;
    shuffle_bytes(&mut rng, &mut password);
    proof {
        assert(password@.len() == before.len()) by {
            assert(password@.to_multiset().len() == before.to_multiset().len());
        }
        assert forall|i: int| 0 <= i < password@.len() implies in_charset(
            #[trigger] password@[i],
            upper,
            lower,
            num,
            sym,
        ) by {
            lemma_permuted_contains(password@, before, password@[i]);
        }
        if upper {
            assert(before[iu] == prefix[iu]);
            let k = lemma_permuted_contains(before, password@, before[iu]);
            assert(is_upper(password@[k]));
        }
        if lower {
            assert(before[il] == prefix[il]);
            let k = lemma_permuted_contains(before, password@, before[il]);
            assert(is_lower(password@[k]));
        }
        if num {
            assert(before[inum] == prefix[inum]);
            let k = lemma_permuted_contains(before, password@, before[inum]);
            assert(is_number(password@[k]));
        }
        if sym {
            assert(before[isym] == prefix[isym]);
            let k = lemma_permuted_contains(before, password@, before[isym]);
            assert(is_symbol(password@[k]));
        }
    }
    Ok(password)
}

/// What one of two permutations of each other holds, the other holds too.
proof fn lemma_permuted_contains(a: Seq<u8>, b: Seq<u8>, x: u8) -> (k: int)
    requires
        a.to_multiset() == b.to_multiset(),
        a.contains(x),
    ensures
        0 <= k < b.len(),
        b[k] == x,
{
    assert(a.to_multiset().count(x) > 0);
    assert(b.to_multiset().count(x) > 0);
    choose|k: int| 0 <= k < b.len() && b[k] == x
}

/// ASCII bytes are valid UTF-8 and decode to the characters with the same codes.
proof fn lemma_ascii_utf8(b: Seq<u8>)
    requires
        forall|i: int| 0 <= i < b.len() ==> #[trigger] b[i] < 128,
    ensures
        valid_utf8(b),
        decode_utf8(b) == b.map_values(|c: u8| c as char),
{
    let chars = b.map_values(|c: u8| c as char);
    assert(vstd::utf8::is_ascii_chars(chars));
    vstd::utf8::is_ascii_chars_encode_utf8(chars);
    assert(encode_utf8(chars) =~= b);
    vstd::utf8::encode_utf8_valid_utf8(chars);
    vstd::utf8::encode_utf8_decode_utf8(chars);
}

/// A random password of `length` characters from the selected classes (upper-case
/// letters, lower-case letters, digits, symbols), with at least one of each.
pub fn process_gen_pass(length: u8, upper: bool, lower: bool, num: bool, sym: bool) -> (r: Result<
    String,
    RcliError,
>)
    ensures
        r is Ok <==> password_possible(length, upper, lower, num, sym),
        r matches Ok(p) ==> exists|b: Seq<u8>|
            valid_password(b, length, upper, lower, num, sym) && p@ == b.map_values(|c: u8| c as char),
        r matches Err(e) ==> e == RcliError::PasswordLength,
{
    let bytes = gen_pass_bytes(length, upper, lower, num, sym)?;
    let ghost b = bytes@;
    proof {
        assert forall|i: int| 0 <= i < b.len() implies #[trigger] b[i] < 128 by {
            assert(in_charset(b[i], upper, lower, num, sym));
        }
        lemma_ascii_utf8(b);
    }
    match string_from_utf8(bytes) {
        Ok(p) => Ok(p),
        Err(_) => Err(RcliError::Utf8),
    }
}

} // verus!
