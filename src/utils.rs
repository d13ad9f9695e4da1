use vstd::prelude::*;
use vstd::utf8::{decode_utf8, valid_utf8};

verus! {

#[verifier::external_type_specification]
#[verifier::external_body]
pub struct ExFromUtf8Error(std::string::FromUtf8Error);

/// Relies on `String::from_utf8`: succeeds exactly on valid UTF-8 and then holds
/// the characters that the bytes encode.
#[verifier::external_body]
pub(crate) fn string_from_utf8(b: Vec<u8>) -> (r: Result<String, std::string::FromUtf8Error>)
    ensures
        r is Ok <==> valid_utf8(b@),
        r matches Ok(s) ==> s@ == decode_utf8(b@),
{
    String::from_utf8(b)
}

/// The text with every character mapped to lower case.
pub uninterp spec fn lower_of(s: Seq<char>) -> Seq<char>;

/// Relies on `str::to_lowercase`: the result depends on the text alone.
#[verifier::external_body]
pub(crate) fn lowercase(s: &str) -> (r: String)
    ensures
        r@ == lower_of(s@),
{
    s.to_lowercase()
}

/// Whether `c` has the Unicode `White_Space` property.
pub open spec fn is_white_space(c: char) -> bool {
    ||| '\u{9}' <= c <= '\u{d}'
    ||| c == ' '
    ||| c == '\u{85}'
    ||| c == '\u{a0}'
    ||| c == '\u{1680}'
    ||| '\u{2000}' <= c <= '\u{200a}'
    ||| c == '\u{2028}'
    ||| c == '\u{2029}'
    ||| c == '\u{202f}'
    ||| c == '\u{205f}'
    ||| c == '\u{3000}'
}

/// The text without its leading whitespace.
pub open spec fn trim_start(s: Seq<char>) -> Seq<char>
    decreases s.len(),
{
    if s.len() > 0 && is_white_space(s[0]) {
        trim_start(s.drop_first())
    } else {
        s
    }
}

/// The text without its trailing whitespace.
pub open spec fn trim_end(s: Seq<char>) -> Seq<char>
    decreases s.len(),
{
    if s.len() > 0 && is_white_space(s.last()) {
        trim_end(s.drop_last())
    } else {
        s
    }
}

/// The text with leading and trailing whitespace removed.
pub open spec fn trimmed(s: Seq<char>) -> Seq<char> {
    trim_end(trim_start(s))
}

/// Whether `c` has the Unicode `White_Space` property.
fn white_space(c: char) -> (r: bool)
    ensures
        r == is_white_space(c),
{
    ('\u{9}' <= c && c <= '\u{d}') || c == ' ' || c == '\u{85}' || c == '\u{a0}' || c == '\u{1680}'
        || ('\u{2000}' <= c && c <= '\u{200a}') || c == '\u{2028}' || c == '\u{2029}' || c == '\u{202f}'
        || c == '\u{205f}' || c == '\u{3000}'
}

/// The text with leading and trailing whitespace removed.
pub fn trim(s: &str) -> (r: &str)
    ensures
        r@ == trimmed(s@),
{
    let n = s.unicode_len();
    let ghost t = s@;
    let mut start: usize = 0;
    assert(t.subrange(0, n as int) =~= t);
    loop
        invariant
            n == t.len(),
            t == s@,
            start <= n,
            trim_start(t) == trim_start(t.subrange(start as int, n as int)),
        ensures
            start == n || !is_white_space(t[start as int]),
        decreases n - start,
    {
        if start == n || !white_space(s.get_char(start)) {
            break;
        }
        assert(t.subrange(start as int, n as int).drop_first() =~= t.subrange(start + 1, n as int));
        start += 1;
    }
    if start < n {
        assert(t.subrange(start as int, n as int)[0] == t[start as int]);
    }
    assert(trim_start(t) == t.subrange(start as int, n as int));
    let mut end: usize = n;
    loop
        invariant
            n == t.len(),
            t == s@,
            start <= end <= n,
            trim_end(t.subrange(start as int, n as int)) == trim_end(t.subrange(start as int, end as int)),
        ensures
            end == start || !is_white_space(t[end - 1]),
        decreases end,
    {
        if end == start || !white_space(s.get_char(end - 1)) {
            break;
        }
        assert(t.subrange(start as int, end as int).drop_last() =~= t.subrange(start as int, end - 1));
        end -= 1;
    }
    if end > start {
        assert(t.subrange(start as int, end as int).last() == t[end - 1]);
    }
    assert(trim_end(t.subrange(start as int, end as int)) == t.subrange(start as int, end as int));
    s.substring_char(start, end)
}

/// Whether two texts hold the same characters.
pub(crate) fn same_text(a: &str, b: &str) -> (r: bool)
    ensures
        r == (a@ == b@),
{
    a.to_owned() == b.to_owned()
}

} // verus!
