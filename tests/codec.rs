use rcli::cli::Base64FormatType;
use rcli::process::b64::{decode_signature, decode_trimmed, encode_signature};
use rcli::process::{process_decode, process_encode, process_gen_pass};
use rcli::RcliError;

#[test]
fn standard_encoding_has_padding() {
    assert_eq!(process_encode(b"hello", Base64FormatType::STANDARD), "aGVsbG8=");
    assert_eq!(process_encode(&[0xfb, 0xff], Base64FormatType::STANDARD), "+/8=");
    assert_eq!(process_encode(b"", Base64FormatType::STANDARD), "");
}

#[test]
fn url_safe_encoding_uses_dash_and_underscore() {
    assert_eq!(process_encode(&[0xfb, 0xff], Base64FormatType::UrlSafe), "-_8=");
    assert_eq!(process_encode(b"abc", Base64FormatType::UrlSafe), "YWJj");
}

#[test]
fn signature_text_is_unpadded_url_safe() {
    assert_eq!(encode_signature(&[0xfb, 0xff]), "-_8");
    assert_eq!(encode_signature(b"hello"), "aGVsbG8");
}

#[test]
fn signature_text_round_trips() {
    let bytes: Vec<u8> = (0u8..=255).collect();
    for len in 0..bytes.len() {
        let text = encode_signature(&bytes[..len]);
        assert_eq!(decode_signature(&text).unwrap(), bytes[..len].to_vec());
    }
}

#[test]
fn signature_text_rejects_non_canonical_input() {
    assert_eq!(decode_signature("aGVsbG8="), Err(RcliError::Decode));
    assert_eq!(decode_signature("a"), Err(RcliError::Decode));
    assert_eq!(decode_signature("-_9"), Err(RcliError::Decode));
    assert_eq!(decode_signature("ab cd"), Err(RcliError::Decode));
}

#[test]
fn decode_ignores_surrounding_whitespace() {
    assert_eq!(process_decode("  aGVsbG8=\n", Base64FormatType::STANDARD), Ok("hello".to_string()));
    assert_eq!(process_decode("YWJj\n", Base64FormatType::UrlSafe), Ok("abc".to_string()));
    assert_eq!(process_decode("\u{3000}\tYWJj\u{85}\r\n", Base64FormatType::UrlSafe), Ok("abc".to_string()));
}

#[test]
fn trim_removes_only_surrounding_white_space() {
    assert_eq!(rcli::utils::trim(" \t a b \u{2003}\n"), "a b");
    assert_eq!(rcli::utils::trim("\u{3000}"), "");
    assert_eq!(rcli::utils::trim(""), "");
    assert_eq!(rcli::utils::trim("x\u{200b}"), "x\u{200b}");
}

#[test]
fn decode_errors() {
    assert_eq!(decode_trimmed("aGVsbG8", Base64FormatType::STANDARD), Err(RcliError::Decode));
    assert_eq!(process_decode("+/8=", Base64FormatType::UrlSafe), Err(RcliError::Decode));
    // 0xfb 0xff is not UTF-8.
    assert_eq!(process_decode("+/8=", Base64FormatType::STANDARD), Err(RcliError::Utf8));
}

#[test]
fn encode_then_decode_gives_the_text_back() {
    let text = "the quick brown fox jumps over the lazy dog?";
    for format in [Base64FormatType::STANDARD, Base64FormatType::UrlSafe] {
        let encoded = process_encode(text.as_bytes(), format);
        assert_eq!(process_decode(&encoded, format), Ok(text.to_string()));
    }
}

fn in_class(c: char, set: &str) -> bool {
    set.contains(c)
}

const UPPER: &str = "ABCDEFGHJKLMNPQRSTUVWXYZ";
const LOWER: &str = "abcdefghijkmnopqrstuvwxyz";
const NUM: &str = "123456789";
const SYM: &str = "!@#$%^&*_";

#[test]
fn password_has_each_selected_class() {
    for _ in 0..20 {
        let p = process_gen_pass(16, true, true, true, true).unwrap();
        assert_eq!(p.chars().count(), 16);
        assert!(p.chars().any(|c| in_class(c, UPPER)));
        assert!(p.chars().any(|c| in_class(c, LOWER)));
        assert!(p.chars().any(|c| in_class(c, NUM)));
        assert!(p.chars().any(|c| in_class(c, SYM)));
    }
}

#[test]
fn password_uses_only_selected_classes() {
    let p = process_gen_pass(30, false, false, true, false).unwrap();
    assert_eq!(p.len(), 30);
    assert!(p.chars().all(|c| in_class(c, NUM)));
    let p = process_gen_pass(4, true, true, true, true).unwrap();
    assert_eq!(p.len(), 4);
}

#[test]
fn password_length_errors() {
    assert_eq!(process_gen_pass(3, true, true, true, true), Err(RcliError::PasswordLength));
    assert_eq!(process_gen_pass(8, false, false, false, false), Err(RcliError::PasswordLength));
    assert_eq!(process_gen_pass(0, false, false, false, false), Ok(String::new()));
}
