use rcli::cli::TextSignFormat;
use rcli::process::b64::{decode_signature, encode_signature};
use rcli::process::{
    create_key, process_sign, process_verify, Blake3, ChaCha20, Ed25519, KeyGenerator, KeyLoader,
    TextSign, TextVerify,
};
use rcli::RcliError;

const INPUT: &[u8] = b"[package]\nname = \"rcli\"\n";

fn cipher_key_file(keys: &[Vec<u8>]) -> Vec<u8> {
    let mut blob = keys[0].clone();
    blob.extend_from_slice(&keys[1]);
    blob
}

fn flip(sig: &str, byte: usize, bit: u8) -> String {
    let mut bytes = decode_signature(sig).unwrap();
    bytes[byte] ^= 1 << bit;
    encode_signature(&bytes)
}

#[test]
fn test_text_sign() {
    let keys = create_key(TextSignFormat::Blake3).unwrap();
    let sig = process_sign(INPUT, &keys[0], TextSignFormat::Blake3).unwrap();
    assert!(process_verify(INPUT, &keys[0], &sig, TextSignFormat::Blake3).unwrap());

    let keys = create_key(TextSignFormat::Ed25519).unwrap();
    let sig = process_sign(INPUT, &keys[0], TextSignFormat::Ed25519).unwrap();
    assert!(process_verify(INPUT, &keys[1], &sig, TextSignFormat::Ed25519).unwrap());

    let keys = create_key(TextSignFormat::ChaCha20).unwrap();
    let blob = cipher_key_file(&keys);
    let sig = process_sign(INPUT, &blob, TextSignFormat::ChaCha20).unwrap();
    assert!(process_verify(INPUT, &blob, &sig, TextSignFormat::ChaCha20).unwrap());
}

#[test]
fn sign_then_verify_on_many_inputs() {
    let blake = create_key(TextSignFormat::Blake3).unwrap();
    let ed = create_key(TextSignFormat::Ed25519).unwrap();
    let chacha = cipher_key_file(&create_key(TextSignFormat::ChaCha20).unwrap());
    for len in [0usize, 1, 2, 3, 31, 64, 1000] {
        let input: Vec<u8> = (0..len).map(|i| (i * 7 % 256) as u8).collect();
        let s = process_sign(&input, &blake[0], TextSignFormat::Blake3).unwrap();
        assert_eq!(process_verify(&input, &blake[0], &s, TextSignFormat::Blake3), Ok(true));
        let s = process_sign(&input, &ed[0], TextSignFormat::Ed25519).unwrap();
        assert_eq!(process_verify(&input, &ed[1], &s, TextSignFormat::Ed25519), Ok(true));
        let s = process_sign(&input, &chacha, TextSignFormat::ChaCha20).unwrap();
        assert_eq!(process_verify(&input, &chacha, &s, TextSignFormat::ChaCha20), Ok(true));
    }
}

#[test]
fn flipped_bit_fails_verification() {
    let blake = create_key(TextSignFormat::Blake3).unwrap();
    let s = process_sign(INPUT, &blake[0], TextSignFormat::Blake3).unwrap();
    for (byte, bit) in [(0usize, 0u8), (5, 3), (31, 7)] {
        let bad = flip(&s, byte, bit);
        assert_eq!(process_verify(INPUT, &blake[0], &bad, TextSignFormat::Blake3), Ok(false));
    }

    let ed = create_key(TextSignFormat::Ed25519).unwrap();
    let s = process_sign(INPUT, &ed[0], TextSignFormat::Ed25519).unwrap();
    for (byte, bit) in [(0usize, 0u8), (20, 5), (40, 1), (63, 2)] {
        let bad = flip(&s, byte, bit);
        assert_eq!(process_verify(INPUT, &ed[1], &bad, TextSignFormat::Ed25519), Ok(false));
    }

    let chacha = cipher_key_file(&create_key(TextSignFormat::ChaCha20).unwrap());
    let s = process_sign(INPUT, &chacha, TextSignFormat::ChaCha20).unwrap();
    for (byte, bit) in [(0usize, 0u8), (10, 4), (INPUT.len() + 15, 7)] {
        let bad = flip(&s, byte, bit);
        assert_eq!(process_verify(INPUT, &chacha, &bad, TextSignFormat::ChaCha20), Err(RcliError::Crypto));
    }
}

#[test]
fn generated_public_key_is_derived_from_the_secret_key() {
    let keys = create_key(TextSignFormat::Ed25519).unwrap();
    assert_eq!(keys.len(), 2);
    assert_eq!(keys[0].len(), 32);
    let again = Ed25519::try_new(&keys[0]).unwrap().public_key();
    assert_eq!(again.to_vec(), keys[1]);
    assert_ne!(keys[1], keys[0]);
    assert_eq!(Ed25519::try_new(&keys[0]).unwrap().public_key(), again);
}

#[test]
fn generated_keys_have_the_scheme_shapes() {
    let k = Blake3::generate().unwrap();
    assert_eq!(k.len(), 1);
    assert_eq!(k[0].len(), 32);
    assert!(k[0].iter().all(|b| b.is_ascii_graphic()));
    let k = ChaCha20::generate().unwrap();
    assert_eq!(k.len(), 2);
    assert_eq!(k[0].len(), 32);
    assert_eq!(k[1].len(), 12);
    let k = Ed25519::generate().unwrap();
    assert_eq!(k.len(), 2);
    assert_eq!(k[0].len(), 32);
    assert_eq!(k[1].len(), 32);
}

#[test]
fn short_key_files_fail_with_key_length() {
    assert_eq!(Blake3::load_key(&[7u8; 31]).err(), Some(RcliError::KeyLength));
    assert_eq!(Ed25519::load_key(&[]).err(), Some(RcliError::KeyLength));
    assert_eq!(ChaCha20::load_key(&[7u8; 43]).err(), Some(RcliError::KeyLength));
    assert_eq!(ChaCha20::load_key(&[7u8; 20]).err(), Some(RcliError::KeyLength));
    assert_eq!(Blake3::try_new(&[1u8; 5]).err(), Some(RcliError::KeyLength));
    assert_eq!(ChaCha20::try_new(&[1u8; 32], &[1u8; 11]).err(), Some(RcliError::KeyLength));
    assert_eq!(
        process_sign(INPUT, &[0u8; 10], TextSignFormat::Blake3),
        Err(RcliError::KeyLength)
    );
}

#[test]
fn long_key_files_use_only_the_prefix() {
    let mut data: Vec<u8> = (0u8..100).collect();
    let k = Blake3::load_key(&data).unwrap();
    assert_eq!(k.key.to_vec(), data[..32].to_vec());
    let c = ChaCha20::load_key(&data).unwrap();
    assert_eq!(c.key.to_vec(), data[..32].to_vec());
    assert_eq!(c.nonce.to_vec(), data[32..44].to_vec());
    let short = process_sign(INPUT, &data[..32], TextSignFormat::Blake3).unwrap();
    data[40] = 0xaa;
    let long = process_sign(INPUT, &data, TextSignFormat::Blake3).unwrap();
    assert_eq!(short, long);
}

#[test]
fn keyed_hash_is_deterministic() {
    let key = [0u8; 32];
    let signer = Blake3::new(key);
    let first = signer.sign(&[0u8]).unwrap();
    let second = signer.sign(&[0u8]).unwrap();
    assert_eq!(first, second);
    assert_eq!(first.len(), 32);
    assert_ne!(first, vec![0u8]);
    assert_eq!(
        process_sign(&[0u8], &key, TextSignFormat::Blake3),
        process_sign(&[0u8], &key, TextSignFormat::Blake3)
    );
    assert_ne!(signer.sign(&[1u8]).unwrap(), first);
}

#[test]
fn cipher_rejects_another_key_or_nonce() {
    let key = [9u8; 32];
    let nonce = [3u8; 12];
    let cipher = ChaCha20::new(key, nonce);
    let ct = cipher.sign(b"attack at dawn").unwrap();
    assert_eq!(ct.len(), 14 + 16);
    assert_eq!(cipher.sign(b"").unwrap().len(), 16);
    assert_ne!(&ct[..14], b"attack at dawn");
    assert_eq!(cipher.decrypt(&ct).unwrap(), b"attack at dawn".to_vec());
    let mut other_key = key;
    other_key[0] ^= 1;
    assert_eq!(ChaCha20::new(other_key, nonce).decrypt(&ct), Err(RcliError::Crypto));
    let mut other_nonce = nonce;
    other_nonce[11] ^= 0x80;
    assert_eq!(ChaCha20::new(key, other_nonce).decrypt(&ct), Err(RcliError::Crypto));
    assert_eq!(ChaCha20::new(key, other_nonce).verify(b"", &ct), Err(RcliError::Crypto));
}

#[test]
fn ed25519_malformed_input_is_an_error() {
    let keys = create_key(TextSignFormat::Ed25519).unwrap();
    let verifier = Ed25519::try_new(&keys[1]).unwrap();
    assert_eq!(verifier.verify(INPUT, &[0u8; 63]), Err(RcliError::Decode));
    let sig = Ed25519::try_new(&keys[0]).unwrap().sign(INPUT).unwrap();
    assert_eq!(sig.len(), 64);
    assert_eq!(verifier.verify(INPUT, &sig), Ok(true));
    assert_eq!(verifier.verify(b"other input", &sig), Ok(false));
    // y = 2 does not decode to a curve point.
    let mut bad_key = [0u8; 32];
    bad_key[0] = 2;
    assert_eq!(Ed25519::new(bad_key).verify(INPUT, &sig), Err(RcliError::Decode));
    assert_eq!(
        process_verify(INPUT, &keys[1], "not base64!", TextSignFormat::Ed25519),
        Err(RcliError::Decode)
    );
}

#[test]
fn keyed_hash_verify_compares_bytes() {
    let signer = Blake3::new([5u8; 32]);
    let sig = signer.sign(INPUT).unwrap();
    assert_eq!(signer.verify(INPUT, &sig), Ok(true));
    assert_eq!(signer.verify(INPUT, &sig[..31]), Ok(false));
    assert_eq!(Blake3::new([6u8; 32]).verify(INPUT, &sig), Ok(false));
}
