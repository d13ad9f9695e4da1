use vstd::prelude::*;
use vstd::slice::{slice_subrange, slice_to_vec};

use crate::cli::text::{keys_view, TextSignFormat};
use crate::error::RcliError;
use crate::process::crypto::{
    blake3_keyed, chacha_decrypt, chacha_encrypt, chacha_opened, chacha_sealed, ed25519_accepts,
    ed25519_decodes, ed25519_public_key, ed25519_public_of, ed25519_sign, ed25519_signature,
    ed25519_verify_strict, keyed_hash, random_cipher_key, random_cipher_nonce, CHACHA_MAX_PLAINTEXT,
};
use crate::process::b64::{
    b64_decode, b64_encode, decode_signature, encode_signature, lemma_round_trip, text_result,
};
use crate::process::gen_pass::{gen_pass_bytes, valid_password};

verus! {

// ---------------------------------------------------------------------------
// The shared capabilities.
// ---------------------------------------------------------------------------

/// The bytes of a `Result` whose success value is a byte vector.
pub open spec fn bytes_result(r: Result<Vec<u8>, RcliError>) -> Result<Seq<u8>, RcliError> {
    match r {
        Ok(v) => Ok(v@),
        Err(e) => Err(e),
    }
}

/// Signing of a fully read input. For the cipher scheme "sign" means encrypt:
/// the signature is the authenticated ciphertext of the input.
pub trait TextSign: View {
    /// What signing `msg` with the key material `key` yields.
    spec fn signature_of(key: Self::V, msg: Seq<u8>) -> Result<Seq<u8>, RcliError>;

    /// What holds of every signature `sig` that the scheme makes of `msg` with the
    /// key material `key`: its width, and for the cipher that it decrypts back.
    spec fn signature_laws(key: Self::V, msg: Seq<u8>, sig: Seq<u8>) -> bool;

    fn sign(&self, msg: &[u8]) -> (r: Result<Vec<u8>, RcliError>)
        ensures
            bytes_result(r) == Self::signature_of(self@, msg@),
            r matches Ok(s) ==> Self::signature_laws(self@, msg@, s@),
    ;
}

/// Verification of a signature against a fully read input. For the cipher scheme
/// "verify" means authenticated decryption of the signature, and the input is
/// not used; a signature that does not authenticate is an error, not `false`.
pub trait TextVerify: View {
    /// What verifying `sig` against `msg` with the key material `key` yields.
    spec fn verdict_of(key: Self::V, msg: Seq<u8>, sig: Seq<u8>) -> Result<bool, RcliError>;

    fn verify(&self, msg: &[u8], sig: &[u8]) -> (r: Result<bool, RcliError>)
        ensures
            r == Self::verdict_of(self@, msg@, sig@),
    ;
}

/// Construction of a scheme's key material from the bytes of a key file.
pub trait KeyLoader: Sized + View {
    /// The key material read from a key file holding `data`.
    spec fn loaded_from(data: Seq<u8>) -> Result<Self::V, RcliError>;

    fn load_key(data: &[u8]) -> (r: Result<Self, RcliError>)
        ensures
            match r {
                Ok(k) => Self::loaded_from(data@) == Ok::<Self::V, RcliError>(k@),
                Err(e) => Self::loaded_from(data@) == Err::<Self::V, RcliError>(e),
            },
    ;
}

/// Generation of fresh key material for a scheme.
pub trait KeyGenerator {
    /// What every key set that the scheme generates satisfies.
    spec fn generated(keys: Seq<Seq<u8>>) -> bool;

    fn generate() -> (r: Result<Vec<Vec<u8>>, RcliError>)
        ensures
            r is Ok,
            r matches Ok(k) ==> Self::generated(keys_view(k@)),
    ;
}

/// The leading `n` bytes of `data` when it holds at least `n`, else a key length error.
pub open spec fn key_prefix(data: Seq<u8>, n: nat) -> Result<Seq<u8>, RcliError> {
    if data.len() < n {
        Err(RcliError::KeyLength)
    } else {
        Ok(data.subrange(0, n as int))
    }
}

/// The first 32 bytes of `data` as an array.
fn prefix_array_32(data: &[u8]) -> (r: [u8; 32])
    requires
        data@.len() >= 32,
    ensures
        r@ == data@.subrange(0, 32),
{
    let mut r = [0u8; 32];
    let mut i: usize = 0;
    while i < 32
        invariant
            i <= 32,
            data@.len() >= 32,
            forall|j: int| 0 <= j < i ==> r@[j] == data@[j],
        decreases 32 - i,
    {
        r[i] = data[i];
        i += 1;
    }
    assert(r@ =~= data@.subrange(0, 32));
    r
}

/// The first 12 bytes of `data` as an array.
fn prefix_array_12(data: &[u8]) -> (r: [u8; 12])
    requires
        data@.len() >= 12,
    ensures
        r@ == data@.subrange(0, 12),
{
    let mut r = [0u8; 12];
    let mut i: usize = 0;
    while i < 12
        invariant
            i <= 12,
            data@.len() >= 12,
            forall|j: int| 0 <= j < i ==> r@[j] == data@[j],
        decreases 12 - i,
    {
        r[i] = data[i];
        i += 1;
    }
    assert(r@ =~= data@.subrange(0, 12));
    r
}

/// The bytes of `data` as a 64-byte array, when it holds exactly 64.
fn exact_array_64(data: &[u8]) -> (r: Option<[u8; 64]>)
    ensures
        r is Some <==> data@.len() == 64,
        r matches Some(a) ==> a@ == data@,
{
    if data.len() != 64 {
        return None;
    }
    let mut r = [0u8; 64];
    let mut i: usize = 0;
    while i < 64
        invariant
            i <= 64,
            data@.len() == 64,
            forall|j: int| 0 <= j < i ==> r@[j] == data@[j],
        decreases 64 - i,
    {
        r[i] = data[i];
        i += 1;
    }
    assert(r@ =~= data@);
    Some(r)
}

/// Whether two byte slices hold the same bytes.
fn bytes_equal(a: &[u8], b: &[u8]) -> (r: bool)
    ensures
        r == (a@ == b@),
{
    if a.len() != b.len() {
        return false;
    }
    let mut i: usize = 0;
    while i < a.len()
        invariant
            a@.len() == b@.len(),
            i <= a@.len(),
            forall|j: int| 0 <= j < i ==> a@[j] == b@[j],
        decreases a@.len() - i,
    {
        if a[i] != b[i] {
            return false;
        }
        i += 1;
    }
    assert(a@ =~= b@);
    true
}

// ---------------------------------------------------------------------------
// Keyed hashing.
// ---------------------------------------------------------------------------

/// Keyed hashing with BLAKE3 under a 32-byte secret key. The signature is the
/// 32-byte digest; verification recomputes it and compares bytes.
pub struct Blake3 {
    pub key: [u8; 32],
}

impl View for Blake3 {
    type V = Seq<u8>;

    open spec fn view(&self) -> Seq<u8> {
        self.key@
    }
}

impl Blake3 {
    pub fn new(key: [u8; 32]) -> (r: Self)
        ensures
            r.key == key,
    {
        Self { key }
    }

    /// Takes the first 32 bytes of `key`; fails when there are fewer.
    pub fn try_new(key: &[u8]) -> (r: Result<Self, RcliError>)
        ensures
            match r {
                Ok(k) => key_prefix(key@, 32) == Ok::<Seq<u8>, RcliError>(k@),
                Err(e) => key_prefix(key@, 32) == Err::<Seq<u8>, RcliError>(e),
            },
    {
        if key.len() < 32 {
            return Err(RcliError::KeyLength);
        }
        Ok(Self::new(prefix_array_32(key)))
    }
}

impl TextSign for Blake3 {
    open spec fn signature_of(key: Seq<u8>, msg: Seq<u8>) -> Result<Seq<u8>, RcliError> {
        Ok(blake3_keyed(key, msg))
    }

    /// The digest is 32 bytes wide.
    open spec fn signature_laws(key: Seq<u8>, msg: Seq<u8>, sig: Seq<u8>) -> bool {
        sig.len() == 32
    }

    fn sign(&self, msg: &[u8]) -> (r: Result<Vec<u8>, RcliError>) {
        let hash = keyed_hash(&self.key, msg);
        Ok(slice_to_vec(&hash))
    }
}

impl TextVerify for Blake3 {
    open spec fn verdict_of(key: Seq<u8>, msg: Seq<u8>, sig: Seq<u8>) -> Result<bool, RcliError> {
        Ok(blake3_keyed(key, msg) == sig)
    }

    fn verify(&self, msg: &[u8], sig: &[u8]) -> (r: Result<bool, RcliError>) {
        let hash = keyed_hash(&self.key, msg);
        Ok(bytes_equal(&hash, sig))
    }
}

impl KeyLoader for Blake3 {
    open spec fn loaded_from(data: Seq<u8>) -> Result<Seq<u8>, RcliError> {
        key_prefix(data, 32)
    }

    fn load_key(data: &[u8]) -> (r: Result<Self, RcliError>) {
        Self::try_new(data)
    }
}

impl KeyGenerator for Blake3 {
    /// One 32-byte key, drawn as a password over all character classes. Each byte
    /// is one of a few dozen printable characters, so the key holds far less
    /// randomness than 32 uniformly random bytes would.
    open spec fn generated(keys: Seq<Seq<u8>>) -> bool {
        keys.len() == 1 && valid_password(keys[0], 32, true, true, true, true)
    }

    fn generate() -> (r: Result<Vec<Vec<u8>>, RcliError>) {
        let key = match gen_pass_bytes(32, true, true, true, true) {
            Ok(k) => k,
            Err(e) => return Err(e),
        };
        let keys = vec![key];
        assert(keys_view(keys@) =~= seq![keys@[0]@]);
        Ok(keys)
    }
}

// ---------------------------------------------------------------------------
// Asymmetric signatures.
// ---------------------------------------------------------------------------

/// Ed25519 signatures. The key is the 32-byte secret key when signing and the
/// 32-byte encoded public key when verifying.
pub struct Ed25519 {
    pub key: [u8; 32],
}

impl View for Ed25519 {
    type V = Seq<u8>;

    open spec fn view(&self) -> Seq<u8> {
        self.key@
    }
}

impl Ed25519 {
    pub fn new(key: [u8; 32]) -> (r: Self)
        ensures
            r.key == key,
    {
        Self { key }
    }

    /// Takes the first 32 bytes of `key`; fails when there are fewer.
    pub fn try_new(key: &[u8]) -> (r: Result<Self, RcliError>)
        ensures
            match r {
                Ok(k) => key_prefix(key@, 32) == Ok::<Seq<u8>, RcliError>(k@),
                Err(e) => key_prefix(key@, 32) == Err::<Seq<u8>, RcliError>(e),
            },
    {
        if key.len() < 32 {
            return Err(RcliError::KeyLength);
        }
        Ok(Self::new(prefix_array_32(key)))
    }

    /// The public key that belongs to this secret key.
    pub fn public_key(&self) -> (r: [u8; 32])
        ensures
            r@ == ed25519_public_of(self@),
    {
        ed25519_public_key(&self.key)
    }
}

impl TextSign for Ed25519 {
    open spec fn signature_of(key: Seq<u8>, msg: Seq<u8>) -> Result<Seq<u8>, RcliError> {
        Ok(ed25519_signature(key, msg))
    }

    /// The signature is 64 bytes wide.
    open spec fn signature_laws(key: Seq<u8>, msg: Seq<u8>, sig: Seq<u8>) -> bool {
        sig.len() == 64
    }

    fn sign(&self, msg: &[u8]) -> (r: Result<Vec<u8>, RcliError>) {
        let sig = ed25519_sign(&self.key, msg);
        Ok(slice_to_vec(&sig))
    }
}

impl TextVerify for Ed25519 {
    /// A signature of the wrong length or a key that is no curve point is
    /// malformed input; a well-formed signature that strict verification rejects
    /// is `false`.
    open spec fn verdict_of(key: Seq<u8>, msg: Seq<u8>, sig: Seq<u8>) -> Result<bool, RcliError> {
        if sig.len() != 64 || !ed25519_decodes(key) {
            Err(RcliError::Decode)
        } else {
            Ok(ed25519_accepts(key, msg, sig))
        }
    }

    fn verify(&self, msg: &[u8], sig: &[u8]) -> (r: Result<bool, RcliError>) {
        let sig = match exact_array_64(sig) {
            Some(a) => a,
            None => return Err(RcliError::Decode),
        };
        match ed25519_verify_strict(&self.key, msg, &sig) {
            Ok(b) => Ok(b),
            Err(_) => Err(RcliError::Decode),
        }
    }
}

impl KeyLoader for Ed25519 {
    open spec fn loaded_from(data: Seq<u8>) -> Result<Seq<u8>, RcliError> {
        key_prefix(data, 32)
    }

    fn load_key(data: &[u8]) -> (r: Result<Self, RcliError>) {
        Self::try_new(data)
    }
}

impl KeyGenerator for Ed25519 {
    /// A 32-byte secret key, drawn as a password over all character classes (with
    /// the same shortfall of randomness as the keyed-hash key), and the public key
    /// derived from it.
    open spec fn generated(keys: Seq<Seq<u8>>) -> bool {
        &&& keys.len() == 2
        &&& valid_password(keys[0], 32, true, true, true, true)
        &&& keys[1] == ed25519_public_of(keys[0])
        &&& keys[1].len() == 32
    }

    fn generate() -> (r: Result<Vec<Vec<u8>>, RcliError>) {
        let secret = match gen_pass_bytes(32, true, true, true, true) {
            Ok(k) => k,
            Err(e) => return Err(e),
        };
        let signing = Ed25519::new(prefix_array_32(secret.as_slice()));
        assert(signing@ =~= secret@);
        let public = signing.public_key();
        let keys = vec![secret, slice_to_vec(&public)];
        assert(keys_view(keys@) =~= seq![keys@[0]@, keys@[1]@]);
        Ok(keys)
    }
}

// ---------------------------------------------------------------------------
// Authenticated encryption.
// ---------------------------------------------------------------------------

/// ChaCha20-Poly1305 under a 32-byte key and a 12-byte nonce. "Signing" encrypts
/// the input; "verifying" decrypts the signature and succeeds when it authenticates.
pub struct ChaCha20 {
    pub key: [u8; 32],
    pub nonce: [u8; 12],
}

impl View for ChaCha20 {
    type V = (Seq<u8>, Seq<u8>);

    open spec fn view(&self) -> (Seq<u8>, Seq<u8>) {
        (self.key@, self.nonce@)
    }
}

/// The key and nonce read from a key file: 32 key bytes, then 12 nonce bytes.
pub open spec fn cipher_key_from(data: Seq<u8>) -> Result<(Seq<u8>, Seq<u8>), RcliError> {
    if data.len() < 44 {
        Err(RcliError::KeyLength)
    } else {
        Ok((data.subrange(0, 32), data.subrange(32, 44)))
    }
}

impl ChaCha20 {
    pub fn new(key: [u8; 32], nonce: [u8; 12]) -> (r: Self)
        ensures
            r.key == key,
            r.nonce == nonce,
    {
        Self { key, nonce }
    }

    /// Takes the first 32 bytes of `key` and the first 12 of `nonce`; fails when
    /// either holds fewer.
    pub fn try_new(key: &[u8], nonce: &[u8]) -> (r: Result<Self, RcliError>)
        ensures
            match r {
                Ok(k) => key@.len() >= 32 && nonce@.len() >= 12 && k.key@ == key@.subrange(0, 32)
                    && k.nonce@ == nonce@.subrange(0, 12),
                Err(e) => (key@.len() < 32 || nonce@.len() < 12) && e == RcliError::KeyLength,
            },
    {
        if key.len() < 32 || nonce.len() < 12 {
            return Err(RcliError::KeyLength);
        }
        Ok(Self::new(prefix_array_32(key), prefix_array_12(nonce)))
    }

    /// Encrypts `msg`. The ciphertext carries a 16-byte tag and decrypts back to
    /// `msg` under the same key and nonce.
    pub fn encrypt(&self, msg: &[u8]) -> (r: Result<Vec<u8>, RcliError>)
        ensures
            bytes_result(r) == Self::signature_of(self@, msg@),
            r matches Ok(c) ==> c@.len() == msg@.len() + 16,
            r matches Ok(c) ==> Self::opened(self@, c@) == Ok::<Seq<u8>, RcliError>(msg@),
            r matches Ok(c) ==> Self::verdict_of(self@, msg@, c@) == Ok::<bool, RcliError>(true),
    {
        match chacha_encrypt(&self.key, &self.nonce, msg) {
            Ok(c) => Ok(c),
            Err(_) => Err(RcliError::Crypto),
        }
    }

    /// The plaintext recovered from `ct`, or a failure when it does not authenticate.
    pub open spec fn opened(key: (Seq<u8>, Seq<u8>), ct: Seq<u8>) -> Result<Seq<u8>, RcliError> {
        match chacha_opened(key.0, key.1, ct) {
            Some(p) => Ok(p),
            None => Err(RcliError::Crypto),
        }
    }

    /// Decrypts `ct`; fails when the tag does not authenticate it under this key
    /// and nonce.
    pub fn decrypt(&self, ct: &[u8]) -> (r: Result<Vec<u8>, RcliError>)
        ensures
            bytes_result(r) == Self::opened(self@, ct@),
    {
        match chacha_decrypt(&self.key, &self.nonce, ct) {
            Ok(p) => Ok(p),
            Err(_) => Err(RcliError::Crypto),
        }
    }
}

impl TextSign for ChaCha20 {
    open spec fn signature_of(key: (Seq<u8>, Seq<u8>), msg: Seq<u8>) -> Result<Seq<u8>, RcliError> {
        if msg.len() >= CHACHA_MAX_PLAINTEXT {
            Err(RcliError::Crypto)
        } else {
            Ok(chacha_sealed(key.0, key.1, msg))
        }
    }

    /// The ciphertext is the input plus a 16-byte tag, and decrypts back to the input.
    open spec fn signature_laws(key: (Seq<u8>, Seq<u8>), msg: Seq<u8>, sig: Seq<u8>) -> bool {
        sig.len() == msg.len() + 16 && Self::opened(key, sig) == Ok::<Seq<u8>, RcliError>(msg)
    }

    fn sign(&self, msg: &[u8]) -> (r: Result<Vec<u8>, RcliError>) {
        self.encrypt(msg)
    }
}

impl TextVerify for ChaCha20 {
    open spec fn verdict_of(key: (Seq<u8>, Seq<u8>), msg: Seq<u8>, sig: Seq<u8>) -> Result<bool, RcliError> {
        match Self::opened(key, sig) {
            Ok(_) => Ok(true),
            Err(e) => Err(e),
        }
    }

    fn verify(&self, msg: &[u8], sig: &[u8]) -> (r: Result<bool, RcliError>) {
        match self.decrypt(sig) {
            Ok(_) => Ok(true),
            Err(e) => Err(e),
        }
    }
}

impl KeyLoader for ChaCha20 {
    open spec fn loaded_from(data: Seq<u8>) -> Result<(Seq<u8>, Seq<u8>), RcliError> {
        cipher_key_from(data)
    }

    fn load_key(data: &[u8]) -> (r: Result<Self, RcliError>) {
        if data.len() < 32 {
            return Err(RcliError::KeyLength);
        }
        let key = slice_subrange(data, 0, 32);
        let nonce = slice_subrange(data, 32, data.len());
        let r = Self::try_new(key, nonce);
        proof {
            assert(nonce@.len() >= 12 ==> nonce@.subrange(0, 12) =~= data@.subrange(32, 44));
            assert(key@.subrange(0, 32) =~= data@.subrange(0, 32));
        }
        r
    }
}

impl KeyGenerator for ChaCha20 {
    /// A random 32-byte key and a random 12-byte nonce.
    open spec fn generated(keys: Seq<Seq<u8>>) -> bool {
        keys.len() == 2 && keys[0].len() == 32 && keys[1].len() == 12
    }

    fn generate() -> (r: Result<Vec<Vec<u8>>, RcliError>) {
        let key = random_cipher_key();
        let nonce = random_cipher_nonce();
        let keys = vec![slice_to_vec(&key), slice_to_vec(&nonce)];
        assert(keys_view(keys@) =~= seq![keys@[0]@, keys@[1]@]);
        Ok(keys)
    }
}

// ---------------------------------------------------------------------------
// Dispatch over the schemes.
// ---------------------------------------------------------------------------

/// What signing `input` with the scheme `K` and the key file `key_file` yields.
pub open spec fn sign_with<K: KeyLoader + TextSign>(input: Seq<u8>, key_file: Seq<u8>) -> Result<Seq<u8>, RcliError> {
    match K::loaded_from(key_file) {
        Ok(k) => K::signature_of(k, input),
        Err(e) => Err(e),
    }
}

/// What verifying the signature bytes `sig` of `input` with the scheme `K` and the
/// key file `key_file` yields.
pub open spec fn verify_with<K: KeyLoader + TextVerify>(input: Seq<u8>, key_file: Seq<u8>, sig: Seq<u8>) -> Result<bool, RcliError> {
    match K::loaded_from(key_file) {
        Ok(k) => K::verdict_of(k, input, sig),
        Err(e) => Err(e),
    }
}

/// The signature bytes of `input` under the scheme `format` and the key file `key_file`.
pub open spec fn signed(format: TextSignFormat, input: Seq<u8>, key_file: Seq<u8>) -> Result<Seq<u8>, RcliError> {
    match format {
        TextSignFormat::Blake3 => sign_with::<Blake3>(input, key_file),
        TextSignFormat::Ed25519 => sign_with::<Ed25519>(input, key_file),
        TextSignFormat::ChaCha20 => sign_with::<ChaCha20>(input, key_file),
    }
}

/// The signature of `input` as URL-safe, unpadded base64 text.
pub open spec fn signature_text(format: TextSignFormat, input: Seq<u8>, key_file: Seq<u8>) -> Result<Seq<char>, RcliError> {
    match signed(format, input, key_file) {
        Ok(s) => Ok(b64_encode(s, true, false)),
        Err(e) => Err(e),
    }
}

/// What verifying the signature text `sig_text` of `input` under the scheme
/// `format` and the key file `key_file` yields: text that is not base64 is a decode
/// error, checked before the key file.
pub open spec fn verified(format: TextSignFormat, input: Seq<u8>, key_file: Seq<u8>, sig_text: Seq<char>) -> Result<bool, RcliError> {
    match b64_decode(sig_text, true, false) {
        None => Err(RcliError::Decode),
        Some(sig) => match format {
            TextSignFormat::Blake3 => verify_with::<Blake3>(input, key_file, sig),
            TextSignFormat::Ed25519 => verify_with::<Ed25519>(input, key_file, sig),
            TextSignFormat::ChaCha20 => verify_with::<ChaCha20>(input, key_file, sig),
        },
    }
}

/// Signs the fully read `input` with the key file contents `key` under the scheme
/// `format`, and gives the signature as URL-safe, unpadded base64 text. For keyed
/// hashing and encryption, the text verifies against the same input and key file.
pub fn process_sign(input: &[u8], key: &[u8], format: TextSignFormat) -> (r: Result<String, RcliError>)
    ensures
        text_result(r) == signature_text(format, input@, key@),
        format != TextSignFormat::Ed25519 && r is Ok ==> verified(format, input@, key@, r->Ok_0@) == Ok::<
            bool,
            RcliError,
        >(true),
{
    let signature = match format {
        TextSignFormat::Blake3 => {
            let blake3 = Blake3::load_key(key)?;
            blake3.sign(input)?
        },
        TextSignFormat::Ed25519 => {
            let ed25519 = Ed25519::load_key(key)?;
            ed25519.sign(input)?
        },
        TextSignFormat::ChaCha20 => {
            let chacha20 = ChaCha20::load_key(key)?;
            chacha20.encrypt(input)?
        },
    };
    proof {
        lemma_round_trip(signature@, true, false);
    }
    Ok(encode_signature(&signature))
}

/// Verifies the signature text `signature` of the fully read `input` with the key
/// file contents `key` under the scheme `format`.
pub fn process_verify(input: &[u8], key: &[u8], signature: &str, format: TextSignFormat) -> (r: Result<
    bool,
    RcliError,
>)
    ensures
        r == verified(format, input@, key@, signature@),
{
    let signature = decode_signature(signature)?;
    match format {
        TextSignFormat::Blake3 => {
            let blake3 = Blake3::load_key(key)?;
            blake3.verify(input, &signature)
        },
        TextSignFormat::Ed25519 => {
            let ed25519 = Ed25519::load_key(key)?;
            ed25519.verify(input, &signature)
        },
        TextSignFormat::ChaCha20 => {
            let chacha20 = ChaCha20::load_key(key)?;
            chacha20.verify(input, &signature)
        },
    }
}

/// What every key set generated for the scheme `format` satisfies.
pub open spec fn generated_for(format: TextSignFormat, keys: Seq<Seq<u8>>) -> bool {
    match format {
        TextSignFormat::Blake3 => Blake3::generated(keys),
        TextSignFormat::Ed25519 => Ed25519::generated(keys),
        TextSignFormat::ChaCha20 => ChaCha20::generated(keys),
    }
}

/// Fresh key material for the scheme `format`: the keyed-hash key; the secret and
/// then the public key; the cipher key and then the nonce.
pub fn create_key(format: TextSignFormat) -> (r: Result<Vec<Vec<u8>>, RcliError>)
    ensures
        r is Ok,
        r matches Ok(k) ==> generated_for(format, keys_view(k@)),
{
    match format {
        TextSignFormat::Blake3 => Blake3::generate(),
        TextSignFormat::Ed25519 => Ed25519::generate(),
        TextSignFormat::ChaCha20 => ChaCha20::generate(),
    }
}

// ---------------------------------------------------------------------------
// Laws of the schemes.
// ---------------------------------------------------------------------------

/// Keyed hashing: the signature text made from an input and a key file verifies
/// against the same input and key file.
pub proof fn lemma_keyed_hash_sign_then_verify(input: Seq<u8>, key_file: Seq<u8>)
    requires
        key_file.len() >= 32,
    ensures
        signature_text(TextSignFormat::Blake3, input, key_file) is Ok,
        verified(
            TextSignFormat::Blake3,
            input,
            key_file,
            signature_text(TextSignFormat::Blake3, input, key_file)->Ok_0,
        ) == Ok::<bool, RcliError>(true),
{
    let sig = blake3_keyed(key_file.subrange(0, 32), input);
    lemma_round_trip(sig, true, false);
}

/// `s` with bit `bit` of its byte at `i` inverted.
pub open spec fn flip_bit(s: Seq<u8>, i: int, bit: u8) -> Seq<u8> {
    s.update(i, s[i] ^ (1u8 << bit))
}

/// Keyed hashing: a signature with any one bit flipped does not verify.
pub proof fn lemma_keyed_hash_rejects_flipped_bit(key: Seq<u8>, msg: Seq<u8>, i: int, bit: u8)
    requires
        0 <= i < blake3_keyed(key, msg).len(),
        bit < 8,
    ensures
        Blake3::verdict_of(key, msg, flip_bit(blake3_keyed(key, msg), i, bit)) == Ok::<bool, RcliError>(false),
{
    let s = blake3_keyed(key, msg);
    let b = s[i];
    assert(b ^ (1u8 << bit) != b) by (bit_vector)
        requires
            bit < 8,
    ;
    assert(flip_bit(s, i, bit)[i] != s[i]);
}

/// Asymmetric signatures: the public half of a generated key pair is determined by
/// its secret half, so deriving it again from the same secret bytes gives the same
/// public key.
pub proof fn lemma_public_key_rederived(keys: Seq<Seq<u8>>, again: Seq<u8>)
    requires
        Ed25519::generated(keys),
        again == ed25519_public_of(keys[0]),
    ensures
        again == keys[1],
{
}

/// Loading key material fails with a key length error on a key file shorter than
/// the scheme needs (32 bytes; 44 for the cipher's key and nonce), and otherwise
/// uses only the leading bytes: more bytes after them change nothing.
pub proof fn lemma_load_key_prefix(data: Seq<u8>, extra: Seq<u8>)
    ensures
        data.len() < 32 ==> Blake3::loaded_from(data) == Err::<Seq<u8>, RcliError>(RcliError::KeyLength),
        data.len() < 32 ==> Ed25519::loaded_from(data) == Err::<Seq<u8>, RcliError>(RcliError::KeyLength),
        data.len() < 44 ==> ChaCha20::loaded_from(data) == Err::<(Seq<u8>, Seq<u8>), RcliError>(
            RcliError::KeyLength,
        ),
        data.len() >= 32 ==> Blake3::loaded_from(data + extra) == Blake3::loaded_from(data)
            && Blake3::loaded_from(data) is Ok,
        data.len() >= 32 ==> Ed25519::loaded_from(data + extra) == Ed25519::loaded_from(data)
            && Ed25519::loaded_from(data) is Ok,
        data.len() >= 44 ==> ChaCha20::loaded_from(data + extra) == ChaCha20::loaded_from(data)
            && ChaCha20::loaded_from(data) is Ok,
{
    assert(data.len() >= 32 ==> (data + extra).subrange(0, 32) =~= data.subrange(0, 32));
    assert(data.len() >= 44 ==> (data + extra).subrange(32, 44) =~= data.subrange(32, 44));
}

} // verus!
