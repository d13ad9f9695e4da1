pub mod b64;
pub mod crypto;
pub mod gen_pass;
pub mod text;

pub use b64::{process_decode, process_encode};
pub use gen_pass::process_gen_pass;
pub use text::{
    create_key, process_sign, process_verify, Blake3, ChaCha20, Ed25519, KeyGenerator, KeyLoader,
    TextSign, TextVerify,
};
