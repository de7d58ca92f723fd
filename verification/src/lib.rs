//! Packing engine of the Playfair script protector: the container format,
//! the cipher pipeline, the key derivation and the nonce-bound exchange by
//! which a passphrase is fetched from a key server.
//!
//! Every function here works on byte buffers. Files, the network and the
//! build-time secrets are the caller's business: the secrets come in as a
//! [`Secrets`] value, and the round trip to the key server happens between
//! [`unpack_request`] and [`unpack_with_response`].

pub mod cipher;
pub mod container;
mod entropy;
pub mod error;
pub mod hexcode;
pub mod kdf;
pub mod loader;
pub mod mixer;
pub mod retrieval;
pub mod secrets;
pub mod sizing;

pub use cipher::{decrypt, encrypt, encrypt_with};
pub use container::{pack, pack_with, unpack, unpack_request, unpack_with_response};
pub use error::PlayfairError;
pub use kdf::derive_key;
pub use loader::{relative_import, rewrite_import, wrapper_is_genuine};
pub use mixer::xor;
pub use retrieval::{key_from_response, key_request, key_request_with, recover_key, response_tag, KeyRequest};
pub use secrets::Secrets;
pub use sizing::get_encrypted_size;
