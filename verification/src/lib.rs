//! A password-protected keystore for a post-quantum signature identity.
//!
//! A wallet is a key pair of the deployment's signature scheme. Its public
//! key gives its address; its secret key is kept only sealed, in a keyfile,
//! under a key derived from a password. Signing opens the keyfile for the
//! length of one call.

pub mod address;
pub mod cipher;
pub mod dilithium;
pub mod ed25519;
pub mod encoding;
pub mod error;
pub mod kdf;
pub mod keyfile;
pub mod scheme;
pub mod store;
pub mod vault;

pub use address::address_from_pubkey;
pub use ed25519::{keypair, open, sign};
pub use error::KeystoreError;
pub use keyfile::{EncryptedKeyfile, SealedKey};
pub use scheme::{
    generate_dilithium3, generate_keypair, sign_message, verify_message, DilithiumKeypair, Scheme,
};
pub use store::Keystore;
pub use vault::{decrypt_secret, encrypt_secret};
