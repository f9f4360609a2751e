//! The envelope cipher: authenticated encryption of secret bytes under a
//! derived key, bound to data that travels beside the ciphertext, and the
//! wiping of buffers that held secrets.

use crate::error::{outcome, KeystoreError};
use aead::generic_array::GenericArray;
use aead::{Aead, AeadCore, OsRng, Payload};
use aes_gcm::{Aes256Gcm, KeyInit};
use rand::RngCore;
use vstd::pervasive::unreached;
use vstd::prelude::*;
use zeroize::Zeroize;

verus! {

/// Length of a cipher key in bytes.
pub const CIPHER_KEY_LEN: usize = 32;

/// Length of a nonce in bytes.
pub const NONCE_LEN: usize = 12;

/// Length of the authentication tag that ends every ciphertext.
pub const TAG_LEN: usize = 16;

/// The longest plaintext the cipher seals, in bytes.
pub const MAX_PLAINTEXT_LEN: u64 = 0x10_0000_0000;

/// The longest associated data the cipher binds, in bytes.
pub const MAX_ASSOCIATED_LEN: u64 = 0x10_0000_0000;

/// The ciphertext, tag included, that AES-256-GCM of the `aes-gcm` crate
/// gives for a plaintext under a key and nonce, with associated data.
pub uninterp spec fn aes256gcm_sealed(
    key: Seq<u8>,
    nonce: Seq<u8>,
    associated: Seq<u8>,
    plaintext: Seq<u8>,
) -> Seq<u8>;

/// The plaintext that AES-256-GCM of the `aes-gcm` crate recovers from a
/// ciphertext under a key and nonce, where the tag authenticates the
/// ciphertext together with the associated data.
pub uninterp spec fn aes256gcm_opened(
    key: Seq<u8>,
    nonce: Seq<u8>,
    associated: Seq<u8>,
    ciphertext: Seq<u8>,
) -> Option<Seq<u8>>;

/// Whether the cipher takes associated data and a plaintext of these
/// lengths.
pub open spec fn cipher_takes(associated: Seq<u8>, plaintext: Seq<u8>) -> bool {
    &&& associated.len() <= MAX_ASSOCIATED_LEN
    &&& plaintext.len() <= MAX_PLAINTEXT_LEN
}

/// `aes_gcm::Error`, which says only that the cipher refused.
#[verifier::external_type_specification]
#[verifier::external_body]
pub struct ExAeadError(aes_gcm::Error);

/// `Aes256Gcm::encrypt` on a payload with associated data: fails exactly
/// when the plaintext is longer than [`MAX_PLAINTEXT_LEN`] or the
/// associated data longer than [`MAX_ASSOCIATED_LEN`]; the ciphertext is a
/// function of key, nonce, associated data and plaintext alone, is one tag
/// longer than the plaintext, and decrypts under the same key, nonce and
/// associated data to the plaintext.
#[verifier::external_body]
pub(crate) fn aes256gcm_encrypt(
    key: &[u8],
    nonce: &[u8],
    associated: &[u8],
    plaintext: &[u8],
) -> (r: Result<Vec<u8>, aes_gcm::Error>)
    requires
        key@.len() == CIPHER_KEY_LEN,
        nonce@.len() == NONCE_LEN,
    ensures
        r is Ok <==> cipher_takes(associated@, plaintext@),
        r matches Ok(ciphertext) ==> ciphertext@ == aes256gcm_sealed(
            key@,
            nonce@,
            associated@,
            plaintext@,
        ),
        r matches Ok(ciphertext) ==> ciphertext@.len() == plaintext@.len() + TAG_LEN,
        r matches Ok(ciphertext) ==> aes256gcm_opened(key@, nonce@, associated@, ciphertext@)
            == Some(plaintext@),
{
    let cipher = Aes256Gcm::new(GenericArray::from_slice(key));
    cipher.encrypt(GenericArray::from_slice(nonce), Payload { msg: plaintext, aad: associated })
}

/// `Aes256Gcm::decrypt` on a payload with associated data: whether the tag
/// authenticates, and the plaintext then returned, are a function of key,
/// nonce, associated data and ciphertext alone; the plaintext is one tag
/// shorter than the ciphertext.
#[verifier::external_body]
pub(crate) fn aes256gcm_decrypt(
    key: &[u8],
    nonce: &[u8],
    associated: &[u8],
    ciphertext: &[u8],
) -> (r: Result<Vec<u8>, aes_gcm::Error>)
    requires
        key@.len() == CIPHER_KEY_LEN,
        nonce@.len() == NONCE_LEN,
    ensures
        r matches Ok(plaintext) ==> aes256gcm_opened(key@, nonce@, associated@, ciphertext@)
            == Some(plaintext@),
        r matches Ok(plaintext) ==> plaintext@.len() + TAG_LEN == ciphertext@.len(),
        r is Err ==> aes256gcm_opened(key@, nonce@, associated@, ciphertext@) is None,
{
    let cipher = Aes256Gcm::new(GenericArray::from_slice(key));
    cipher.decrypt(GenericArray::from_slice(nonce), Payload { msg: ciphertext, aad: associated })
}

/// `OsRng::fill_bytes` on a fresh buffer: `count` bytes from the operating
/// system's random source. Nothing is known of their values. The call
/// does not return if the source fails.
#[verifier::external_body]
pub(crate) fn random_bytes(count: usize) -> (bytes: Vec<u8>)
    ensures
        bytes@.len() == count,
{
    let mut bytes = vec![0u8; count];
    OsRng.fill_bytes(&mut bytes);
    bytes
}

/// `Aes256Gcm::generate_nonce` with the operating system's random source:
/// a nonce of [`NONCE_LEN`] bytes. Nothing is known of their values.
#[verifier::external_body]
pub(crate) fn random_nonce() -> (nonce: Vec<u8>)
    ensures
        nonce@.len() == NONCE_LEN,
{
    Aes256Gcm::generate_nonce(&mut OsRng).to_vec()
}

/// `Zeroize::zeroize` on a byte vector: the vector is empty afterwards.
/// The crate overwrites the bytes with zeros before it lets them go, which
/// no contract can show.
#[verifier::external_body]
pub(crate) fn wipe(buffer: &mut Vec<u8>)
    ensures
        final(buffer)@.len() == 0,
{
    buffer.zeroize();
}

/// Seals `plaintext` under `key` with the given nonce, and binds
/// `associated` to it: the ciphertext opens only beside the same associated
/// data. A caller must never use one nonce twice under one key.
pub fn seal(key: &[u8], nonce: &[u8], associated: &[u8], plaintext: &[u8]) -> (ciphertext: Vec<u8>)
    requires
        key@.len() == CIPHER_KEY_LEN,
        nonce@.len() == NONCE_LEN,
        associated@.len() <= MAX_ASSOCIATED_LEN,
        plaintext@.len() <= MAX_PLAINTEXT_LEN,
    ensures
        ciphertext@ == aes256gcm_sealed(key@, nonce@, associated@, plaintext@),
        ciphertext@.len() == plaintext@.len() + TAG_LEN,
        aes256gcm_opened(key@, nonce@, associated@, ciphertext@) == Some(plaintext@),
{
    match aes256gcm_encrypt(key, nonce, associated, plaintext) {
        Ok(ciphertext) => ciphertext,
        Err(_) => unreached(),
    }
}

/// Seals `plaintext` under `key` as [`seal`] does, and wipes the key: the
/// buffer that held it is empty afterwards.
pub fn seal_once(key: &mut Vec<u8>, nonce: &[u8], associated: &[u8], plaintext: &[u8]) -> (ciphertext:
    Vec<u8>)
    requires
        old(key)@.len() == CIPHER_KEY_LEN,
        nonce@.len() == NONCE_LEN,
        associated@.len() <= MAX_ASSOCIATED_LEN,
        plaintext@.len() <= MAX_PLAINTEXT_LEN,
    ensures
        final(key)@.len() == 0,
        ciphertext@ == aes256gcm_sealed(old(key)@, nonce@, associated@, plaintext@),
        ciphertext@.len() == plaintext@.len() + TAG_LEN,
        aes256gcm_opened(old(key)@, nonce@, associated@, ciphertext@) == Some(plaintext@),
{
    let ciphertext = seal(key.as_slice(), nonce, associated, plaintext);
    wipe(key);
    ciphertext
}

/// Seals `plaintext` under `key` with a nonce drawn for this call, and
/// returns the nonce with the ciphertext. Whatever nonce was drawn,
/// [`decrypt`] with it and the same associated data gives the plaintext
/// back.
pub fn encrypt(key: &[u8], associated: &[u8], plaintext: &[u8]) -> (sealed: (Vec<u8>, Vec<u8>))
    requires
        key@.len() == CIPHER_KEY_LEN,
        associated@.len() <= MAX_ASSOCIATED_LEN,
        plaintext@.len() <= MAX_PLAINTEXT_LEN,
    ensures
        sealed.0@.len() == NONCE_LEN,
        sealed.1@ == aes256gcm_sealed(key@, sealed.0@, associated@, plaintext@),
        sealed.1@.len() == plaintext@.len() + TAG_LEN,
        decryption(key@, sealed.0@, associated@, sealed.1@) == Ok::<Seq<u8>, KeystoreError>(
            plaintext@,
        ),
{
    let nonce = random_nonce();
    let ciphertext = seal(key, nonce.as_slice(), associated, plaintext);
    (nonce, ciphertext)
}

/// What [`decrypt`] returns: the plaintext where the tag authenticates
/// ciphertext and associated data, and otherwise `Unauthorized` and no byte
/// of plaintext.
pub open spec fn decryption(
    key: Seq<u8>,
    nonce: Seq<u8>,
    associated: Seq<u8>,
    ciphertext: Seq<u8>,
) -> Result<Seq<u8>, KeystoreError> {
    match aes256gcm_opened(key, nonce, associated, ciphertext) {
        Some(plaintext) => Ok(plaintext),
        None => Err(KeystoreError::Unauthorized),
    }
}

/// Opens a ciphertext beside its associated data. Any change to key,
/// nonce, associated data or ciphertext that breaks authentication gives
/// `Unauthorized`. A plaintext that is returned is one tag shorter than
/// the ciphertext.
pub fn decrypt(key: &[u8], nonce: &[u8], associated: &[u8], ciphertext: &[u8]) -> (r: Result<
    Vec<u8>,
    KeystoreError,
>)
    requires
        key@.len() == CIPHER_KEY_LEN,
        nonce@.len() == NONCE_LEN,
    ensures
        outcome(r) == decryption(key@, nonce@, associated@, ciphertext@),
        r matches Ok(plaintext) ==> plaintext@.len() + TAG_LEN == ciphertext@.len(),
{
    match aes256gcm_decrypt(key, nonce, associated, ciphertext) {
        Ok(plaintext) => Ok(plaintext),
        Err(_) => Err(KeystoreError::Unauthorized),
    }
}

/// Opens a ciphertext as [`decrypt`] does, and wipes the key whether or
/// not the cipher authenticates: the buffer that held it is empty
/// afterwards.
pub fn open_once(key: &mut Vec<u8>, nonce: &[u8], associated: &[u8], ciphertext: &[u8]) -> (r:
    Result<Vec<u8>, KeystoreError>)
    requires
        old(key)@.len() == CIPHER_KEY_LEN,
        nonce@.len() == NONCE_LEN,
    ensures
        final(key)@.len() == 0,
        outcome(r) == decryption(old(key)@, nonce@, associated@, ciphertext@),
        r matches Ok(plaintext) ==> plaintext@.len() + TAG_LEN == ciphertext@.len(),
{
    let opened = decrypt(key.as_slice(), nonce, associated, ciphertext);
    wipe(key);
    opened
}

} // verus!
