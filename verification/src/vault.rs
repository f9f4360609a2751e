//! Sealing a secret key into a keyfile under a password and opening it
//! again, and the wallet operations on a single keyfile.

use crate::address::{address_from_pubkey, address_text};
use crate::cipher::{
    aes256gcm_sealed, decryption, open_once, random_bytes, random_nonce, seal_once, wipe,
    MAX_PLAINTEXT_LEN, NONCE_LEN, TAG_LEN,
};
use crate::encoding::{base64_len, hex_text, is_base64_text};
use crate::error::{optional_outcome, outcome, KeystoreError};
use crate::kdf::{derive_key, derived_key, password_fits, salt_fits};
use crate::keyfile::{
    bound, bound_data, decode, decoded, encode, encoded, kdf_name, public_key, public_key_of,
    shaped, EncryptedKeyfile, KdfId, KeyfileText, SealedKey, SealedKeyBytes,
};
use crate::scheme::{generate_keypair, sign_once, verify_message, Scheme};
use vstd::prelude::*;
use vstd::slice::slice_to_vec;

verus! {

/// Length of the salt drawn for every new keyfile.
pub const SALT_LEN: usize = 16;

/// The longest public key a keyfile can bind to its ciphertext, in bytes.
pub const MAX_PUBLIC_KEY_LEN: u64 = 0xF_FFFF_FFF8;

/// The sealed key that holds `secret` under `password` with the given salt
/// and nonce. The ciphertext is bound to the key derivation and to the
/// public key, so that it opens only beside them.
pub open spec fn sealed_with(
    public: Seq<u8>,
    secret: Seq<u8>,
    password: Seq<char>,
    salt: Seq<u8>,
    nonce: Seq<u8>,
) -> SealedKeyBytes {
    SealedKeyBytes {
        kdf: KdfId::Argon2id,
        salt,
        nonce,
        ciphertext: aes256gcm_sealed(
            derived_key(password, salt),
            nonce,
            bound_data(KdfId::Argon2id, public),
            secret,
        ),
        public_key: public,
    }
}

/// What opening a keyfile with a password gives: a keyfile that does not
/// decode is a `FormatError`; one that decodes gives the secret where the
/// cipher authenticates the stored ciphertext, beside the stored key
/// derivation and public key, under the key derived from the password and
/// the stored salt, and `Unauthorized` where it does not. Every field of
/// the keyfile enters the result.
pub open spec fn unlocked(text: KeyfileText, password: Seq<char>) -> Result<
    Seq<u8>,
    KeystoreError,
> {
    match decoded(text) {
        Ok(key) => decryption(
            derived_key(password, key.salt),
            key.nonce,
            bound_data(key.kdf, key.public_key),
            key.ciphertext,
        ),
        Err(e) => Err(e),
    }
}

/// A keyfile that decodes is never reported as malformed, whatever the
/// password: opening it gives the secret or `Unauthorized`.
pub proof fn lemma_wrong_password_is_unauthorized(text: KeyfileText, password: Seq<char>)
    requires
        decoded(text) is Ok,
    ensures
        unlocked(text, password) is Err ==> unlocked(text, password) == Err::<
            Seq<u8>,
            KeystoreError,
        >(KeystoreError::Unauthorized),
{
}

/// Opening a keyfile fails in two ways only.
pub proof fn lemma_unlock_failures(text: KeyfileText, password: Seq<char>)
    ensures
        unlocked(text, password) matches Err(e) ==> e == KeystoreError::FormatError || e
            == KeystoreError::Unauthorized,
        unlocked(text, password) == Err::<Seq<u8>, KeystoreError>(KeystoreError::FormatError)
            <==> decoded(text) is Err,
{
}

/// Seals `secret` under `password` with the salt and nonce given, binds
/// the ciphertext to the public key, and encodes the result. Opening the
/// keyfile with the same password gives `secret` back.
pub fn encrypt_secret_with(
    public: &[u8],
    secret: &[u8],
    password: &str,
    salt: &[u8],
    nonce: &[u8],
) -> (keyfile: EncryptedKeyfile)
    requires
        password_fits(password@),
        salt_fits(salt@),
        nonce@.len() == NONCE_LEN,
        secret@.len() <= MAX_PLAINTEXT_LEN,
        public@.len() <= MAX_PUBLIC_KEY_LEN,
    ensures
        keyfile@ == encoded(sealed_with(public@, secret@, password@, salt@, nonce@)),
        shaped(keyfile@, sealed_with(public@, secret@, password@, salt@, nonce@)),
        sealed_with(public@, secret@, password@, salt@, nonce@).ciphertext.len() == secret@.len()
            + TAG_LEN,
        decoded(keyfile@) == Ok::<SealedKeyBytes, KeystoreError>(
            sealed_with(public@, secret@, password@, salt@, nonce@),
        ),
        unlocked(keyfile@, password@) == Ok::<Seq<u8>, KeystoreError>(secret@),
{
    let mut key = derive_key(password, salt);
    let beside = bound(KdfId::Argon2id, public);
    let ciphertext = seal_once(&mut key, nonce, beside.as_slice(), secret);
    let sealed = SealedKey {
        kdf: KdfId::Argon2id,
        salt: slice_to_vec(salt),
        nonce: slice_to_vec(nonce),
        ciphertext,
        public_key: slice_to_vec(public),
    };
    proof {
        assert(sealed@ =~= sealed_with(public@, secret@, password@, salt@, nonce@));
    }
    encode(&sealed)
}

/// Seals `secret` under `password` with a salt and a nonce drawn for this
/// call. Whatever was drawn, the keyfile is the encoding of the sealed
/// key, decodes, names `public`, opens to `secret` with `password`, and
/// with any other password opens or is refused as `Unauthorized`, never as
/// malformed.
pub fn encrypt_secret(public: &[u8], secret: &[u8], password: &str) -> (keyfile: EncryptedKeyfile)
    requires
        password_fits(password@),
        secret@.len() <= MAX_PLAINTEXT_LEN,
        public@.len() <= MAX_PUBLIC_KEY_LEN,
    ensures
        exists|salt: Seq<u8>, nonce: Seq<u8>|
            salt.len() == SALT_LEN && nonce.len() == NONCE_LEN && is_sealing(
                keyfile@,
                #[trigger] sealed_with(public@, secret@, password@, salt, nonce),
                secret@,
            ),
        keyfile@.kdf == kdf_name(KdfId::Argon2id),
        keyfile@.public_hex == hex_text(public@),
        keyfile@.salt_b64.len() == base64_len(SALT_LEN as nat),
        keyfile@.nonce_b64.len() == base64_len(NONCE_LEN as nat),
        keyfile@.ct_b64.len() == base64_len(secret@.len() + TAG_LEN as nat),
        is_base64_text(keyfile@.salt_b64),
        is_base64_text(keyfile@.nonce_b64),
        is_base64_text(keyfile@.ct_b64),
        public_key_of(keyfile@) == Ok::<Seq<u8>, KeystoreError>(public@),
        unlocked(keyfile@, password@) == Ok::<Seq<u8>, KeystoreError>(secret@),
        forall|other: Seq<char>| #[trigger]
            unlocked(keyfile@, other) is Err ==> unlocked(keyfile@, other) == Err::<
                Seq<u8>,
                KeystoreError,
            >(KeystoreError::Unauthorized),
{
    let salt = random_bytes(SALT_LEN);
    let nonce = random_nonce();
    let keyfile = encrypt_secret_with(public, secret, password, salt.as_slice(), nonce.as_slice());
    proof {
        assert(is_sealing(
            keyfile@,
            sealed_with(public@, secret@, password@, salt@, nonce@),
            secret@,
        ));
    }
    keyfile
}

/// Whether `text` is the keyfile of the sealed key `sealed`, which holds
/// `secret`: it is its encoding, field by field, and decodes to it, and the
/// ciphertext is one tag longer than the secret.
pub open spec fn is_sealing(text: KeyfileText, sealed: SealedKeyBytes, secret: Seq<u8>) -> bool {
    &&& text == encoded(sealed)
    &&& shaped(text, sealed)
    &&& decoded(text) == Ok::<SealedKeyBytes, KeystoreError>(sealed)
    &&& sealed.ciphertext.len() == secret.len() + TAG_LEN
}

/// Opens a keyfile with a password: decodes it, derives the key from the
/// password and the stored salt, and decrypts beside the stored key
/// derivation and public key. The derived key is wiped before returning, on
/// success and on failure alike. A secret that is returned is one tag
/// shorter than the stored ciphertext.
pub fn decrypt_secret(ek: &EncryptedKeyfile, password: &str) -> (r: Result<Vec<u8>, KeystoreError>)
    requires
        password_fits(password@),
    ensures
        outcome(r) == unlocked(ek@, password@),
        r matches Ok(secret) ==> secret@.len() + TAG_LEN == decoded(ek@)->Ok_0.ciphertext.len(),
{
    let sealed = match decode(ek) {
        Ok(sealed) => sealed,
        Err(e) => return Err(e),
    };
    let mut key = derive_key(password, sealed.salt.as_slice());
    let beside = bound(sealed.kdf, sealed.public_key.as_slice());
    open_once(
        &mut key,
        sealed.nonce.as_slice(),
        beside.as_slice(),
        sealed.ciphertext.as_slice(),
    )
}

/// The address of the wallet a keyfile belongs to.
pub open spec fn keyfile_address(text: KeyfileText) -> Result<Seq<char>, KeystoreError> {
    match public_key_of(text) {
        Ok(public) => Ok(address_text(public)),
        Err(e) => Err(e),
    }
}

/// What signing a message with a keyfile gives: the failure of opening the
/// keyfile if it does not open, `SchemeError` if the secret it holds is no
/// secret key of the scheme, and else the signed message.
pub open spec fn keyfile_signed(
    scheme: Scheme,
    text: KeyfileText,
    password: Seq<char>,
    message: Seq<u8>,
) -> Result<Seq<u8>, KeystoreError> {
    match unlocked(text, password) {
        Ok(secret) => if secret.len() == scheme.secret_key_len() {
            Ok(scheme.signed(secret, message))
        } else {
            Err(KeystoreError::SchemeError)
        },
        Err(e) => Err(e),
    }
}

/// What verifying a signed message with a keyfile gives: the recovered
/// message, or nothing where the signature is not valid. A mismatch is not
/// a failure; only a public key that does not decode is.
pub open spec fn keyfile_verified(scheme: Scheme, text: KeyfileText, signed: Seq<u8>) -> Result<
    Option<Seq<u8>>,
    KeystoreError,
> {
    match public_key_of(text) {
        Ok(public) => Ok(scheme.opened(public, signed)),
        Err(e) => Err(e),
    }
}

/// A freshly created wallet: its keyfile and its address.
pub struct NewWallet {
    pub keyfile: EncryptedKeyfile,
    pub address: String,
}

/// Whether `keyfile` and `address` are what creating a wallet with
/// `password` may give: the keyfile decodes, the address is that of the
/// public key it names, and `password` opens it to the secret key that
/// belongs to that public key.
pub open spec fn is_new_wallet(
    scheme: Scheme,
    password: Seq<char>,
    keyfile: KeyfileText,
    address: Seq<char>,
) -> bool {
    &&& decoded(keyfile) is Ok
    &&& keyfile_address(keyfile) == Ok::<Seq<char>, KeystoreError>(address)
    &&& unlocked(keyfile, password) is Ok
    &&& scheme.is_keypair(public_key_of(keyfile)->Ok_0, unlocked(keyfile, password)->Ok_0)
}

/// Creates a wallet: generates a key pair, derives the address from the
/// public key, and seals the secret key under `password`. The plain secret
/// key is wiped before returning.
pub fn new_wallet(scheme: Scheme, password: &str) -> (wallet: NewWallet)
    requires
        password_fits(password@),
    ensures
        is_new_wallet(scheme, password@, wallet.keyfile@, wallet.address@),
{
    let pair = generate_keypair(scheme);
    let public = pair.public;
    let mut secret = pair.secret;
    let keyfile = encrypt_secret(public.as_slice(), secret.as_slice(), password);
    wipe(&mut secret);
    let address = address_from_pubkey(public.as_slice());
    NewWallet { keyfile, address }
}

/// Derives the address of the wallet a keyfile belongs to. No password is
/// needed. Fails with `FormatError` exactly when the public key field is
/// not hexadecimal.
pub fn get_address(keyfile: &EncryptedKeyfile) -> (r: Result<String, KeystoreError>)
    ensures
        outcome(r) == keyfile_address(keyfile@),
{
    match public_key(keyfile) {
        Ok(public) => Ok(address_from_pubkey(public.as_slice())),
        Err(e) => Err(e),
    }
}

/// Signs `message` with the secret key a keyfile holds: opens the keyfile
/// with `password`, signs, and wipes the secret key before returning.
/// Every public key that belongs to the secret key recovers `message`
/// from the result.
pub fn sign_with_keyfile(
    scheme: Scheme,
    keyfile: &EncryptedKeyfile,
    password: &str,
    message: &[u8],
) -> (r: Result<Vec<u8>, KeystoreError>)
    requires
        password_fits(password@),
    ensures
        outcome(r) == keyfile_signed(scheme, keyfile@, password@, message@),
        r matches Ok(signed) ==> signed@.len() == scheme.signature_len() + message@.len(),
        r matches Ok(signed) ==> signed@.skip(scheme.signature_len() as int) == message@,
        r matches Ok(signed) ==> scheme.recovers(
            unlocked(keyfile@, password@)->Ok_0,
            signed@,
            message@,
        ),
{
    let mut secret = match decrypt_secret(keyfile, password) {
        Ok(secret) => secret,
        Err(e) => return Err(e),
    };
    sign_once(scheme, &mut secret, message)
}

/// Verifies a signed message under the public key a keyfile names.
pub fn verify_with_keyfile(scheme: Scheme, keyfile: &EncryptedKeyfile, signed: &[u8]) -> (r:
    Result<Option<Vec<u8>>, KeystoreError>)
    ensures
        optional_outcome(r) == keyfile_verified(scheme, keyfile@, signed@),
{
    match public_key(keyfile) {
        Ok(public) => Ok(verify_message(scheme, public.as_slice(), signed)),
        Err(e) => Err(e),
    }
}

} // verus!
