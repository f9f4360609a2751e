//! The classical fallback scheme: Ed25519, with signed messages framed as
//! the signature followed by the message.

use crate::error::{optional, KeystoreError};
use ed25519_dalek::{Signature, Signer, SigningKey, Verifier, VerifyingKey};
use rand_core::OsRng;
use vstd::prelude::*;
use vstd::slice::slice_to_vec;

verus! {

/// Length of an Ed25519 secret key in bytes.
pub const ED25519_SECRET_KEY_LEN: usize = 32;

/// Length of an Ed25519 public key in bytes.
pub const ED25519_PUBLIC_KEY_LEN: usize = 32;

/// Length of an Ed25519 signature in bytes.
pub const ED25519_SIGNATURE_LEN: usize = 64;

/// The public key that `ed25519-dalek` derives from a 32-byte secret key.
pub uninterp spec fn ed25519_public_key(secret: Seq<u8>) -> Seq<u8>;

/// The signature that `ed25519-dalek` computes on a message with a 32-byte
/// secret key.
pub uninterp spec fn ed25519_signature(secret: Seq<u8>, message: Seq<u8>) -> Seq<u8>;

/// Whether `ed25519-dalek` parses `public` as a key and `signature` as a
/// signature, and the key accepts the signature on `message`.
pub uninterp spec fn ed25519_verifies(
    public: Seq<u8>,
    message: Seq<u8>,
    signature: Seq<u8>,
) -> bool;

/// `ed25519_dalek::SignatureError`, carried opaquely to the caller.
#[verifier::external_type_specification]
#[verifier::external_body]
pub struct ExSignatureError(ed25519_dalek::SignatureError);

/// `SigningKey::generate` with the operating system's random source, then
/// `VerifyingKey::from`: both keys are 32 bytes, and the public key is the
/// one derived from the secret key. Nothing else is known of the secret.
#[verifier::external_body]
pub(crate) fn ed25519_generate() -> (pair: (Vec<u8>, Vec<u8>))
    ensures
        pair.0@.len() == ED25519_PUBLIC_KEY_LEN,
        pair.1@.len() == ED25519_SECRET_KEY_LEN,
        pair.0@ == ed25519_public_key(pair.1@),
{
    let secret = SigningKey::generate(&mut OsRng);
    let public = VerifyingKey::from(&secret);
    (public.to_bytes().to_vec(), secret.to_bytes().to_vec())
}

/// `SigningKey::try_from` a byte slice, then `Signer::sign`: fails exactly
/// when the secret is not 32 bytes; the signature is a function of secret
/// and message alone, is 64 bytes, and is accepted on that message by the
/// public key derived from the secret.
#[verifier::external_body]
pub(crate) fn ed25519_sign(secret: &[u8], message: &[u8]) -> (r: Result<
    Vec<u8>,
    ed25519_dalek::SignatureError,
>)
    ensures
        r is Ok <==> secret@.len() == ED25519_SECRET_KEY_LEN,
        r matches Ok(signature) ==> signature@ == ed25519_signature(secret@, message@),
        r matches Ok(signature) ==> signature@.len() == ED25519_SIGNATURE_LEN,
        r matches Ok(signature) ==> ed25519_verifies(
            ed25519_public_key(secret@),
            message@,
            signature@,
        ),
{
    let key = SigningKey::try_from(secret)?;
    Ok(key.sign(message).to_bytes().to_vec())
}

/// `VerifyingKey::try_from` and `Signature::from_slice` on byte slices,
/// then `Verifier::verify`: whether all three succeed is a function of the
/// three arguments alone, and they succeed only on a key of 32 bytes and a
/// signature of 64.
#[verifier::external_body]
pub(crate) fn ed25519_verify(public: &[u8], message: &[u8], signature: &[u8]) -> (r: Result<
    (),
    ed25519_dalek::SignatureError,
>)
    ensures
        r is Ok <==> ed25519_verifies(public@, message@, signature@),
        r is Ok ==> public@.len() == ED25519_PUBLIC_KEY_LEN,
        r is Ok ==> signature@.len() == ED25519_SIGNATURE_LEN,
{
    let key = VerifyingKey::try_from(public)?;
    let signature = Signature::from_slice(signature)?;
    key.verify(message, &signature)
}

/// Whether `public` is the public key that belongs to `secret`.
pub open spec fn ed25519_pair(public: Seq<u8>, secret: Seq<u8>) -> bool {
    &&& secret.len() == ED25519_SECRET_KEY_LEN
    &&& public.len() == ED25519_PUBLIC_KEY_LEN
    &&& public == ed25519_public_key(secret)
}

/// The signed message for `message` under `secret`: the signature, then
/// the message itself.
pub open spec fn ed25519_signed(secret: Seq<u8>, message: Seq<u8>) -> Seq<u8> {
    ed25519_signature(secret, message) + message
}

/// The message that a signed message carries, if `public` has the length
/// of a public key and the first 64 bytes are a signature on the rest that
/// it accepts.
pub open spec fn ed25519_opened(public: Seq<u8>, signed: Seq<u8>) -> Option<Seq<u8>> {
    if public.len() == ED25519_PUBLIC_KEY_LEN && signed.len() >= ED25519_SIGNATURE_LEN
        && ed25519_verifies(
        public,
        signed.skip(ED25519_SIGNATURE_LEN as int),
        signed.take(ED25519_SIGNATURE_LEN as int),
    ) {
        Some(signed.skip(ED25519_SIGNATURE_LEN as int))
    } else {
        None
    }
}

/// Generates a fresh key pair, public key first. Whatever was drawn, the
/// two keys belong together.
pub fn keypair() -> (pair: (Vec<u8>, Vec<u8>))
    ensures
        ed25519_pair(pair.0@, pair.1@),
        pair.0@.len() == ED25519_PUBLIC_KEY_LEN,
{
    ed25519_generate()
}

/// Signs `msg` with the secret key `sk_bytes`. Fails with `SchemeError`
/// exactly when the key is not 32 bytes. The signed message is the
/// signature followed by `msg`, and opens to `msg` under every public key
/// that belongs to the secret key.
pub fn sign(msg: &[u8], sk_bytes: &[u8]) -> (r: Result<Vec<u8>, KeystoreError>)
    ensures
        r is Ok <==> sk_bytes@.len() == ED25519_SECRET_KEY_LEN,
        r matches Err(e) ==> e == KeystoreError::SchemeError,
        r matches Ok(signed) ==> signed@ == ed25519_signed(sk_bytes@, msg@),
        r matches Ok(signed) ==> signed@.len() == ED25519_SIGNATURE_LEN + msg@.len(),
        r matches Ok(signed) ==> signed@.skip(ED25519_SIGNATURE_LEN as int) == msg@,
        r matches Ok(signed) ==> forall|public: Seq<u8>| #[trigger]
            ed25519_pair(public, sk_bytes@) ==> ed25519_opened(public, signed@) == Some(msg@),
{
    match ed25519_sign(sk_bytes, msg) {
        Ok(signature) => {
            let mut signed = signature;
            signed.extend_from_slice(msg);
            proof {
                let sig = ed25519_signature(sk_bytes@, msg@);
                assert(signed@ =~= sig + msg@);
                assert(signed@.skip(ED25519_SIGNATURE_LEN as int) =~= msg@);
                assert(signed@.take(ED25519_SIGNATURE_LEN as int) =~= sig);
            }
            Ok(signed)
        },
        Err(_) => Err(KeystoreError::SchemeError),
    }
}

/// Opens a signed message under the public key `pk_bytes`: returns the
/// message exactly when the leading signature is valid for it, and nothing
/// for an input under 64 bytes, a key that is not 32 bytes or is
/// malformed, or a mismatch.
pub fn open(signed: &[u8], pk_bytes: &[u8]) -> (r: Option<Vec<u8>>)
    ensures
        optional(r) == ed25519_opened(pk_bytes@, signed@),
{
    if signed.len() < ED25519_SIGNATURE_LEN {
        return None;
    }
    let (signature, message) = signed.split_at(ED25519_SIGNATURE_LEN);
    match ed25519_verify(pk_bytes, message, signature) {
        Ok(_) => {
            let message = slice_to_vec(message);
            proof {
                assert(message@ =~= signed@.skip(ED25519_SIGNATURE_LEN as int));
                assert(signature@ =~= signed@.take(ED25519_SIGNATURE_LEN as int));
            }
            Some(message)
        },
        Err(_) => {
            proof {
                assert(message@ =~= signed@.skip(ED25519_SIGNATURE_LEN as int));
                assert(signature@ =~= signed@.take(ED25519_SIGNATURE_LEN as int));
            }
            None
        },
    }
}

} // verus!
