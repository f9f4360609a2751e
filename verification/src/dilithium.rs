//! The post-quantum scheme: Dilithium3, whose signed messages carry the
//! message after a signature of fixed length.

use pqcrypto_dilithium::dilithium3;
use pqcrypto_traits::sign::{PublicKey, SecretKey, SignedMessage};
use vstd::prelude::*;

verus! {

/// Length of a Dilithium3 public key in bytes.
pub const DILITHIUM3_PUBLIC_KEY_LEN: usize = 1952;

/// Length of a Dilithium3 secret key in bytes.
pub const DILITHIUM3_SECRET_KEY_LEN: usize = 4032;

/// Length of the signature that begins a Dilithium3 signed message.
pub const DILITHIUM3_SIGNATURE_LEN: usize = 3309;

/// The signed message that `pqcrypto-dilithium` produces for a message
/// with a Dilithium3 secret key.
pub uninterp spec fn dilithium3_signed(secret: Seq<u8>, message: Seq<u8>) -> Seq<u8>;

/// Whether `pqcrypto-dilithium` parses `public` as a Dilithium3 key and
/// opens `signed` under it.
pub uninterp spec fn dilithium3_verifies(public: Seq<u8>, signed: Seq<u8>) -> bool;

/// Whether `public` opens every message that `secret` signs.
pub open spec fn dilithium3_pair(public: Seq<u8>, secret: Seq<u8>) -> bool {
    &&& public.len() == DILITHIUM3_PUBLIC_KEY_LEN
    &&& secret.len() == DILITHIUM3_SECRET_KEY_LEN
    &&& forall|message: Seq<u8>|
        dilithium3_verifies(public, #[trigger] dilithium3_signed(secret, message))
}

/// The message that a signed message carries, if it is long enough to
/// hold a signature and `public` opens it.
pub open spec fn dilithium3_opened(public: Seq<u8>, signed: Seq<u8>) -> Option<Seq<u8>> {
    if public.len() == DILITHIUM3_PUBLIC_KEY_LEN && signed.len() >= DILITHIUM3_SIGNATURE_LEN
        && dilithium3_verifies(public, signed) {
        Some(signed.skip(DILITHIUM3_SIGNATURE_LEN as int))
    } else {
        None
    }
}

/// `pqcrypto_traits::Error`, which reports a key of the wrong length.
#[verifier::external_type_specification]
#[verifier::external_body]
pub struct ExKeyLengthError(pqcrypto_traits::Error);

/// `dilithium3::keypair`: the keys have the scheme's lengths, and the
/// public key opens every message signed with the secret key. Nothing else
/// is known of them.
#[verifier::external_body]
pub(crate) fn dilithium3_generate() -> (pair: (Vec<u8>, Vec<u8>))
    ensures
        dilithium3_pair(pair.0@, pair.1@),
{
    let (public, secret) = dilithium3::keypair();
    (public.as_bytes().to_vec(), secret.as_bytes().to_vec())
}

/// `SecretKey::from_bytes`, then `dilithium3::sign`: fails exactly when
/// the secret does not have the scheme's length; the signed message is a
/// function of secret and message alone, and is the message behind a
/// signature of fixed length.
#[verifier::external_body]
pub(crate) fn dilithium3_sign(secret: &[u8], message: &[u8]) -> (r: Result<
    Vec<u8>,
    pqcrypto_traits::Error,
>)
    ensures
        r is Ok <==> secret@.len() == DILITHIUM3_SECRET_KEY_LEN,
        r matches Ok(signed) ==> signed@ == dilithium3_signed(secret@, message@),
        r matches Ok(signed) ==> signed@.len() == DILITHIUM3_SIGNATURE_LEN + message@.len(),
        r matches Ok(signed) ==> signed@.skip(DILITHIUM3_SIGNATURE_LEN as int) == message@,
{
    let key = dilithium3::SecretKey::from_bytes(secret)?;
    Ok(dilithium3::sign(message, &key).as_bytes().to_vec())
}

/// `PublicKey::from_bytes` and `SignedMessage::from_bytes`, then
/// `dilithium3::open`: whether they succeed is a function of the two
/// arguments alone; they succeed only on a key of the scheme's length and
/// an input that holds a whole signature, and the message returned is what
/// follows the signature.
#[verifier::external_body]
pub(crate) fn dilithium3_open(public: &[u8], signed: &[u8]) -> (r: Option<Vec<u8>>)
    ensures
        r is Some <==> dilithium3_verifies(public@, signed@),
        r matches Some(message) ==> public@.len() == DILITHIUM3_PUBLIC_KEY_LEN,
        r matches Some(message) ==> signed@.len() >= DILITHIUM3_SIGNATURE_LEN,
        r matches Some(message) ==> message@ == signed@.skip(DILITHIUM3_SIGNATURE_LEN as int),
{
    let key = dilithium3::PublicKey::from_bytes(public).ok()?;
    let signed = dilithium3::SignedMessage::from_bytes(signed).ok()?;
    dilithium3::open(&signed, &key).ok()
}

} // verus!
