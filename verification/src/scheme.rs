//! The signature scheme of a deployment: key generation, signing and
//! verification, over whichever variant is active.

use crate::cipher::wipe;
use crate::dilithium::{
    dilithium3_generate, dilithium3_open, dilithium3_opened, dilithium3_pair, dilithium3_sign,
    dilithium3_signed, DILITHIUM3_PUBLIC_KEY_LEN, DILITHIUM3_SECRET_KEY_LEN,
    DILITHIUM3_SIGNATURE_LEN,
};
use crate::ed25519::{
    ed25519_opened, ed25519_pair, ed25519_signed, keypair, open, sign, ED25519_PUBLIC_KEY_LEN,
    ED25519_SECRET_KEY_LEN, ED25519_SIGNATURE_LEN,
};
use crate::error::{optional, KeystoreError};
use vstd::prelude::*;
use vstd::slice::slice_to_vec;
use vstd::string::StringExecFns;

verus! {

/// The signature scheme a deployment runs. Keys and signed messages of one
/// variant mean nothing to the other.
#[derive(Clone, Copy, Debug, PartialEq, Eq, Structural)]
pub enum Scheme {
    /// The post-quantum primary.
    Dilithium3,
    /// The classical fallback.
    Ed25519,
}

/// A public key with the secret key it belongs to.
#[derive(Clone)]
pub struct DilithiumKeypair {
    pub public: Vec<u8>,
    pub secret: Vec<u8>,
}

impl Scheme {
    /// The identifier by which a deployment's configuration names this
    /// scheme.
    pub open spec fn name(self) -> Seq<char> {
        match self {
            Scheme::Dilithium3 => "dilithium3"@,
            Scheme::Ed25519 => "ed25519"@,
        }
    }

    /// The scheme that an identifier names, if it names one.
    pub open spec fn named(name: Seq<char>) -> Option<Scheme> {
        if name == "dilithium3"@ {
            Some(Scheme::Dilithium3)
        } else if name == "ed25519"@ {
            Some(Scheme::Ed25519)
        } else {
            None
        }
    }

    /// Writes the identifier of this scheme. Reading it gives the scheme
    /// back.
    pub fn label(self) -> (name: String)
        ensures
            name@ == self.name(),
            Scheme::named(name@) == Some(self),
    {
        proof {
            reveal_strlit("dilithium3");
            reveal_strlit("ed25519");
        }
        match self {
            Scheme::Dilithium3 => String::from_str("dilithium3"),
            Scheme::Ed25519 => String::from_str("ed25519"),
        }
    }

    /// Reads the identifier of a scheme.
    pub fn parse(name: &str) -> (scheme: Option<Scheme>)
        ensures
            scheme == Scheme::named(name@),
    {
        let given = String::from_str(name);
        if given == String::from_str("dilithium3") {
            Some(Scheme::Dilithium3)
        } else if given == String::from_str("ed25519") {
            Some(Scheme::Ed25519)
        } else {
            None
        }
    }

    /// The length of this scheme's secret keys.
    pub open spec fn secret_key_len(self) -> nat {
        match self {
            Scheme::Dilithium3 => DILITHIUM3_SECRET_KEY_LEN as nat,
            Scheme::Ed25519 => ED25519_SECRET_KEY_LEN as nat,
        }
    }

    /// The length of this scheme's public keys.
    pub open spec fn public_key_len(self) -> nat {
        match self {
            Scheme::Dilithium3 => DILITHIUM3_PUBLIC_KEY_LEN as nat,
            Scheme::Ed25519 => ED25519_PUBLIC_KEY_LEN as nat,
        }
    }

    /// The length of the signature that begins every signed message of
    /// this scheme.
    pub open spec fn signature_len(self) -> nat {
        match self {
            Scheme::Dilithium3 => DILITHIUM3_SIGNATURE_LEN as nat,
            Scheme::Ed25519 => ED25519_SIGNATURE_LEN as nat,
        }
    }

    /// Whether `public` and `secret` belong together: `secret` is a secret
    /// key of this scheme, and `public` is its public key.
    pub open spec fn is_keypair(self, public: Seq<u8>, secret: Seq<u8>) -> bool {
        match self {
            Scheme::Dilithium3 => dilithium3_pair(public, secret),
            Scheme::Ed25519 => ed25519_pair(public, secret),
        }
    }

    /// The signed message for `message` under `secret`.
    pub open spec fn signed(self, secret: Seq<u8>, message: Seq<u8>) -> Seq<u8> {
        match self {
            Scheme::Dilithium3 => dilithium3_signed(secret, message),
            Scheme::Ed25519 => ed25519_signed(secret, message),
        }
    }

    /// Whether every public key that belongs to `secret` recovers
    /// `message` from `signed`.
    pub open spec fn recovers(self, secret: Seq<u8>, signed: Seq<u8>, message: Seq<u8>) -> bool {
        forall|public: Seq<u8>| #[trigger]
            self.is_keypair(public, secret) ==> self.opened(public, signed) == Some(message)
    }

    /// The message recovered from `signed` under `public`, if the
    /// signature is valid.
    pub open spec fn opened(self, public: Seq<u8>, signed: Seq<u8>) -> Option<Seq<u8>> {
        match self {
            Scheme::Dilithium3 => dilithium3_opened(public, signed),
            Scheme::Ed25519 => ed25519_opened(public, signed),
        }
    }
}

/// Generates a fresh Dilithium3 key pair. Whatever was drawn, the public
/// key opens every message the secret key signs.
pub fn generate_dilithium3() -> (pair: DilithiumKeypair)
    ensures
        Scheme::Dilithium3.is_keypair(pair.public@, pair.secret@),
{
    let (public, secret) = dilithium3_generate();
    DilithiumKeypair { public, secret }
}

/// Generates a fresh key pair of `scheme`.
pub fn generate_keypair(scheme: Scheme) -> (pair: DilithiumKeypair)
    ensures
        scheme.is_keypair(pair.public@, pair.secret@),
        pair.public@.len() == scheme.public_key_len(),
        pair.secret@.len() == scheme.secret_key_len(),
{
    match scheme {
        Scheme::Dilithium3 => generate_dilithium3(),
        Scheme::Ed25519 => {
            let (public, secret) = keypair();
            DilithiumKeypair { public, secret }
        },
    }
}

/// Signs `msg` with `secret`. Fails with `SchemeError` exactly when
/// `secret` has not the length of the scheme's secret keys. The signed
/// message is a signature of the scheme's length followed by `msg`, and
/// every public key that belongs to `secret` recovers `msg` from it.
pub fn sign_message(scheme: Scheme, secret: &[u8], msg: &[u8]) -> (r: Result<
    Vec<u8>,
    KeystoreError,
>)
    ensures
        r is Ok <==> secret@.len() == scheme.secret_key_len(),
        r matches Err(e) ==> e == KeystoreError::SchemeError,
        r matches Ok(signed) ==> signed@ == scheme.signed(secret@, msg@),
        r matches Ok(signed) ==> signed@.len() == scheme.signature_len() + msg@.len(),
        r matches Ok(signed) ==> signed@.skip(scheme.signature_len() as int) == msg@,
        r matches Ok(signed) ==> scheme.recovers(secret@, signed@, msg@),
{
    match scheme {
        Scheme::Dilithium3 => match dilithium3_sign(secret, msg) {
            Ok(signed) => Ok(signed),
            Err(_) => Err(KeystoreError::SchemeError),
        },
        Scheme::Ed25519 => sign(msg, secret),
    }
}

/// Signs `msg` with `secret` as [`sign_message`] does, and wipes the secret
/// key whether or not it could sign: the buffer that held it is empty
/// afterwards.
pub fn sign_once(scheme: Scheme, secret: &mut Vec<u8>, msg: &[u8]) -> (r: Result<
    Vec<u8>,
    KeystoreError,
>)
    ensures
        final(secret)@.len() == 0,
        r is Ok <==> old(secret)@.len() == scheme.secret_key_len(),
        r matches Err(e) ==> e == KeystoreError::SchemeError,
        r matches Ok(signed) ==> signed@ == scheme.signed(old(secret)@, msg@),
        r matches Ok(signed) ==> signed@.len() == scheme.signature_len() + msg@.len(),
        r matches Ok(signed) ==> signed@.skip(scheme.signature_len() as int) == msg@,
        r matches Ok(signed) ==> scheme.recovers(old(secret)@, signed@, msg@),
{
    let signed = sign_message(scheme, secret.as_slice(), msg);
    wipe(secret);
    signed
}

/// Verifies `signed` under `public` and returns the message it carries.
/// A key of another length than the scheme's, an input too short to hold
/// a signature, and a signature that does not verify all give `None`.
pub fn verify_message(scheme: Scheme, public: &[u8], signed: &[u8]) -> (r: Option<Vec<u8>>)
    ensures
        optional(r) == scheme.opened(public@, signed@),
        public@.len() != scheme.public_key_len() ==> r is None,
        signed@.len() < scheme.signature_len() ==> r is None,
        r matches Some(message) ==> message@ == signed@.skip(scheme.signature_len() as int),
{
    match scheme {
        Scheme::Dilithium3 => dilithium3_open(public, signed),
        Scheme::Ed25519 => open(signed, public),
    }
}

/// Whether `signed` verifies under `public` and carries exactly
/// `expected`.
pub fn opens_to(scheme: Scheme, public: &[u8], signed: &[u8], expected: &[u8]) -> (ok: bool)
    ensures
        ok == (scheme.opened(public@, signed@) == Some(expected@)),
{
    match verify_message(scheme, public, signed) {
        Some(message) => {
            let wanted = slice_to_vec(expected);
            let same = message == wanted;
            proof {
                if same {
                    assert(message@ =~= expected@);
                }
            }
            same
        },
        None => false,
    }
}

/// Whether a message signed with the secret key of `pair` comes back
/// unchanged when it is verified under the public key of `pair`. It does
/// for every pair whose keys belong together.
pub fn round_trips(scheme: Scheme, pair: &DilithiumKeypair, message: &[u8]) -> (ok: bool)
    ensures
        ok == (pair.secret@.len() == scheme.secret_key_len() && scheme.opened(
            pair.public@,
            scheme.signed(pair.secret@, message@),
        ) == Some(message@)),
        scheme.is_keypair(pair.public@, pair.secret@) ==> ok,
{
    match sign_message(scheme, pair.secret.as_slice(), message) {
        Ok(signed) => opens_to(scheme, pair.public.as_slice(), signed.as_slice(), message),
        Err(_) => {
            proof {
                assert(!scheme.is_keypair(pair.public@, pair.secret@));
            }
            false
        },
    }
}

} // verus!
