//! The keyfile: a sealed secret key with what is needed to open it, and
//! its textual form in which no field holds raw bytes.

use crate::cipher::NONCE_LEN;
use crate::encoding::{
    base64_bytes, base64_decode, base64_encode, base64_len, base64_text, from_hex, hex_bytes,
    hex_text, is_base64_text, to_hex,
};
use crate::error::{outcome, KeystoreError};
use crate::kdf::{salt_fits, salt_ok};
use vstd::prelude::*;
use vstd::string::StringExecFns;

verus! {

/// The key derivations a keyfile may name.
#[derive(Clone, Copy, Debug, PartialEq, Eq, Structural)]
pub enum KdfId {
    /// Argon2id at this library's fixed costs.
    Argon2id,
}

/// A secret key sealed under a password, in binary form.
#[derive(Clone, Debug, PartialEq, Eq)]
pub struct SealedKey {
    pub kdf: KdfId,
    pub salt: Vec<u8>,
    pub nonce: Vec<u8>,
    pub ciphertext: Vec<u8>,
    pub public_key: Vec<u8>,
}

/// What a [`SealedKey`] holds.
pub struct SealedKeyBytes {
    pub kdf: KdfId,
    pub salt: Seq<u8>,
    pub nonce: Seq<u8>,
    pub ciphertext: Seq<u8>,
    pub public_key: Seq<u8>,
}

impl View for SealedKey {
    type V = SealedKeyBytes;

    open spec fn view(&self) -> SealedKeyBytes {
        SealedKeyBytes {
            kdf: self.kdf,
            salt: self.salt@,
            nonce: self.nonce@,
            ciphertext: self.ciphertext@,
            public_key: self.public_key@,
        }
    }
}

impl SealedKeyBytes {
    /// A sealed key is valid when the key derivation takes its salt and
    /// the cipher takes its nonce.
    pub open spec fn valid(self) -> bool {
        &&& salt_fits(self.salt)
        &&& self.nonce.len() == NONCE_LEN
    }
}

/// The textual form of a sealed key, field by field as it is stored.
#[derive(Clone, Debug, PartialEq, Eq)]
pub struct EncryptedKeyfile {
    pub kdf: String,
    pub salt_b64: String,
    pub nonce_b64: String,
    pub ct_b64: String,
    pub public_hex: String,
}

/// What an [`EncryptedKeyfile`] holds.
pub struct KeyfileText {
    pub kdf: Seq<char>,
    pub salt_b64: Seq<char>,
    pub nonce_b64: Seq<char>,
    pub ct_b64: Seq<char>,
    pub public_hex: Seq<char>,
}

impl View for EncryptedKeyfile {
    type V = KeyfileText;

    open spec fn view(&self) -> KeyfileText {
        KeyfileText {
            kdf: self.kdf@,
            salt_b64: self.salt_b64@,
            nonce_b64: self.nonce_b64@,
            ct_b64: self.ct_b64@,
            public_hex: self.public_hex@,
        }
    }
}

/// The identifier under which a key derivation is stored.
pub open spec fn kdf_name(kdf: KdfId) -> Seq<char> {
    match kdf {
        KdfId::Argon2id => "argon2id"@,
    }
}

/// The bytes that stand for a key derivation where it is bound into a
/// ciphertext: its identifier in ASCII.
pub open spec fn kdf_tag(kdf: KdfId) -> Seq<u8> {
    match kdf {
        KdfId::Argon2id => seq![0x61u8, 0x72u8, 0x67u8, 0x6fu8, 0x6eu8, 0x32u8, 0x69u8, 0x64u8],
    }
}

/// What travels beside the ciphertext of a sealed key and is bound to it:
/// the tag of the key derivation, then the public key.
pub open spec fn bound_data(kdf: KdfId, public_key: Seq<u8>) -> Seq<u8> {
    kdf_tag(kdf) + public_key
}

/// The key derivation that an identifier names, if it is known.
pub open spec fn kdf_named(name: Seq<char>) -> Option<KdfId> {
    if name == "argon2id"@ {
        Some(KdfId::Argon2id)
    } else {
        None
    }
}

/// The textual form of a sealed key: salt, nonce and ciphertext in base64,
/// the public key in lowercase hexadecimal.
pub open spec fn encoded(key: SealedKeyBytes) -> KeyfileText {
    KeyfileText {
        kdf: kdf_name(key.kdf),
        salt_b64: base64_text(key.salt),
        nonce_b64: base64_text(key.nonce),
        ct_b64: base64_text(key.ciphertext),
        public_hex: hex_text(key.public_key),
    }
}

/// Whether the base64 fields of `text` have the form of the encodings of
/// the fields of `key`: base64 characters only, four for every started
/// group of three bytes.
pub open spec fn shaped(text: KeyfileText, key: SealedKeyBytes) -> bool {
    &&& is_base64_text(text.salt_b64)
    &&& is_base64_text(text.nonce_b64)
    &&& is_base64_text(text.ct_b64)
    &&& text.salt_b64.len() == base64_len(key.salt.len())
    &&& text.nonce_b64.len() == base64_len(key.nonce.len())
    &&& text.ct_b64.len() == base64_len(key.ciphertext.len())
}

/// The sealed key that a textual form spells. Every unknown identifier,
/// every field that does not decode, every salt or nonce of a wrong length
/// and every public key not written in lowercase is a `FormatError`; there
/// is no other failure. So the text of the public key that decodes to
/// given bytes is one text only.
pub open spec fn decoded(text: KeyfileText) -> Result<SealedKeyBytes, KeystoreError> {
    match (
        kdf_named(text.kdf),
        base64_bytes(text.salt_b64),
        base64_bytes(text.nonce_b64),
        base64_bytes(text.ct_b64),
        hex_bytes(text.public_hex),
    ) {
        (Some(kdf), Some(salt), Some(nonce), Some(ciphertext), Some(public_key)) => {
            let key = SealedKeyBytes { kdf, salt, nonce, ciphertext, public_key };
            if key.valid() && text.public_hex == hex_text(public_key) {
                Ok(key)
            } else {
                Err(KeystoreError::FormatError)
            }
        },
        _ => Err(KeystoreError::FormatError),
    }
}

/// The public key that a textual form names, if its hexadecimal decodes.
pub open spec fn public_key_of(text: KeyfileText) -> Result<Seq<u8>, KeystoreError> {
    match hex_bytes(text.public_hex) {
        Some(public_key) => Ok(public_key),
        None => Err(KeystoreError::FormatError),
    }
}

/// Whoever decodes a keyfile reads the same public key from it as
/// [`public_key_of`] does.
pub proof fn lemma_decoded_public_key(text: KeyfileText)
    requires
        decoded(text) is Ok,
    ensures
        public_key_of(text) == Ok::<Seq<u8>, KeystoreError>(decoded(text)->Ok_0.public_key),
{
}

/// Decoding fails in one way only.
pub proof fn lemma_decoding_fails_as_format_error(text: KeyfileText)
    ensures
        decoded(text) matches Err(e) ==> e == KeystoreError::FormatError,
        public_key_of(text) matches Err(e) ==> e == KeystoreError::FormatError,
{
}

/// Writes the identifier of a key derivation.
pub fn kdf_label(kdf: KdfId) -> (name: String)
    ensures
        name@ == kdf_name(kdf),
        kdf_named(name@) == Some(kdf),
{
    match kdf {
        KdfId::Argon2id => String::from_str("argon2id"),
    }
}

/// Computes [`bound_data`].
pub fn bound(kdf: KdfId, public_key: &[u8]) -> (data: Vec<u8>)
    ensures
        data@ == bound_data(kdf, public_key@),
        data@.len() == 8 + public_key@.len(),
{
    let mut data = match kdf {
        KdfId::Argon2id => vec![0x61u8, 0x72u8, 0x67u8, 0x6fu8, 0x6eu8, 0x32u8, 0x69u8, 0x64u8],
    };
    data.extend_from_slice(public_key);
    proof {
        assert(data@ =~= bound_data(kdf, public_key@));
    }
    data
}

/// Reads the identifier of a key derivation.
pub fn parse_kdf(name: &str) -> (kdf: Option<KdfId>)
    ensures
        kdf == kdf_named(name@),
{
    let known = String::from_str("argon2id");
    let given = String::from_str(name);
    if given == known {
        Some(KdfId::Argon2id)
    } else {
        None
    }
}

/// Encodes a sealed key as text. No field of the text holds raw bytes:
/// the identifier and the hexadecimal digits are as the key gives them,
/// and the other fields are base64 characters. Decoding the result gives a
/// valid key back unchanged, and refuses the text of a key that is not
/// valid.
pub fn encode(key: &SealedKey) -> (text: EncryptedKeyfile)
    ensures
        text@ == encoded(key@),
        shaped(text@, key@),
        key@.valid() ==> decoded(text@) == Ok::<SealedKeyBytes, KeystoreError>(key@),
        !key@.valid() ==> decoded(text@) == Err::<SealedKeyBytes, KeystoreError>(
            KeystoreError::FormatError,
        ),
{
    EncryptedKeyfile {
        kdf: kdf_label(key.kdf),
        salt_b64: base64_encode(key.salt.as_slice()),
        nonce_b64: base64_encode(key.nonce.as_slice()),
        ct_b64: base64_encode(key.ciphertext.as_slice()),
        public_hex: to_hex(key.public_key.as_slice()),
    }
}

/// Decodes the textual form of a sealed key. Fails with `FormatError`
/// exactly when the identifier is unknown, a field does not decode, the
/// salt or nonce has a length that cannot be used, or the public key is
/// not in lowercase hexadecimal.
pub fn decode(text: &EncryptedKeyfile) -> (r: Result<SealedKey, KeystoreError>)
    ensures
        outcome(r) == decoded(text@),
{
    let kdf = match parse_kdf(text.kdf.as_str()) {
        Some(kdf) => kdf,
        None => return Err(KeystoreError::FormatError),
    };
    let salt = match base64_decode(text.salt_b64.as_str()) {
        Ok(salt) => salt,
        Err(_) => return Err(KeystoreError::FormatError),
    };
    let nonce = match base64_decode(text.nonce_b64.as_str()) {
        Ok(nonce) => nonce,
        Err(_) => return Err(KeystoreError::FormatError),
    };
    let ciphertext = match base64_decode(text.ct_b64.as_str()) {
        Ok(ciphertext) => ciphertext,
        Err(_) => return Err(KeystoreError::FormatError),
    };
    let public_key = match from_hex(text.public_hex.as_str()) {
        Some(public_key) => public_key,
        None => return Err(KeystoreError::FormatError),
    };
    if !salt_ok(salt.as_slice()) || nonce.len() != NONCE_LEN {
        return Err(KeystoreError::FormatError);
    }
    let canonical = to_hex(public_key.as_slice());
    if !(canonical == text.public_hex) {
        return Err(KeystoreError::FormatError);
    }
    Ok(SealedKey { kdf, salt, nonce, ciphertext, public_key })
}

/// A keyfile that stands for a stored document which could not be read:
/// it does not decode, and no public key can be read from it.
pub fn unreadable() -> (text: EncryptedKeyfile)
    ensures
        decoded(text@) == Err::<SealedKeyBytes, KeystoreError>(KeystoreError::FormatError),
        public_key_of(text@) == Err::<Seq<u8>, KeystoreError>(KeystoreError::FormatError),
{
    let text = EncryptedKeyfile {
        kdf: String::new(),
        salt_b64: String::new(),
        nonce_b64: String::new(),
        ct_b64: String::new(),
        public_hex: String::from_str("?"),
    };
    proof {
        reveal_strlit("?");
        reveal_strlit("argon2id");
        assert(text@.public_hex.len() == 1);
        assert(text@.kdf.len() == 0);
    }
    text
}

/// Reads the public key from a keyfile. Only the public key field is
/// looked at, and either case of digit is read; fails with `FormatError`
/// exactly when the field is not hexadecimal.
pub fn public_key(text: &EncryptedKeyfile) -> (r: Result<Vec<u8>, KeystoreError>)
    ensures
        outcome(r) == public_key_of(text@),
{
    match from_hex(text.public_hex.as_str()) {
        Some(key) => Ok(key),
        None => Err(KeystoreError::FormatError),
    }
}

} // verus!
