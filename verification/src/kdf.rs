//! Password-based key derivation with fixed cost.

use vstd::pervasive::unreached;
use vstd::prelude::*;
use vstd::utf8::encode_utf8;

verus! {

/// Memory cost of every derivation, in KiB.
pub const KDF_MEMORY_KIB: u32 = 32;

/// Number of passes of every derivation.
pub const KDF_PASSES: u32 = 3;

/// Degree of parallelism of every derivation.
pub const KDF_LANES: u32 = 1;

/// Length of a derived key in bytes.
pub const KEY_LEN: usize = 32;

/// The shortest salt the derivation takes.
pub const MIN_SALT_LEN: usize = 8;

/// The longest password or salt the derivation takes, in bytes.
pub const MAX_KDF_INPUT_LEN: u64 = 0xFFFF_FFFF;

/// The Argon2id (version 0x13) tag of `key_len` bytes that the `argon2`
/// crate computes for a password and salt at the given costs.
pub uninterp spec fn argon2id_key(
    password: Seq<u8>,
    salt: Seq<u8>,
    memory_kib: u32,
    passes: u32,
    lanes: u32,
    key_len: nat,
) -> Seq<u8>;

/// The inputs on which the `argon2` crate computes a tag rather than
/// report an error.
pub open spec fn argon2id_accepts(
    password_len: nat,
    salt_len: nat,
    memory_kib: u32,
    passes: u32,
    lanes: u32,
    key_len: nat,
) -> bool {
    &&& 8 <= memory_kib
    &&& 8 * lanes <= memory_kib
    &&& 1 <= passes
    &&& 1 <= lanes <= 0xFF_FFFF
    &&& 4 <= key_len <= 0xFFFF_FFFF
    &&& password_len <= 0xFFFF_FFFF
    &&& 8 <= salt_len <= 0xFFFF_FFFF
}

/// `argon2::Error`, carried opaquely to the caller of the derivation.
#[verifier::external_type_specification]
#[verifier::external_body]
pub struct ExArgon2Error(argon2::Error);

/// `argon2::Params::new` and `argon2::Argon2::hash_password_into` for
/// Argon2id, version 0x13, without secret or associated data: they succeed
/// exactly on the inputs of `argon2id_accepts`, and the tag is then a
/// function of the arguments alone.
#[verifier::external_body]
pub(crate) fn argon2id(
    password: &[u8],
    salt: &[u8],
    memory_kib: u32,
    passes: u32,
    lanes: u32,
    key_len: usize,
) -> (r: Result<Vec<u8>, argon2::Error>)
    requires
        lanes <= 0xFF_FFFF,
    ensures
        r is Ok <==> argon2id_accepts(
            password@.len(),
            salt@.len(),
            memory_kib,
            passes,
            lanes,
            key_len as nat,
        ),
        r matches Ok(key) ==> key@ == argon2id_key(
            password@,
            salt@,
            memory_kib,
            passes,
            lanes,
            key_len as nat,
        ) && key@.len() == key_len,
{
    let params = argon2::Params::new(memory_kib, passes, lanes, None)?;
    let hasher = argon2::Argon2::new(argon2::Algorithm::Argon2id, argon2::Version::V0x13, params);
    let mut key = vec![0u8; key_len];
    hasher.hash_password_into(password, salt, &mut key)?;
    Ok(key)
}

/// Whether a password is short enough to derive a key from.
pub open spec fn password_fits(password: Seq<char>) -> bool {
    encode_utf8(password).len() <= MAX_KDF_INPUT_LEN
}

/// Whether a salt has a length the derivation takes.
pub open spec fn salt_fits(salt: Seq<u8>) -> bool {
    MIN_SALT_LEN <= salt.len() <= MAX_KDF_INPUT_LEN
}

/// The key derived from a password and salt: the Argon2id tag of the
/// password's UTF-8 bytes at this library's fixed costs.
pub open spec fn derived_key(password: Seq<char>, salt: Seq<u8>) -> Seq<u8> {
    argon2id_key(
        encode_utf8(password),
        salt,
        KDF_MEMORY_KIB,
        KDF_PASSES,
        KDF_LANES,
        KEY_LEN as nat,
    )
}

/// Derives the symmetric key for `password` and `salt`. The same password
/// and salt always give the same key.
pub fn derive_key(password: &str, salt: &[u8]) -> (key: Vec<u8>)
    requires
        password_fits(password@),
        salt_fits(salt@),
    ensures
        key@ == derived_key(password@, salt@),
        key@.len() == KEY_LEN,
{
    match argon2id(password.as_bytes(), salt, KDF_MEMORY_KIB, KDF_PASSES, KDF_LANES, KEY_LEN) {
        Ok(key) => key,
        Err(_) => unreached(),
    }
}

/// Whether `password` is short enough to derive a key from.
pub fn password_ok(password: &str) -> (fits: bool)
    ensures
        fits == password_fits(password@),
{
    let len: usize = password.as_bytes().len();
    len as u64 <= MAX_KDF_INPUT_LEN
}

/// Whether `salt` has a length the derivation takes.
pub fn salt_ok(salt: &[u8]) -> (fits: bool)
    ensures
        fits == salt_fits(salt@),
{
    MIN_SALT_LEN <= salt.len() && salt.len() as u64 <= MAX_KDF_INPUT_LEN
}

} // verus!
