//! Public addresses: a short fingerprint of a public key.

use crate::encoding::{hex_bytes, hex_text, to_hex};
use sha3::{Digest, Keccak256};
use vstd::prelude::*;
use vstd::slice::slice_subrange;
use vstd::string::StringExecFns;

verus! {

/// How many trailing digest bytes an address shows.
pub const ADDRESS_BYTES: usize = 20;

/// The Keccak-256 digest of `data`, as the `sha3` crate computes it.
pub uninterp spec fn keccak256_digest(data: Seq<u8>) -> Seq<u8>;

/// `sha3::Keccak256` over one input: the digest is a function of the input
/// alone and is 32 bytes long.
#[verifier::external_body]
pub(crate) fn keccak256(data: &[u8]) -> (digest: Vec<u8>)
    ensures
        digest@ == keccak256_digest(data@),
        digest@.len() == 32,
{
    let mut hasher = Keccak256::new();
    hasher.update(data);
    hasher.finalize().to_vec()
}

/// The two characters every address begins with.
pub open spec fn address_prefix() -> Seq<char> {
    seq!['Q', 'S']
}

/// The last [`ADDRESS_BYTES`] bytes of a digest.
pub open spec fn digest_tail(digest: Seq<u8>) -> Seq<u8> {
    digest.subrange(digest.len() - ADDRESS_BYTES as int, digest.len() as int)
}

/// The address of a public key: the prefix, then the lowercase hexadecimal
/// text of the tail of the key's Keccak-256 digest. It depends on nothing
/// but the key.
pub open spec fn address_text(public_key: Seq<u8>) -> Seq<char> {
    address_prefix() + hex_text(digest_tail(keccak256_digest(public_key)))
}

/// Equal keys have equal addresses.
pub proof fn lemma_address_depends_on_key_alone(first: Seq<u8>, second: Seq<u8>)
    requires
        first =~= second,
    ensures
        address_text(first) == address_text(second),
{
}

/// Derives the address of `pubkey`. No secret and no randomness enters: the
/// result is `address_text` of the key, 42 characters of which the last 40
/// spell the digest tail in hexadecimal.
pub fn address_from_pubkey(pubkey: &[u8]) -> (address: String)
    ensures
        address@ == address_text(pubkey@),
        address@.len() == 2 + 2 * ADDRESS_BYTES,
        hex_bytes(address@.skip(2)) == Some(digest_tail(keccak256_digest(pubkey@))),
{
    let hash = keccak256(pubkey);
    let tail = slice_subrange(hash.as_slice(), hash.len() - ADDRESS_BYTES, hash.len());
    let digits = to_hex(tail);
    let mut address = String::from_str("QS");
    proof {
        reveal_strlit("QS");
        assert("QS"@ =~= address_prefix());
    }
    address.append(digits.as_str());
    proof {
        assert(address@.skip(2) =~= digits@);
    }
    address
}

} // verus!
