//! The bytes of a product key that are signed, and their SHA-256 digest.

use sha2::{Digest, Sha256};
use vstd::prelude::*;
use vstd::utf8::*;

verus! {

/// The SHA-256 hash of a message, as `Sha256::digest` of the `sha2` crate
/// computes it.
pub uninterp spec fn sha256(message: Seq<u8>) -> Seq<u8>;

/// The bytes that stand for a product key wherever it is signed or checked:
/// its UTF-8 encoding, with nothing trimmed and no letter changed.
pub open spec fn canonical_bytes(product_key: Seq<char>) -> Seq<u8> {
    encode_utf8(product_key)
}

/// The digest of a product key: the SHA-256 hash of its canonical bytes.
pub open spec fn key_digest(product_key: Seq<char>) -> Seq<u8> {
    sha256(canonical_bytes(product_key))
}

/// `Sha256::digest` of the `sha2` crate, which hashes the whole message in
/// one call. Trusted to be a function of the message alone, named
/// [`sha256`], and to return 32 bytes, the output size that the crate
/// declares for this hash.
#[verifier::external_body]
fn sha256_of(message: &[u8]) -> (hash: Vec<u8>)
    ensures
        hash@ == sha256(message@),
        hash@.len() == 32,
{
    Sha256::digest(message).to_vec()
}

/// Hashes a product key for signing or checking. Signer and verifier get the
/// same 32 bytes for the same key.
pub fn digest(product_key: &str) -> (hash: Vec<u8>)
    ensures
        hash@ == key_digest(product_key@),
        hash@.len() == 32,
{
    sha256_of(product_key.as_bytes())
}

/// Two product keys have the same canonical bytes only if they are the same
/// key.
pub proof fn lemma_canonical_bytes_distinct(first: Seq<char>, second: Seq<char>)
    requires
        first != second,
    ensures
        canonical_bytes(first) != canonical_bytes(second),
{
    encode_utf8_decode_utf8(first);
    encode_utf8_decode_utf8(second);
}

} // verus!
