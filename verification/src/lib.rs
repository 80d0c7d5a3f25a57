//! Issues product keys and binds them to an RSA signing authority.
//!
//! A product key is a short text for people to type. The holder of a private
//! key signs the SHA-256 digest of the key text and hands the signature out
//! as Base64 text; anyone with the public key checks the pair offline.

use rsa::{RsaPrivateKey, RsaPublicKey};
use vstd::prelude::*;

pub mod codec;
pub mod digest;
pub mod engine;
pub mod formatter;

pub use crate::codec::DecodeFailure;
pub use crate::engine::SigningFailure;
pub use crate::formatter::generate_key;

use crate::codec::{
    base64_text, decoded, is_symbol, lemma_decode_inverts_encode,
    lemma_foreign_character_undecodable,
};
use crate::digest::{canonical_bytes, key_digest, sha256};
use crate::engine::{pkcs1v15_accepts, pkcs1v15_signature};

verus! {

/// Names the library. It holds no state: every operation is a free function
/// that takes the keys it works with.
pub struct SerialKeyManager;

/// The signature text that a private key gives for a product key: the
/// Base64 text of its signature over the key's digest.
pub open spec fn signed_text(private_key: RsaPrivateKey, product_key: Seq<char>) -> Option<
    Seq<char>,
> {
    match pkcs1v15_signature(private_key, key_digest(product_key)) {
        Some(signature) => Some(base64_text(signature)),
        None => None,
    }
}

/// Whether a public key accepts a signature text for a product key. Text
/// that is not Base64 is not accepted.
pub open spec fn accepts_text(
    public_key: RsaPublicKey,
    product_key: Seq<char>,
    signature: Seq<char>,
) -> bool {
    match decoded(signature) {
        Some(bytes) => pkcs1v15_accepts(public_key, key_digest(product_key), bytes),
        None => false,
    }
}

/// Signs a product key: digest, signature, Base64 text.
pub fn sign_key(private_key: &RsaPrivateKey, product_key: &str) -> (r: Result<
    String,
    SigningFailure,
>)
    ensures
        match r {
            Ok(text) => signed_text(*private_key, product_key@) == Some(text@),
            Err(_) => signed_text(*private_key, product_key@) is None,
        },
{
    let hash = crate::digest::digest(product_key);
    match crate::engine::sign_digest(private_key, hash.as_slice()) {
        Ok(signature) => Ok(crate::codec::encode(signature.as_slice())),
        Err(failure) => Err(failure),
    }
}

/// Checks a product key against its signature text. Signature text that is
/// not Base64 counts as a signature that does not match: the answer is
/// `false`, with nothing raised. A signature text that is accepted for this
/// product key is accepted for no product key with another digest.
pub fn verify_key(public_key: &RsaPublicKey, product_key: &str, signature: &str) -> (valid: bool)
    ensures
        valid == accepts_text(*public_key, product_key@, signature@),
        decoded(signature@) is None ==> !valid,
        valid ==> forall|other: Seq<char>|
            key_digest(other) != key_digest(product_key@) ==> !accepts_text(
                *public_key,
                other,
                signature@,
            ),
{
    match crate::codec::decode(signature) {
        Ok(bytes) => {
            let hash = crate::digest::digest(product_key);
            let valid = crate::engine::verify_digest(
                public_key,
                hash.as_slice(),
                bytes.as_slice(),
            );
            proof {
                if valid {
                    assert forall|other: Seq<char>|
                        key_digest(other) != key_digest(product_key@) implies !accepts_text(
                        *public_key,
                        other,
                        signature@,
                    ) by {
                        if pkcs1v15_accepts(*public_key, key_digest(other), bytes@) {
                            assert(key_digest(other) == hash@);
                        }
                    }
                }
            }
            valid
        },
        Err(_) => false,
    }
}

/// Whether the two halves belong together: the private half signs the
/// SHA-256 digest of every message, and the public half accepts such a
/// signature for the digest that was signed and for no other digest.
///
/// This is what the laws below ask of a pair. That RSA makes it true of the
/// pairs that are generated is the `rsa` crate's arithmetic and is not
/// proved here. Its second part, for a signature that is in hand,
/// [`verify_key`] shows whenever it accepts.
pub open spec fn is_key_pair(private_key: RsaPrivateKey, public_key: RsaPublicKey) -> bool {
    forall|message: Seq<u8>|
        match #[trigger] pkcs1v15_signature(private_key, sha256(message)) {
            Some(signature) => forall|other: Seq<u8>|
                #[trigger] pkcs1v15_accepts(public_key, sha256(other), signature) <==> sha256(other)
                    == sha256(message),
            None => false,
        }
}

/// With the halves of one key pair, the signature text that signing gives
/// for a product key is accepted for that product key.
pub proof fn lemma_own_signature_accepted(
    private_key: RsaPrivateKey,
    public_key: RsaPublicKey,
    product_key: Seq<char>,
)
    requires
        is_key_pair(private_key, public_key),
    ensures
        signed_text(private_key, product_key) matches Some(text) && accepts_text(
            public_key,
            product_key,
            text,
        ),
{
    let message = canonical_bytes(product_key);
    let signature = pkcs1v15_signature(private_key, sha256(message))->Some_0;
    lemma_decode_inverts_encode(signature);
    assert(pkcs1v15_accepts(public_key, sha256(message), signature));
}

/// With the halves of one key pair, the signature text of one product key
/// is not accepted for another, whichever of the two was signed. Stated for
/// product keys whose digests differ.
pub proof fn lemma_other_signature_rejected(
    private_key: RsaPrivateKey,
    public_key: RsaPublicKey,
    first: Seq<char>,
    second: Seq<char>,
)
    requires
        is_key_pair(private_key, public_key),
        key_digest(first) != key_digest(second),
    ensures
        signed_text(private_key, first) matches Some(text) && !accepts_text(
            public_key,
            second,
            text,
        ),
        signed_text(private_key, second) matches Some(text) && !accepts_text(
            public_key,
            first,
            text,
        ),
{
    let one = canonical_bytes(first);
    let two = canonical_bytes(second);
    let signature_one = pkcs1v15_signature(private_key, sha256(one))->Some_0;
    let signature_two = pkcs1v15_signature(private_key, sha256(two))->Some_0;
    lemma_decode_inverts_encode(signature_one);
    lemma_decode_inverts_encode(signature_two);
    assert(!pkcs1v15_accepts(public_key, sha256(two), signature_one));
    assert(!pkcs1v15_accepts(public_key, sha256(one), signature_two));
}

/// Signature text with a character that Base64 does not use, such as `!`,
/// is accepted for no product key under any public key.
pub proof fn lemma_foreign_character_rejected(
    public_key: RsaPublicKey,
    product_key: Seq<char>,
    signature: Seq<char>,
    at: int,
)
    requires
        0 <= at < signature.len(),
        !is_symbol(signature[at]),
        signature[at] != '=',
    ensures
        !accepts_text(public_key, product_key, signature),
{
    lemma_foreign_character_undecodable(signature, at);
}

} // verus!
