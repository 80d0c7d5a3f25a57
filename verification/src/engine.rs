//! The signature primitive: RSASSA-PKCS1-v1_5 over a SHA-256 digest, with
//! the caller's keys.

use rsa::errors::Error;
use rsa::{PaddingScheme, RsaPrivateKey, RsaPublicKey};
use vstd::prelude::*;

verus! {

/// `rsa::RsaPrivateKey`: the caller's private half, handed on to the `rsa`
/// crate as it comes; nothing here looks inside.
#[verifier::external_type_specification]
#[verifier::external_body]
pub struct ExRsaPrivateKey(RsaPrivateKey);

/// `rsa::RsaPublicKey`: the caller's public half, handed on in the same way.
#[verifier::external_type_specification]
#[verifier::external_body]
pub struct ExRsaPublicKey(RsaPublicKey);

/// `rsa::errors::Error`: why the `rsa` crate refused; never read here.
#[verifier::external_type_specification]
#[verifier::external_body]
pub struct ExRsaError(Error);

/// What `RsaPrivateKey::sign` gives for a digest when the key's stored
/// shortcut values are left aside: the signature, or `None` where the key
/// cannot sign it.
pub uninterp spec fn pkcs1v15_signature(key: RsaPrivateKey, digest: Seq<u8>) -> Option<Seq<u8>>;

/// What `RsaPublicKey`'s `verify` finds: whether the key accepts the
/// signature bytes for the digest.
pub uninterp spec fn pkcs1v15_accepts(key: RsaPublicKey, digest: Seq<u8>, signature: Seq<u8>) -> bool;

/// The private key cannot sign the digest: its modulus is too short for the
/// padded digest, or its parts do not fit together.
#[derive(Debug, Clone, Copy, PartialEq, Eq)]
pub struct SigningFailure;

/// `RsaPrivateKey::sign` with PKCS#1 v1.5 padding and the SHA-256 digest
/// prefix, made on a copy of the key from which `clear_precomputed` has
/// taken the stored shortcut values. The `rsa` crate then raises the padded
/// digest to the private exponent modulo the modulus in one step, so what
/// it pads out to the modulus length is below the modulus whatever prime
/// factors the key lists; with the shortcut values a key whose factors do
/// not multiply to the modulus can stop the call or keep it from returning.
/// For a key whose parts fit together the signature is the same either way.
///
/// Without blinding the call draws no random number, so its outcome is
/// trusted to be a function of key and digest, named
/// [`pkcs1v15_signature`]; nothing is claimed about which bytes it is. A
/// digest that is not 32 bytes long is refused before anything is computed.
#[verifier::external_body]
fn rsa_sign(key: &RsaPrivateKey, digest: &[u8]) -> (r: Result<Vec<u8>, Error>)
    ensures
        r matches Ok(signature) ==> pkcs1v15_signature(*key, digest@) == Some(signature@),
        r is Err ==> pkcs1v15_signature(*key, digest@) is None,
        digest@.len() != 32 ==> r is Err,
{
    let mut plain = key.clone();
    plain.clear_precomputed();
    plain.sign(PaddingScheme::PKCS1v15Sign { hash: Some(rsa::Hash::SHA2_256) }, digest)
}

/// `PublicKey::verify` of `RsaPublicKey` with the same padding and prefix.
/// Trusted to succeed or fail by key, digest and signature alone, which
/// [`pkcs1v15_accepts`] names; every failure comes back as an error value.
/// A digest that is not 32 bytes long is refused. The call compares the
/// digest with the last 32 bytes of what the signature opens to under the
/// key, so one signature is accepted for one digest at most.
#[verifier::external_body]
fn rsa_verify(key: &RsaPublicKey, digest: &[u8], signature: &[u8]) -> (r: Result<(), Error>)
    ensures
        r is Ok <==> pkcs1v15_accepts(*key, digest@, signature@),
        digest@.len() != 32 ==> r is Err,
        r is Ok ==> forall|other: Seq<u8>|
            pkcs1v15_accepts(*key, other, signature@) ==> other == digest@,
{
    rsa::PublicKey::verify(
        key,
        PaddingScheme::PKCS1v15Sign { hash: Some(rsa::Hash::SHA2_256) },
        digest,
        signature,
    )
}

/// Signs a digest with the private key, and reports a key that cannot. A
/// digest of any length but 32 bytes is never signed.
pub fn sign_digest(key: &RsaPrivateKey, digest: &[u8]) -> (r: Result<Vec<u8>, SigningFailure>)
    ensures
        match r {
            Ok(signature) => pkcs1v15_signature(*key, digest@) == Some(signature@),
            Err(_) => pkcs1v15_signature(*key, digest@) is None,
        },
        digest@.len() != 32 ==> r is Err,
{
    match rsa_sign(key, digest) {
        Ok(signature) => Ok(signature),
        Err(_) => Err(SigningFailure),
    }
}

/// Checks signature bytes against a digest with the public key. A wrong
/// key, a changed signature, a changed digest and bytes that are no
/// signature at all give the same answer: `false`. So does a digest of any
/// length but 32 bytes. Signature bytes that are accepted for this digest
/// are accepted for no other.
pub fn verify_digest(key: &RsaPublicKey, digest: &[u8], signature: &[u8]) -> (valid: bool)
    ensures
        valid == pkcs1v15_accepts(*key, digest@, signature@),
        digest@.len() != 32 ==> !valid,
        valid ==> forall|other: Seq<u8>|
            pkcs1v15_accepts(*key, other, signature@) ==> other == digest@,
{
    match rsa_verify(key, digest, signature) {
        Ok(_) => true,
        Err(_) => false,
    }
}

} // verus!
