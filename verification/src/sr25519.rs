//! The signature scheme of the network, Schnorr signatures over Ristretto
//! as the `schnorrkel` crate implements them, and the random source for
//! challenges.
//!
//! Keys and signatures cross this boundary in their byte encodings. What the
//! scheme computes is not restated here: its results have names, and the
//! rest of the crate reasons about those names.

use rand::Rng;
use vstd::prelude::*;

verus! {

/// Length of an encoded public key.
pub const PUBLIC_KEY_LENGTH: usize = 32;

/// Length of an encoded signature.
pub const SIGNATURE_LENGTH: usize = 64;

/// Whether `schnorrkel::PublicKey::from_bytes` accepts the bytes.
pub uninterp spec fn public_key_decodes(bytes: Seq<u8>) -> bool;

/// Whether `schnorrkel::Signature::from_bytes` accepts the bytes.
pub uninterp spec fn signature_decodes(bytes: Seq<u8>) -> bool;

/// Whether `schnorrkel::PublicKey::verify_simple` accepts the signature on
/// the message in the context, for the key and the signature that the byte
/// strings decode to.
pub uninterp spec fn signature_verifies(
    public_key: Seq<u8>,
    context: Seq<u8>,
    message: Seq<u8>,
    signature: Seq<u8>,
) -> bool;

/// `schnorrkel::PublicKey::from_bytes`, asked only whether it succeeds. It
/// refuses every length but 32 and then every string that is not the
/// encoding of a Ristretto point.
#[verifier::external_body]
pub(crate) fn accepts_public_key(bytes: &[u8]) -> (ok: bool)
    ensures
        ok == public_key_decodes(bytes@),
        ok ==> bytes@.len() == PUBLIC_KEY_LENGTH,
{
    schnorrkel::PublicKey::from_bytes(bytes).is_ok()
}

/// `schnorrkel::Signature::from_bytes`, asked only whether it succeeds. It
/// refuses every length but 64, every string whose last byte lacks the high
/// bit that marks the scheme, and then every string whose second half is no
/// canonical scalar.
#[verifier::external_body]
pub(crate) fn accepts_signature(bytes: &[u8]) -> (ok: bool)
    ensures
        ok == signature_decodes(bytes@),
        ok ==> bytes@.len() == SIGNATURE_LENGTH,
{
    schnorrkel::Signature::from_bytes(bytes).is_ok()
}

/// `schnorrkel::PublicKey::verify_simple` on the key and the signature that
/// the two encodings decode to. The result depends on the four byte strings
/// alone. The transcript it builds takes the context and the message with
/// their lengths as 32 bit numbers and refuses, by a panic, what is longer.
#[verifier::external_body]
pub(crate) fn verify_simple(
    public_key: &[u8],
    context: &[u8],
    message: &[u8],
    signature: &[u8],
) -> (ok: bool)
    requires
        public_key_decodes(public_key@),
        signature_decodes(signature@),
        context@.len() <= u32::MAX,
        message@.len() <= u32::MAX,
    ensures
        ok == signature_verifies(public_key@, context@, message@, signature@),
{
    match (
        schnorrkel::PublicKey::from_bytes(public_key),
        schnorrkel::Signature::from_bytes(signature),
    ) {
        (Ok(key), Ok(sig)) => key.verify_simple(context, message, &sig).is_ok(),
        _ => false,
    }
}

/// `rand::thread_rng` and `Rng::gen`: sixteen bytes from the generator of
/// the calling thread. Nothing is known of them beforehand.
#[verifier::external_body]
pub(crate) fn random_bytes() -> [u8; 16] {
    rand::thread_rng().gen()
}

} // verus!
