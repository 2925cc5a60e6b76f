//! Cryptographic primitives: digests and signature verification.
//!
//! The cryptography itself is done by an outside library; this module only
//! relies on each operation being a function of its input bytes.

use vstd::prelude::*;

verus! {

/// The SHA-256 digest of a byte sequence.
pub uninterp spec fn sha256_of(data: Seq<u8>) -> Seq<u8>;

/// Relies on `openssl::sha::sha256`: the digest is a 32-byte value that
/// depends on the input bytes alone.
#[verifier::external_body]
pub(crate) fn sha256(data: &Vec<u8>) -> (r: Vec<u8>)
    ensures
        r@ == sha256_of(data@),
        r@.len() == 32,
{
    openssl::sha::sha256(data.as_slice()).to_vec()
}

/// Whether `signature` is a valid signature of `message` under the public
/// key with the given DER encoding.
pub uninterp spec fn spec_signature_valid(
    public_key_der: Seq<u8>,
    message: Seq<u8>,
    signature: Seq<u8>,
) -> bool;

/// Relies on `openssl::pkey::PKey::public_key_from_der` and
/// `openssl::sign::Verifier::verify_oneshot`: whether a signature verifies
/// depends on the key, message and signature bytes alone.  A key that does
/// not parse, or a verification that errors, verifies nothing.
#[verifier::external_body]
pub(crate) fn verify_signature(public_key_der: &Vec<u8>, message: &Vec<u8>, signature: &Vec<u8>)
    -> (r: bool)
    ensures
        r == spec_signature_valid(public_key_der@, message@, signature@),
{
    let key = match openssl::pkey::PKey::public_key_from_der(public_key_der.as_slice()) {
        Ok(key) => key,
        Err(_) => return false,
    };
    let mut verifier = match openssl::sign::Verifier::new_without_digest(&key) {
        Ok(verifier) => verifier,
        Err(_) => return false,
    };
    verifier.verify_oneshot(signature.as_slice(), message.as_slice()).unwrap_or(false)
}

} // verus!
