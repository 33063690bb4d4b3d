//! The integrity verifier: a wide cryptographic digest of the downloaded
//! bytes, compared in lower-case hex against the expected value.

use vstd::prelude::*;
use crate::errors::IntegrityError;
use crate::hex::{bytes_eq, hex_of, to_hex};

verus! {

/// The SHA-512 digest, as 64 raw bytes, of a byte sequence. A function of
/// the bytes alone; what it is on given bytes is not stated here.
pub uninterp spec fn sha512_of(data: Seq<u8>) -> Seq<u8>;

/// Relies on sha2::Sha512 (via the Digest trait): the digest depends on the
/// input bytes alone and is always 64 bytes long.
#[verifier::external_body]
fn sha512(data: &Vec<u8>) -> (r: Vec<u8>)
    ensures
        r@ == sha512_of(data@),
        r@.len() == 64,
{
    <sha2::Sha512 as sha2::Digest>::digest(data.as_slice()).to_vec()
}

/// The lower-case hex form of the digest of `data`: what the integrity
/// check compares against the caller-supplied value.
pub open spec fn digest_hex(data: Seq<u8>) -> Seq<u8> {
    hex_of(sha512_of(data))
}

/// Computes the artifact's digest and renders it as lower-case ASCII hex.
pub fn compute_digest_hex(data: &Vec<u8>) -> (r: Vec<u8>)
    ensures
        r@ == digest_hex(data@),
{
    let d = sha512(data);
    to_hex(&d)
}

/// The integrity verifier: succeeds exactly when the bytes hash to the
/// expected digest, given as lower-case ASCII hex. Side-effect free: deleting
/// a tainted artifact is the pipeline's business, not this check's.
pub fn verify_digest(data: &Vec<u8>, expected: &Vec<u8>) -> (r: Result<(), IntegrityError>)
    ensures
        r is Ok <==> digest_hex(data@) == expected@,
{
    let hx = compute_digest_hex(data);
    if bytes_eq(&hx, expected) {
        Ok(())
    } else {
        Err(IntegrityError)
    }
}

} // verus!
