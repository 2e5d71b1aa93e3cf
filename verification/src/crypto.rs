//! The primitives this crate takes from outside: SHA-256 (`sha2`),
//! constant-time comparison (`subtle`) and OS randomness (`rand`).

use vstd::prelude::*;

use sha2::Digest;
use subtle::ConstantTimeEq;
use rand::TryRngCore;

verus! {

/// `rand::rand_core::OsError`, carried through as an opaque value.
#[verifier::external_type_specification]
#[verifier::external_body]
pub struct ExOsError(rand::rand_core::OsError);

/// The SHA-256 digest of `data`.
pub uninterp spec fn sha256_digest(data: Seq<u8>) -> [u8; 32];

/// SHA-256 of `data`.
///
/// Trusted: calls `sha2::Sha256::digest`; the contract claims only that the
/// 32-byte result is a function of `data` (the digest itself is not
/// restated here).
#[verifier::external_body]
pub(crate) fn sha256(data: &[u8]) -> (r: [u8; 32])
    ensures
        r == sha256_digest(data@),
{
    sha2::Sha256::digest(data).into()
}

/// Constant-time equality of two byte strings.
///
/// Trusted: calls `subtle::ConstantTimeEq::ct_eq` on slices and converts
/// the `Choice` to `bool`; per its source the result is 1 exactly when the
/// lengths agree and every byte agrees.
#[verifier::external_body]
pub(crate) fn ct_eq(a: &[u8], b: &[u8]) -> (r: bool)
    ensures
        r == (a@ == b@),
{
    a.ct_eq(b).into()
}

/// `N` bytes from the operating system's random source.
///
/// Trusted: calls `rand::rngs::OsRng::try_fill_bytes`. Nothing is claimed
/// of the bytes, which are random, nor of when the source fails.
#[verifier::external_body]
pub(crate) fn os_random_bytes<const N: usize>() -> (r: Result<[u8; N], rand::rand_core::OsError>) {
    let mut bytes = [0u8; N];
    rand::rngs::OsRng.try_fill_bytes(&mut bytes)?;
    Ok(bytes)
}

} // verus!
