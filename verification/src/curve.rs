//! The supplied arithmetic primitive: constant-time scalar and point
//! operations from `curve25519_dalek`, the SHA-512 hash from `sha2`, and the
//! operating system's entropy source through `x25519_dalek`.
//!
//! Every function here is a trusted wrapper: its body makes the outside call
//! and its contract is believed, not proved. Scalar arithmetic is stated
//! exactly, as arithmetic modulo the group order on little-endian byte
//! strings. Point operations and the hash are deterministic functions of
//! their input bytes whose values no short formula gives; each is named by an
//! uninterpreted spec function, and the contracts of the callers are stated
//! over those names.

use vstd::prelude::*;

use curve25519_dalek::edwards::CompressedEdwardsY;
use curve25519_dalek::edwards::EdwardsPoint;
use curve25519_dalek::montgomery::MontgomeryPoint;
use curve25519_dalek::scalar::Scalar;
use sha2::Digest;

use crate::bytes::le_bytes_to_nat;
use crate::bytes::reduced_scalar_bytes;

verus! {

/// The SHA-512 digest (64 bytes) of a byte string.
pub uninterp spec fn sha512_of(m: Seq<u8>) -> Seq<u8>;

/// The u-coordinate of `(s mod group order) * P`, where `P` is the Montgomery
/// point with u-coordinate `u`.
pub uninterp spec fn mont_mul_spec(s: Seq<u8>, u: Seq<u8>) -> Seq<u8>;

/// The compressed encoding of `(s mod group order) * B`, where `B` is the
/// Ed25519 basepoint.
pub uninterp spec fn ed_base_mul_spec(s: Seq<u8>) -> Seq<u8>;

/// The compressed Edwards point that the birational map yields for the
/// Montgomery u-coordinate `u` and the sign bit `sign`, or `None` when `u`
/// lies on the twist rather than the curve.
pub uninterp spec fn mont_to_ed_spec(u: Seq<u8>, sign: u8) -> Option<Seq<u8>>;

/// The compressed encoding of `(s mod group order) * B + (h mod group order)
/// * (-A)`, where `A` is the Edwards point compressed as `a`.
pub uninterp spec fn double_check_spec(s: Seq<u8>, h: Seq<u8>, a: Seq<u8>) -> Seq<u8>;

/// Relies on `x25519_dalek::StaticSecret::random`: 32 bytes drawn from the
/// operating system's cryptographically secure generator, returned unclamped.
/// Nothing can be promised of their value.
#[verifier::external_body]
pub(crate) fn fresh_secret_bytes() -> (r: Vec<u8>)
    ensures
        r@.len() == 32,
{
    x25519_dalek::StaticSecret::random().to_bytes().to_vec()
}

/// Relies on `sha2::Sha512`: the digest of the whole input, 64 bytes, a
/// function of the input bytes alone.
#[verifier::external_body]
pub(crate) fn sha512(m: &[u8]) -> (r: Vec<u8>)
    ensures
        r@ == sha512_of(m@),
        r@.len() == 64,
{
    sha2::Sha512::digest(m).to_vec()
}

/// Relies on `curve25519_dalek::Scalar::from_bytes_mod_order_wide` (reduction
/// of a 512-bit little-endian integer modulo the group order) and
/// `Scalar::to_bytes` (the canonical little-endian encoding).
#[verifier::external_body]
pub(crate) fn reduce_wide(d: &[u8]) -> (r: Vec<u8>)
    requires
        d@.len() == 64,
    ensures
        r@ == reduced_scalar_bytes(le_bytes_to_nat(d@)),
{
    let arr: [u8; 64] = d.try_into().unwrap();
    Scalar::from_bytes_mod_order_wide(&arr).to_bytes().to_vec()
}

/// Relies on `curve25519_dalek::Scalar`: `from_bytes_mod_order` on each input,
/// multiplication and addition modulo the group order, and `to_bytes`. The
/// result is the canonical encoding of `h * a + r` modulo the group order.
#[verifier::external_body]
pub(crate) fn scalar_mul_add(h: &[u8], a: &[u8], r: &[u8]) -> (res: Vec<u8>)
    requires
        h@.len() == 32,
        a@.len() == 32,
        r@.len() == 32,
    ensures
        res@ == reduced_scalar_bytes(
            le_bytes_to_nat(h@) * le_bytes_to_nat(a@) + le_bytes_to_nat(r@),
        ),
{
    let hs = Scalar::from_bytes_mod_order(h.try_into().unwrap());
    let sa = Scalar::from_bytes_mod_order(a.try_into().unwrap());
    let rs = Scalar::from_bytes_mod_order(r.try_into().unwrap());
    (rs + hs * sa).to_bytes().to_vec()
}

/// Relies on `curve25519_dalek`: `Scalar::from_bytes_mod_order` and the
/// multiplication of a `MontgomeryPoint` by a `Scalar`, whose result is the
/// u-coordinate of the product.
#[verifier::external_body]
pub(crate) fn mont_mul(s: &[u8], u: &[u8]) -> (r: Vec<u8>)
    requires
        s@.len() == 32,
        u@.len() == 32,
    ensures
        r@ == mont_mul_spec(s@, u@),
        r@.len() == 32,
{
    let scalar = Scalar::from_bytes_mod_order(s.try_into().unwrap());
    let point = MontgomeryPoint(u.try_into().unwrap());
    (&scalar * &point).0.to_vec()
}

/// Relies on `curve25519_dalek`: `Scalar::from_bytes_mod_order`,
/// multiplication by `ED25519_BASEPOINT_TABLE`, and `EdwardsPoint::compress`.
#[verifier::external_body]
pub(crate) fn ed_base_mul(s: &[u8]) -> (r: Vec<u8>)
    requires
        s@.len() == 32,
    ensures
        r@ == ed_base_mul_spec(s@),
        r@.len() == 32,
{
    let scalar = Scalar::from_bytes_mod_order(s.try_into().unwrap());
    let point: EdwardsPoint = &scalar * curve25519_dalek::constants::ED25519_BASEPOINT_TABLE;
    point.compress().to_bytes().to_vec()
}

/// Relies on `curve25519_dalek::MontgomeryPoint::to_edwards` (the birational
/// map, with `0` or `1` choosing the sign of the Edwards point; `None` for a
/// u-coordinate on the twist) and `EdwardsPoint::compress`.
#[verifier::external_body]
pub(crate) fn mont_to_ed(u: &[u8], sign: u8) -> (r: Option<Vec<u8>>)
    requires
        u@.len() == 32,
        sign == 0 || sign == 1,
    ensures
        r matches Some(a) ==> mont_to_ed_spec(u@, sign) == Some(a@) && a@.len() == 32,
        r is None ==> mont_to_ed_spec(u@, sign) is None,
{
    let point = MontgomeryPoint(u.try_into().unwrap());
    match point.to_edwards(sign) {
        Some(e) => Some(e.compress().to_bytes().to_vec()),
        None => None,
    }
}

/// Relies on `curve25519_dalek`: `CompressedEdwardsY::decompress`, which
/// succeeds on any compressed point that `compress` produced, so on anything
/// the birational map yielded; point negation;
/// `EdwardsPoint::vartime_double_scalar_mul_basepoint`, computing
/// `h * (-A) + s * B` in variable time (all operands here are public); and
/// `Scalar::from_bytes_mod_order` on `s` and `h`.
#[verifier::external_body]
pub(crate) fn double_base_check(s: &[u8], h: &[u8], a: &[u8]) -> (r: Vec<u8>)
    requires
        s@.len() == 32,
        h@.len() == 32,
        a@.len() == 32,
        exists|u: Seq<u8>, sb: u8| mont_to_ed_spec(u, sb) == Some(a@),
    ensures
        r@ == double_check_spec(s@, h@, a@),
        r@.len() == 32,
{
    let ss = Scalar::from_bytes_mod_order(s.try_into().unwrap());
    let hs = Scalar::from_bytes_mod_order(h.try_into().unwrap());
    let point = CompressedEdwardsY(a.try_into().unwrap()).decompress().unwrap();
    let check = EdwardsPoint::vartime_double_scalar_mul_basepoint(&hs, &(-point), &ss);
    check.compress().to_bytes().to_vec()
}

} // verus!
