//! Diffie-Hellman agreement on X25519 keys: key generation, public-key
//! derivation, and shared-secret computation.

use vstd::prelude::*;

use crate::codec::KeyError;
use crate::codec::clamp_scalar;
use crate::codec::lemma_clamp_idempotent;
use crate::codec::spec_clamp;
use crate::codec::spec_decode_public;
use crate::codec::spec_encode_public;
use crate::codec::view_res;
use crate::curve::fresh_secret_bytes;
use crate::curve::mont_mul;
use crate::curve::mont_mul_spec;

verus! {

/// A freshly generated key pair: the tagged 33-byte public key and the
/// clamped 32-byte private scalar.
pub struct X25519KeyPair {
    pub pub_key: Vec<u8>,
    pub priv_key: Vec<u8>,
}

/// The u-coordinate of the X25519 basepoint: 9, then 31 zero bytes.
pub open spec fn base_u() -> Seq<u8> {
    Seq::new(32, |i: int| if i == 0 { 9u8 } else { 0u8 })
}

/// The tagged public key that belongs to a 32-byte private scalar: the
/// scalar, reduced modulo the group order, times the Montgomery basepoint.
/// No clamping happens on this path.
pub open spec fn spec_derive_public(p: Seq<u8>) -> Seq<u8> {
    spec_encode_public(mont_mul_spec(p, base_u()))
}

/// What `get_public_from_private_key` returns for each input.
pub open spec fn spec_get_public(p: Seq<u8>) -> Result<Seq<u8>, KeyError> {
    if p.len() == 32 {
        Ok(spec_derive_public(p))
    } else {
        Err(KeyError::InvalidArgument)
    }
}

/// What `calculate_agreement` returns for each input: the private scalar
/// must be 32 bytes, the peer key must decode, and the shared secret is the
/// scalar times the peer's Montgomery point.
pub open spec fn spec_agreement(peer: Seq<u8>, p: Seq<u8>) -> Result<Seq<u8>, KeyError> {
    if p.len() != 32 {
        Err(KeyError::InvalidArgument)
    } else {
        match spec_decode_public(peer) {
            Ok(u) => Ok(mont_mul_spec(p, u)),
            Err(e) => Err(e),
        }
    }
}

/// The X25519 basepoint's u-coordinate as a vector.
fn base_point_u() -> (r: Vec<u8>)
    ensures
        r@ == base_u(),
{
    let mut r: Vec<u8> = Vec::new();
    r.push(9);
    let mut i: usize = 1;
    while i < 32
        invariant
            1 <= i <= 32,
            r@.len() == i,
            forall|j: int| 0 <= j < i ==> r@[j] == base_u()[j],
        decreases 32 - i,
    {
        r.push(0);
        i += 1;
    }
    proof {
        assert(r@ =~= base_u());
    }
    r
}

/// Draw 32 bytes from the OS entropy source, clamp them, and derive the
/// matching tagged public key.
pub fn generate_keypair() -> (r: X25519KeyPair)
    ensures
        r.priv_key@.len() == 32,
        r.priv_key@ == spec_clamp(r.priv_key@),
        r.pub_key@ == spec_derive_public(r.priv_key@),
        r.pub_key@.len() == 33,
{
    let seed = fresh_secret_bytes();
    let priv_key = clamp_scalar(seed.as_slice());
    proof {
        lemma_clamp_idempotent(seed@);
    }
    let base = base_point_u();
    let u = mont_mul(priv_key.as_slice(), base.as_slice());
    let pub_key = crate::codec::encode_public(u.as_slice());
    X25519KeyPair { pub_key, priv_key }
}

/// Derive the tagged public key of a 32-byte private scalar. The scalar is
/// reduced modulo the group order, not clamped, matching the signing-path
/// scalar derivation.
pub fn get_public_from_private_key(priv_key: &[u8]) -> (r: Result<Vec<u8>, KeyError>)
    ensures
        view_res(r) == spec_get_public(priv_key@),
        r matches Ok(k) ==> k@.len() == 33,
{
    if priv_key.len() != 32 {
        return Err(KeyError::InvalidArgument);
    }
    let base = base_point_u();
    let u = mont_mul(priv_key, base.as_slice());
    Ok(crate::codec::encode_public(u.as_slice()))
}

/// Compute the shared secret: decode the peer's public key and multiply its
/// Montgomery point by the private scalar reduced modulo the group order.
pub fn calculate_agreement(peer_pub_key: &[u8], priv_key: &[u8]) -> (r: Result<Vec<u8>, KeyError>)
    ensures
        view_res(r) == spec_agreement(peer_pub_key@, priv_key@),
        r matches Ok(secret) ==> secret@.len() == 32,
{
    if priv_key.len() != 32 {
        return Err(KeyError::InvalidArgument);
    }
    let peer_u = match crate::codec::scrub_pub_key_format(peer_pub_key) {
        Ok(u) => u,
        Err(e) => {
            return Err(e);
        },
    };
    Ok(mont_mul(priv_key, peer_u.as_slice()))
}

/// A generated pair is consistent: deriving the public key from the private
/// scalar that `generate_keypair` returned yields exactly the public key it
/// returned.
pub proof fn lemma_generated_pair_round_trip(priv_key: Seq<u8>, pub_key: Seq<u8>)
    requires
        priv_key.len() == 32,
        pub_key == spec_derive_public(priv_key),
    ensures
        spec_get_public(priv_key) == Ok::<Seq<u8>, KeyError>(pub_key),
{
}

} // verus!
