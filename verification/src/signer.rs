//! XEdDSA signing: a deterministic Schnorr-style signature made from the
//! Montgomery private scalar, carrying the Edwards sign bit of the signer's
//! public point in the high bit of the last signature byte.

use vstd::prelude::*;

use crate::bytes::append_bytes;
use crate::bytes::le_bytes_to_nat;
use crate::bytes::lemma_reduced_scalar_bytes_len;
use crate::bytes::lemma_reduced_scalar_top_bits;
use crate::bytes::reduced_scalar_bytes;
use crate::codec::KeyError;
use crate::codec::clamp_scalar;
use crate::codec::spec_clamp;
use crate::codec::view_res;
use crate::curve::ed_base_mul;
use crate::curve::ed_base_mul_spec;
use crate::curve::reduce_wide;
use crate::curve::scalar_mul_add;
use crate::curve::sha512;
use crate::curve::sha512_of;

verus! {

/// The signature of `msg` under the 32-byte private scalar `p`:
/// clamp `p` into `a`; compress the Edwards public point `a * B` and keep its
/// sign bit; derive the nonce `r` by wide reduction of `SHA-512(a || msg)`;
/// compute `R = r * B`, the challenge `h` by wide reduction of
/// `SHA-512(R || A || msg)`, and `s = r + h * a` modulo the group order;
/// output `R || s` with the sign bit folded into bit 7 of the last byte.
/// Signing is deterministic: this value is a function of `p` and `msg` alone.
pub open spec fn spec_sign(p: Seq<u8>, msg: Seq<u8>) -> Seq<u8> {
    let a = spec_clamp(p);
    let ed_pub = ed_base_mul_spec(a);
    let sign_bit = ed_pub[31] & 0x80;
    let nonce = reduced_scalar_bytes(le_bytes_to_nat(sha512_of(a + msg)));
    let big_r = ed_base_mul_spec(nonce);
    let challenge = reduced_scalar_bytes(le_bytes_to_nat(sha512_of(big_r + ed_pub + msg)));
    let s = reduced_scalar_bytes(
        le_bytes_to_nat(challenge) * le_bytes_to_nat(a) + le_bytes_to_nat(nonce),
    );
    big_r + s.update(31, s[31] | sign_bit)
}

/// The sign bit never collides with the scalar it rides on: a canonical
/// scalar's bit 7 is clear, so splitting a signature that `spec_sign`
/// produced recovers exactly the nonce point `R`, the scalar `s`, and the
/// sign bit that the signer folded into the last byte. The antecedent only
/// says that the two compressed points are 32 bytes, which every compressed
/// Edwards encoding is.
pub proof fn lemma_sign_bit_separation(p: Seq<u8>, msg: Seq<u8>)
    requires
        p.len() == 32,
    ensures
        ({
            let a = spec_clamp(p);
            let ed_pub = ed_base_mul_spec(a);
            let nonce = reduced_scalar_bytes(le_bytes_to_nat(sha512_of(a + msg)));
            let big_r = ed_base_mul_spec(nonce);
            let challenge = reduced_scalar_bytes(
                le_bytes_to_nat(sha512_of(big_r + ed_pub + msg)),
            );
            let s = reduced_scalar_bytes(
                le_bytes_to_nat(challenge) * le_bytes_to_nat(a) + le_bytes_to_nat(nonce),
            );
            let sig = spec_sign(p, msg);
            ed_pub.len() == 32 && big_r.len() == 32 ==> {
                &&& sig.len() == 64
                &&& sig.subrange(0, 32) == big_r
                &&& sig[63] >> 7 == ed_pub[31] >> 7
                &&& sig.subrange(32, 64).update(31, sig[63] & 0x7f) == s
            }
        }),
{
    let a = spec_clamp(p);
    let ed_pub = ed_base_mul_spec(a);
    let nonce = reduced_scalar_bytes(le_bytes_to_nat(sha512_of(a + msg)));
    let big_r = ed_base_mul_spec(nonce);
    let challenge = reduced_scalar_bytes(le_bytes_to_nat(sha512_of(big_r + ed_pub + msg)));
    let s_num = le_bytes_to_nat(challenge) * le_bytes_to_nat(a) + le_bytes_to_nat(nonce);
    let s = reduced_scalar_bytes(s_num);
    lemma_reduced_scalar_bytes_len(s_num);
    lemma_reduced_scalar_top_bits(s_num);
    if ed_pub.len() == 32 && big_r.len() == 32 {
        let s31 = s[31];
        let e31 = ed_pub[31];
        assert((s31 | (e31 & 0x80)) & 0x7f == s31 && (s31 | (e31 & 0x80)) >> 7 == e31 >> 7)
            by (bit_vector)
            requires
                s31 < 32,
        ;
        let sig = spec_sign(p, msg);
        assert(sig == big_r + s.update(31, s31 | (e31 & 0x80)));
        assert(sig.subrange(0, 32) =~= big_r);
        assert(sig[63] == s31 | (e31 & 0x80));
        assert(sig.subrange(32, 64).update(31, sig[63] & 0x7f) =~= s);
    }
}

/// Sign `message` with a 32-byte private scalar. Fails only when the scalar
/// has the wrong length; the signature is 64 bytes.
pub fn calculate_signature(priv_key: &[u8], message: &[u8]) -> (r: Result<Vec<u8>, KeyError>)
    ensures
        priv_key@.len() == 32 ==> view_res(r) == Ok::<Seq<u8>, KeyError>(
            spec_sign(priv_key@, message@),
        ),
        priv_key@.len() != 32 ==> r == Err::<Vec<u8>, KeyError>(KeyError::InvalidArgument),
        r matches Ok(sig) ==> sig@.len() == 64,
{
    if priv_key.len() != 32 {
        return Err(KeyError::InvalidArgument);
    }
    let a = clamp_scalar(priv_key);

    let ed_pub = ed_base_mul(a.as_slice());
    let sign_bit = ed_pub[31] & 0x80;

    let mut nonce_input: Vec<u8> = Vec::new();
    append_bytes(&mut nonce_input, a.as_slice());
    append_bytes(&mut nonce_input, message);
    proof {
        assert(nonce_input@ =~= spec_clamp(priv_key@) + message@);
    }
    let nonce_digest = sha512(nonce_input.as_slice());
    let nonce = reduce_wide(nonce_digest.as_slice());
    proof {
        lemma_reduced_scalar_bytes_len(le_bytes_to_nat(nonce_digest@));
    }

    let big_r = ed_base_mul(nonce.as_slice());

    let mut challenge_input: Vec<u8> = Vec::new();
    append_bytes(&mut challenge_input, big_r.as_slice());
    append_bytes(&mut challenge_input, ed_pub.as_slice());
    append_bytes(&mut challenge_input, message);
    proof {
        assert(challenge_input@ =~= big_r@ + ed_pub@ + message@);
    }
    let challenge_digest = sha512(challenge_input.as_slice());
    let challenge = reduce_wide(challenge_digest.as_slice());
    proof {
        lemma_reduced_scalar_bytes_len(le_bytes_to_nat(challenge_digest@));
    }

    let s = scalar_mul_add(challenge.as_slice(), a.as_slice(), nonce.as_slice());
    proof {
        lemma_reduced_scalar_bytes_len(
            le_bytes_to_nat(challenge@) * le_bytes_to_nat(a@) + le_bytes_to_nat(nonce@),
        );
    }

    let mut sig: Vec<u8> = Vec::new();
    append_bytes(&mut sig, big_r.as_slice());
    let mut i: usize = 0;
    while i < 31
        invariant
            i <= 31,
            s@.len() == 32,
            sig@ == big_r@ + s@.take(i as int),
        decreases 31 - i,
    {
        proof {
            assert(s@.take(i + 1) =~= s@.take(i as int) + seq![s@[i as int]]);
        }
        sig.push(s[i]);
        i += 1;
    }
    sig.push(s[31] | sign_bit);
    proof {
        assert(sig@ =~= big_r@ + s@.update(31, s@[31] | sign_bit));
        assert(sig@ =~= spec_sign(priv_key@, message@));
    }
    Ok(sig)
}

} // verus!
