//! XEdDSA verification: reconstruct the signer's Edwards point from the
//! Montgomery public key and the carried sign bit, recompute the challenge,
//! and check the double-scalar multiplication against the signature's `R`.

use vstd::prelude::*;

use crate::bytes::append_bytes;
use crate::bytes::bytes_eq;
use crate::bytes::copy_range;
use crate::bytes::le_bytes_to_nat;
use crate::bytes::lemma_reduced_scalar_bytes_len;
use crate::bytes::reduced_scalar_bytes;
use crate::codec::KeyError;
use crate::codec::spec_decode_public;
use crate::curve::double_base_check;
use crate::curve::double_check_spec;
use crate::curve::mont_to_ed;
use crate::curve::mont_to_ed_spec;
use crate::curve::reduce_wide;
use crate::curve::sha512;
use crate::curve::sha512_of;

verus! {

/// What verifying `sig` over `msg` under `pubk` returns.
/// The signature must be 64 bytes; bit 7 of its last byte is the signer's
/// Edwards sign bit, not part of the scalar `s`, and is cleared before `s` is
/// read. The public key must decode and its u-coordinate must lie on the
/// curve. A mismatched signature is the normal `false` result, not an error:
/// the check compares `s * B + h * (-A)` against the signature's `R`, where
/// `h` is the wide reduction of `SHA-512(R || A || msg)`.
pub open spec fn spec_verify(pubk: Seq<u8>, msg: Seq<u8>, sig: Seq<u8>) -> Result<bool, KeyError> {
    if sig.len() != 64 {
        Err(KeyError::InvalidArgument)
    } else {
        let sign_bit = sig[63] >> 7;
        let big_r = sig.subrange(0, 32);
        let s = sig.subrange(32, 64).update(31, sig[63] & 0x7f);
        match spec_decode_public(pubk) {
            Ok(u) => match mont_to_ed_spec(u, sign_bit) {
                Some(ed_pub) => {
                    let challenge = reduced_scalar_bytes(
                        le_bytes_to_nat(sha512_of(big_r + ed_pub + msg)),
                    );
                    Ok(double_check_spec(s, challenge, ed_pub) == big_r)
                },
                None => Err(KeyError::InvalidKeyFormat),
            },
            Err(e) => Err(e),
        }
    }
}

/// Verify an XEdDSA signature. Only malformed inputs produce errors; a
/// signature that does not check out is the `false` result.
pub fn verify_signature(pub_key: &[u8], message: &[u8], sig: &[u8]) -> (r: Result<bool, KeyError>)
    ensures
        r == spec_verify(pub_key@, message@, sig@),
{
    if sig.len() != 64 {
        return Err(KeyError::InvalidArgument);
    }
    let last = sig[63];
    let sign_bit = last >> 7;
    proof {
        assert(last >> 7 == 0 || last >> 7 == 1) by (bit_vector);
    }
    let u = match crate::codec::scrub_pub_key_format(pub_key) {
        Ok(u) => u,
        Err(e) => {
            return Err(e);
        },
    };
    let ed_pub = match mont_to_ed(u.as_slice(), sign_bit) {
        Some(a) => a,
        None => {
            return Err(KeyError::InvalidKeyFormat);
        },
    };

    let big_r = copy_range(sig, 0, 32);
    let mut s = copy_range(sig, 32, 63);
    s.push(last & 0x7f);
    proof {
        assert(s@ =~= sig@.subrange(32, 64).update(31, sig@[63] & 0x7f));
    }

    let mut challenge_input: Vec<u8> = Vec::new();
    append_bytes(&mut challenge_input, big_r.as_slice());
    append_bytes(&mut challenge_input, ed_pub.as_slice());
    append_bytes(&mut challenge_input, message);
    proof {
        assert(challenge_input@ =~= big_r@ + ed_pub@ + message@);
    }
    let digest = sha512(challenge_input.as_slice());
    let challenge = reduce_wide(digest.as_slice());
    proof {
        lemma_reduced_scalar_bytes_len(le_bytes_to_nat(digest@));
        assert(mont_to_ed_spec(u@, sign_bit) == Some(ed_pub@));
    }

    let check = double_base_check(s.as_slice(), challenge.as_slice(), ed_pub.as_slice());
    let ok = bytes_eq(check.as_slice(), big_r.as_slice());
    Ok(ok)
}

} // verus!
