//! The key codec: scalar clamping and the public-key wire format.
//!
//! A public key on the wire is 33 bytes: a type tag (always 5) followed by the
//! 32-byte Montgomery u-coordinate. A legacy, unprefixed 32-byte form is
//! accepted on decode only.

use vstd::prelude::*;

verus! {

/// The type tag that prefixes an encoded public key.
pub const KEY_BUNDLE_TYPE: u8 = 5;

/// How a call can fail: a wrong byte length, or a malformed key
/// (bad tag byte, or a u-coordinate that is not on the curve).
#[derive(Clone, Copy, Debug, PartialEq, Eq, Structural)]
pub enum KeyError {
    InvalidArgument,
    InvalidKeyFormat,
}

impl KeyError {
    /// A human-readable description of the failure.
    pub fn message(&self) -> (r: &'static str)
        ensures
            *self is InvalidArgument ==> r@ == "invalid argument length"@,
            *self is InvalidKeyFormat ==> r@ == "invalid public key format"@,
    {
        match self {
            KeyError::InvalidArgument => "invalid argument length",
            KeyError::InvalidKeyFormat => "invalid public key format",
        }
    }
}

/// A byte-valued result, seen abstractly.
pub open spec fn view_res(r: Result<Vec<u8>, KeyError>) -> Result<Seq<u8>, KeyError> {
    match r {
        Ok(v) => Ok(v@),
        Err(e) => Err(e),
    }
}

/// Clamping: clear the three low bits of byte 0, clear the high bit of
/// byte 31 and set its second-highest bit.
pub open spec fn spec_clamp(s: Seq<u8>) -> Seq<u8> {
    s.update(0, s[0] & 248).update(31, (s[31] & 127) | 64)
}

/// What decoding a public key yields: the 32-byte u-coordinate, or the error
/// the input earns. Exactly lengths 32 (legacy) and 33 (tagged) are accepted,
/// and a 33-byte key must carry the right tag.
pub open spec fn spec_decode_public(b: Seq<u8>) -> Result<Seq<u8>, KeyError> {
    if b.len() == 33 {
        if b[0] == KEY_BUNDLE_TYPE {
            Ok(b.subrange(1, 33))
        } else {
            Err(KeyError::InvalidKeyFormat)
        }
    } else if b.len() == 32 {
        Ok(b)
    } else {
        Err(KeyError::InvalidArgument)
    }
}

/// Encoding a public key: the tag byte followed by the u-coordinate.
pub open spec fn spec_encode_public(u: Seq<u8>) -> Seq<u8> {
    seq![KEY_BUNDLE_TYPE] + u
}

/// Apply the fixed clamping mask to a 32-byte scalar.
pub fn clamp_scalar(s: &[u8]) -> (r: Vec<u8>)
    requires
        s@.len() == 32,
    ensures
        r@ == spec_clamp(s@),
        r@.len() == 32,
{
    let mut r: Vec<u8> = Vec::new();
    let mut i: usize = 0;
    while i < 32
        invariant
            i <= 32,
            s@.len() == 32,
            r@.len() == i,
            forall|j: int| 0 <= j < i ==> r@[j] == spec_clamp(s@)[j],
        decreases 32 - i,
    {
        if i == 0 {
            r.push(s[0] & 248);
        } else if i == 31 {
            r.push((s[31] & 127) | 64);
        } else {
            r.push(s[i]);
        }
        i += 1;
    }
    proof {
        assert(r@ =~= spec_clamp(s@));
    }
    r
}

/// Decode a public key: strip and check the tag of a 33-byte key, pass a
/// legacy 32-byte key through unchanged, reject any other length.
pub fn scrub_pub_key_format(pub_key: &[u8]) -> (r: Result<Vec<u8>, KeyError>)
    ensures
        view_res(r) == spec_decode_public(pub_key@),
        r matches Ok(u) ==> u@.len() == 32,
{
    if pub_key.len() == 33 {
        if pub_key[0] != KEY_BUNDLE_TYPE {
            return Err(KeyError::InvalidKeyFormat);
        }
        Ok(crate::bytes::copy_range(pub_key, 1, 33))
    } else if pub_key.len() == 32 {
        let u = crate::bytes::copy_range(pub_key, 0, 32);
        proof {
            assert(u@ =~= pub_key@);
        }
        Ok(u)
    } else {
        Err(KeyError::InvalidArgument)
    }
}

/// Encode a 32-byte u-coordinate as a tagged 33-byte public key.
pub fn encode_public(u: &[u8]) -> (r: Vec<u8>)
    requires
        u@.len() == 32,
    ensures
        r@ == spec_encode_public(u@),
        r@.len() == 33,
{
    let mut r: Vec<u8> = Vec::new();
    r.push(KEY_BUNDLE_TYPE);
    crate::bytes::append_bytes(&mut r, u);
    proof {
        assert(r@ =~= spec_encode_public(u@));
    }
    r
}

/// Clamping is idempotent: clamping an already-clamped scalar changes nothing.
pub proof fn lemma_clamp_idempotent(s: Seq<u8>)
    requires
        s.len() == 32,
    ensures
        spec_clamp(spec_clamp(s)) == spec_clamp(s),
{
    let c = spec_clamp(s);
    assert(c[0] == s[0] & 248);
    assert(c[31] == (s[31] & 127) | 64);
    let x = s[0];
    let y = s[31];
    assert((x & 248) & 248 == x & 248) by (bit_vector);
    assert((((y & 127) | 64) & 127) | 64 == (y & 127) | 64) by (bit_vector);
    assert(spec_clamp(c) =~= c);
}

/// A legacy 32-byte key and its tagged form decode to the same u-coordinate.
pub proof fn lemma_legacy_decode_equivalent(u: Seq<u8>)
    requires
        u.len() == 32,
    ensures
        spec_decode_public(seq![KEY_BUNDLE_TYPE] + u) == spec_decode_public(u),
{
    assert((seq![KEY_BUNDLE_TYPE] + u).subrange(1, 33) =~= u);
}

} // verus!
