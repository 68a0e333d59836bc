use xeddsa::KeyError;
use xeddsa::calculate_agreement;
use xeddsa::calculate_signature;
use xeddsa::clamp_scalar;
use xeddsa::encode_public;
use xeddsa::generate_keypair;
use xeddsa::get_public_from_private_key;
use xeddsa::scrub_pub_key_format;
use xeddsa::verify_signature;

fn sample_bytes(len: usize, seed: u8) -> Vec<u8> {
    (0..len)
        .map(|i| (i as u8).wrapping_mul(37).wrapping_add(seed).wrapping_mul(113))
        .collect()
}

#[test]
fn clamp_is_idempotent_on_samples() {
    for seed in 0..16u8 {
        let x = sample_bytes(32, seed);
        let once = clamp_scalar(&x);
        let twice = clamp_scalar(&once);
        assert_eq!(once, twice);
    }
}

#[test]
fn clamp_all_ff() {
    let x = vec![0xFFu8; 32];
    let c = clamp_scalar(&x);
    assert_eq!(c[0], 0xF8);
    assert_eq!(c[31], 0x7F);
    for i in 1..31 {
        assert_eq!(c[i], 0xFF);
    }
}

#[test]
fn generated_pair_round_trips_through_derive() {
    let kp = generate_keypair();
    assert_eq!(kp.priv_key.len(), 32);
    assert_eq!(kp.pub_key.len(), 33);
    assert_eq!(kp.pub_key[0], 5);
    let derived = get_public_from_private_key(&kp.priv_key).unwrap();
    assert_eq!(derived, kp.pub_key);
}

#[test]
fn generated_private_key_is_clamped() {
    let kp = generate_keypair();
    assert_eq!(clamp_scalar(&kp.priv_key), kp.priv_key);
}

#[test]
fn dh_agreement_is_symmetric() {
    let a = generate_keypair();
    let b = generate_keypair();
    let shared_ab = calculate_agreement(&b.pub_key, &a.priv_key).unwrap();
    let shared_ba = calculate_agreement(&a.pub_key, &b.priv_key).unwrap();
    assert_eq!(shared_ab, shared_ba);
    assert_eq!(shared_ab.len(), 32);
}

#[test]
fn agreement_accepts_legacy_peer_key() {
    let a = generate_keypair();
    let b = generate_keypair();
    let legacy = b.pub_key[1..].to_vec();
    assert_eq!(
        calculate_agreement(&legacy, &a.priv_key),
        calculate_agreement(&b.pub_key, &a.priv_key)
    );
}

#[test]
fn sign_verify_round_trip() {
    let kp = generate_keypair();
    let msg = b"an arbitrary message of some length";
    let sig = calculate_signature(&kp.priv_key, msg).unwrap();
    assert_eq!(sig.len(), 64);
    assert_eq!(verify_signature(&kp.pub_key, msg, &sig), Ok(true));
}

#[test]
fn sign_verify_round_trip_empty_message() {
    let kp = generate_keypair();
    let sig = calculate_signature(&kp.priv_key, b"").unwrap();
    assert_eq!(verify_signature(&kp.pub_key, b"", &sig), Ok(true));
}

#[test]
fn verification_accepts_legacy_public_key() {
    let kp = generate_keypair();
    let msg = b"legacy key, same point";
    let sig = calculate_signature(&kp.priv_key, msg).unwrap();
    let legacy = kp.pub_key[1..].to_vec();
    assert_eq!(verify_signature(&legacy, msg, &sig), Ok(true));
}

#[test]
fn signing_is_deterministic() {
    let kp = generate_keypair();
    let msg = b"same input, same signature";
    let first = calculate_signature(&kp.priv_key, msg).unwrap();
    let second = calculate_signature(&kp.priv_key, msg).unwrap();
    assert_eq!(first, second);
}

#[test]
fn tampered_signature_is_rejected() {
    let kp = generate_keypair();
    let msg = b"flip any bit";
    let sig = calculate_signature(&kp.priv_key, msg).unwrap();
    for byte in 0..64 {
        for bit in 0..8 {
            let mut bad = sig.clone();
            bad[byte] ^= 1u8 << bit;
            assert_eq!(verify_signature(&kp.pub_key, msg, &bad), Ok(false));
        }
    }
}

#[test]
fn tampered_message_is_rejected() {
    let kp = generate_keypair();
    let msg = b"payload!";
    let sig = calculate_signature(&kp.priv_key, msg).unwrap();
    for byte in 0..msg.len() {
        for bit in 0..8 {
            let mut bad = msg.to_vec();
            bad[byte] ^= 1u8 << bit;
            assert_eq!(verify_signature(&kp.pub_key, &bad, &sig), Ok(false));
        }
    }
}

#[test]
fn tampered_public_key_never_verifies() {
    let kp = generate_keypair();
    let msg = b"who signed this?";
    let sig = calculate_signature(&kp.priv_key, msg).unwrap();
    for byte in 0..33 {
        for bit in 0..8 {
            let mut bad = kp.pub_key.clone();
            bad[byte] ^= 1u8 << bit;
            let res = verify_signature(&bad, msg, &sig);
            if byte == 32 && bit == 7 {
                // Bit 255 of the u-coordinate is ignored by the field
                // decoding, so this flip leaves an equivalent key.
                assert_eq!(res, Ok(true));
            } else {
                // A tampered key that stays well-formed must yield false;
                // one that breaks the format or leaves the curve yields an
                // error.
                assert_ne!(res, Ok(true));
            }
        }
    }
}

#[test]
fn decode_rejects_wrong_lengths() {
    assert_eq!(scrub_pub_key_format(&[5u8; 31]), Err(KeyError::InvalidArgument));
    assert_eq!(scrub_pub_key_format(&[5u8; 34]), Err(KeyError::InvalidArgument));
    assert_eq!(scrub_pub_key_format(&[]), Err(KeyError::InvalidArgument));
}

#[test]
fn decode_rejects_wrong_tag() {
    let mut key = vec![4u8];
    key.extend_from_slice(&[7u8; 32]);
    assert_eq!(scrub_pub_key_format(&key), Err(KeyError::InvalidKeyFormat));
}

#[test]
fn decode_accepts_legacy_32_bytes() {
    let u = sample_bytes(32, 3);
    assert_eq!(scrub_pub_key_format(&u), Ok(u.clone()));
}

#[test]
fn legacy_and_tagged_keys_decode_alike() {
    let u = sample_bytes(32, 9);
    let tagged = encode_public(&u);
    assert_eq!(tagged.len(), 33);
    assert_eq!(tagged[0], 5);
    assert_eq!(
        scrub_pub_key_format(&u).unwrap(),
        scrub_pub_key_format(&tagged).unwrap()
    );
}

#[test]
fn scalar_one_derives_basepoint() {
    let mut scalar = vec![0u8; 32];
    scalar[0] = 1;
    let pub_key = get_public_from_private_key(&scalar).unwrap();
    let mut expected = vec![0u8; 33];
    expected[0] = 5;
    expected[1] = 9;
    assert_eq!(pub_key, expected);
}

#[test]
fn wrong_length_private_key_is_rejected() {
    assert_eq!(get_public_from_private_key(&[1u8; 31]), Err(KeyError::InvalidArgument));
    assert_eq!(get_public_from_private_key(&[1u8; 33]), Err(KeyError::InvalidArgument));
    assert_eq!(calculate_signature(&[1u8; 31], b"m"), Err(KeyError::InvalidArgument));
    assert_eq!(
        calculate_agreement(&[5u8; 33], &[1u8; 31]),
        Err(KeyError::InvalidArgument)
    );
}

#[test]
fn wrong_length_signature_is_rejected() {
    let kp = generate_keypair();
    assert_eq!(verify_signature(&kp.pub_key, b"m", &[0u8; 63]), Err(KeyError::InvalidArgument));
    assert_eq!(verify_signature(&kp.pub_key, b"m", &[0u8; 65]), Err(KeyError::InvalidArgument));
}

#[test]
fn errors_carry_a_description() {
    assert_eq!(KeyError::InvalidArgument.message(), "invalid argument length");
    assert_eq!(KeyError::InvalidKeyFormat.message(), "invalid public key format");
}

#[test]
fn off_curve_public_key_is_rejected() {
    // u = p - 1 lies on the twist, so the birational map refuses it.
    let mut u = vec![0xFFu8; 32];
    u[0] = 0xEC;
    u[31] = 0x7F;
    let key = encode_public(&u);
    assert_eq!(
        verify_signature(&key, b"m", &[0u8; 64]),
        Err(KeyError::InvalidKeyFormat)
    );
}
