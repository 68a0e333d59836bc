//! XEdDSA over Curve25519: X25519 Diffie-Hellman key agreement together with
//! Schnorr-style signatures made from the same Montgomery private scalar.
//!
//! The byte-level logic — clamping, the public-key wire format, nonce and
//! challenge derivation, signature assembly and the verification equation —
//! is verified. The underlying constant-time group arithmetic is supplied by
//! an audited curve library and is called through a small set of trusted
//! wrappers in `curve`.

pub mod agreement;
pub mod bytes;
pub mod codec;
pub mod curve;
pub mod signer;
pub mod verify;

pub use agreement::X25519KeyPair;
pub use agreement::calculate_agreement;
pub use agreement::generate_keypair;
pub use agreement::get_public_from_private_key;
pub use codec::KeyError;
pub use codec::clamp_scalar;
pub use codec::encode_public;
pub use codec::scrub_pub_key_format;
pub use signer::calculate_signature;
pub use verify::verify_signature;
