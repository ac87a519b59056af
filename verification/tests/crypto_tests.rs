//! Tests for the cryptographic primitives: hashing, signing, verification,
//! random bytes and the nonce counter.

use std::collections::HashSet;

use shared_core::crypto::{hash_blake3, hash_blake3_keyed, random_bytes, Counter, KeyPair, PublicKey};

#[test]
fn test_keypair_generation() {
    let keypair = KeyPair::generate();
    let public_key = keypair.public_key();

    let message = b"test message";
    let signature = keypair.sign(message);

    assert!(public_key.verify(message, &signature).is_ok());
}

#[test]
fn test_signature_verification_fails_wrong_message() {
    let keypair = KeyPair::generate();
    let public_key = keypair.public_key();

    let message = b"test message";
    let signature = keypair.sign(message);

    let wrong_message = b"wrong message";
    assert!(public_key.verify(wrong_message, &signature).is_err());
}

#[test]
fn test_signature_verification_wrong_key() {
    let keypair1 = KeyPair::generate();
    let keypair2 = KeyPair::generate();
    let public_key2 = keypair2.public_key();

    let message = b"test message";
    let signature = keypair1.sign(message);
    let is_valid = public_key2.verify(message, &signature);

    assert!(is_valid.is_err(), "Should not verify with wrong public key");
}

#[test]
fn signature_of_wrong_length_is_a_parse_error() {
    let keypair = KeyPair::generate();
    let public_key = keypair.public_key();

    let result = public_key.verify(b"message", &[0u8; 63]);
    match result {
        Err(shared_core::error::SystemError::Crypto { operation, .. }) => {
            assert_eq!(operation, "signature_parse");
        }
        other => panic!("expected a parse error, got {:?}", other),
    }
}

#[test]
fn signing_is_deterministic_per_seed() {
    let seed = [7u8; 32];
    let keypair1 = KeyPair::from_seed(&seed);
    let keypair2 = KeyPair::from_seed(&seed);

    assert_eq!(keypair1.to_bytes(), seed);
    assert_eq!(
        keypair1.public_key().to_bytes(),
        keypair2.public_key().to_bytes()
    );
    assert_eq!(keypair1.sign(b"payload"), keypair2.sign(b"payload"));
}

#[test]
fn public_key_round_trips_through_bytes() {
    let keypair = KeyPair::generate();
    let public_key = keypair.public_key();

    let restored = PublicKey::from_bytes(&public_key.to_bytes()).unwrap();
    let signature = keypair.sign(b"round trip");
    assert!(restored.verify(b"round trip", &signature).is_ok());
}

#[test]
fn invalid_public_key_bytes_are_rejected() {
    // About half of all y-coordinates have no point on the curve, so some
    // of these candidate encodings must be rejected as public keys.
    let mut saw_rejection = false;
    for b in 0..=255u8 {
        let mut bytes = [0u8; 32];
        bytes[0] = b;
        if PublicKey::from_bytes(&bytes).is_err() {
            saw_rejection = true;
        }
    }
    assert!(saw_rejection);
}

#[test]
fn test_blake3_hash() {
    let data = b"test data";
    let hash1 = hash_blake3(data);
    let hash2 = hash_blake3(data);

    assert_eq!(hash1, hash2);
    assert_ne!(hash1, [0u8; 32]);
}

#[test]
fn keyed_blake3_differs_from_unkeyed() {
    let data = b"test data";
    let key = [1u8; 32];
    let keyed = hash_blake3_keyed(&key, data);
    let unkeyed = hash_blake3(data);

    assert_ne!(keyed, unkeyed);
    assert_eq!(keyed, hash_blake3_keyed(&key, data));
    assert_ne!(keyed, hash_blake3_keyed(&[2u8; 32], data));
}

#[test]
fn test_hash_collision_resistance() {
    let mut hashes = HashSet::new();

    for i in 0..1000u64 {
        let data = i.to_le_bytes();
        let hash = hash_blake3(&data);
        assert!(hashes.insert(hash), "Hash collision detected");
    }
}

#[test]
fn test_constant_time_operations() {
    let keypair = KeyPair::generate();
    let message1 = b"a";
    let message2 = b"b";

    let sig1 = keypair.sign(message1);
    let sig2 = keypair.sign(message2);

    assert_eq!(sig1.len(), 64);
    assert_eq!(sig2.len(), 64);
}

#[test]
fn test_empty_data_handling() {
    // Empty hash
    let hash = hash_blake3(&[]);
    assert_eq!(hash.len(), 32);

    // Empty signature
    let keypair = KeyPair::generate();
    let sig = keypair.sign(&[]);
    assert_eq!(sig.len(), 64);
}

#[test]
fn test_random_bytes() {
    let bytes1 = random_bytes(32).unwrap();
    let bytes2 = random_bytes(32).unwrap();

    assert_eq!(bytes1.len(), 32);
    assert_eq!(bytes2.len(), 32);
    assert_ne!(bytes1, bytes2);
}

#[test]
fn nonce_counter_advances_little_endian() {
    let mut counter = Counter::new();

    let first = counter.advance();
    assert_eq!(first.len(), 12);
    assert_eq!(&first[0..4], &[0, 0, 0, 0]);
    assert_eq!(&first[4..12], &0u64.to_le_bytes());

    let second = counter.advance();
    assert_eq!(&second[4..12], &1u64.to_le_bytes());

    let third = counter.advance();
    assert_eq!(&third[4..12], &2u64.to_le_bytes());
}
