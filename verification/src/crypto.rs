//! Cryptographic primitives: BLAKE3 hashing, Ed25519 signing and
//! verification, random bytes, and the nonce counter for authenticated
//! encryption.
//!
//! The hash and signature algorithms themselves are outside crates; their
//! results are named here (`spec_blake3`, `spec_ed25519_signature`, ...) as
//! pure functions of their inputs, which the outside sources show them to
//! be. Keys are modelled by the plain bytes they are built from, so every
//! function of this module speaks of byte sequences alone.

use vstd::prelude::*;

use crate::error::{SystemError, SystemResult};

verus! {

/// The BLAKE3 digest of a byte sequence.
pub uninterp spec fn spec_blake3(data: Seq<u8>) -> Seq<u8>;

/// The keyed BLAKE3 digest of a byte sequence.
pub uninterp spec fn spec_blake3_keyed(key: Seq<u8>, data: Seq<u8>) -> Seq<u8>;

/// The Ed25519 public key derived from a 32-byte secret seed.
pub uninterp spec fn spec_ed25519_public_key(seed: Seq<u8>) -> Seq<u8>;

/// The Ed25519 signature of a message under the key of a secret seed.
pub uninterp spec fn spec_ed25519_signature(seed: Seq<u8>, message: Seq<u8>) -> Seq<u8>;

/// Whether 32 bytes decode as a valid Ed25519 public key.
pub uninterp spec fn spec_ed25519_key_parseable(bytes: Seq<u8>) -> bool;

/// Whether a 64-byte signature verifies for a public key and message.
pub uninterp spec fn spec_ed25519_verifies(
    public_key: Seq<u8>,
    message: Seq<u8>,
    signature: Seq<u8>,
) -> bool;

/// Hash data with BLAKE3.
///
/// Relies on blake3's `Hasher`: the 32-byte digest is a pure function of the
/// input bytes.
#[verifier::external_body]
pub fn hash_blake3(data: &[u8]) -> (digest: [u8; 32])
    ensures
        digest@ == spec_blake3(data@),
{
    let mut hasher = blake3::Hasher::new();
    hasher.update(data);
    *hasher.finalize().as_bytes()
}

/// Hash data with keyed BLAKE3 (an HMAC-like operation).
///
/// Relies on blake3's `Hasher::new_keyed`: the 32-byte digest is a pure
/// function of the key and the input bytes.
#[verifier::external_body]
pub fn hash_blake3_keyed(key: &[u8; 32], data: &[u8]) -> (digest: [u8; 32])
    ensures
        digest@ == spec_blake3_keyed(key@, data@),
{
    let mut hasher = blake3::Hasher::new_keyed(key);
    hasher.update(data);
    *hasher.finalize().as_bytes()
}

/// Relies on ed25519_dalek's `SigningKey::generate` over the operating
/// system's randomness, and on `to_bytes` returning the generated seed.
/// Nothing is assumed of the seed drawn.
#[verifier::external_body]
fn ed25519_generate_seed() -> (seed: [u8; 32]) {
    ed25519_dalek::SigningKey::generate(&mut rand::rngs::OsRng).to_bytes()
}

/// Relies on ed25519_dalek's `SigningKey::from_bytes` and `verifying_key`:
/// the public key is a pure function of the seed, and a public key derived
/// this way decodes back as valid.
#[verifier::external_body]
fn ed25519_public_key(seed: &[u8; 32]) -> (pk: [u8; 32])
    ensures
        pk@ == spec_ed25519_public_key(seed@),
        spec_ed25519_key_parseable(pk@),
{
    ed25519_dalek::SigningKey::from_bytes(seed).verifying_key().to_bytes()
}

/// Relies on ed25519_dalek's `Signer::sign`, with `SigningKey::from_bytes`
/// marshalling the seed: Ed25519 signing is deterministic, a 64-byte
/// signature that is a pure function of the seed and the message.
#[verifier::external_body]
fn ed25519_sign(seed: &[u8; 32], message: &[u8]) -> (sig: Vec<u8>)
    ensures
        sig@ == spec_ed25519_signature(seed@, message@),
        sig@.len() == 64,
{
    let key = ed25519_dalek::SigningKey::from_bytes(seed);
    ed25519_dalek::Signer::sign(&key, message).to_bytes().to_vec()
}

/// Relies on ed25519_dalek's `VerifyingKey::from_bytes`: whether 32 bytes
/// decode as a valid public key depends on the bytes alone. The message of
/// the decoding error is handed back on failure.
#[verifier::external_body]
fn ed25519_parse_public_key(bytes: &[u8; 32]) -> (r: Result<(), String>)
    ensures
        r.is_ok() == spec_ed25519_key_parseable(bytes@),
{
    match ed25519_dalek::VerifyingKey::from_bytes(bytes) {
        Ok(_) => Ok(()),
        Err(e) => Err(e.to_string()),
    }
}

/// Relies on ed25519_dalek's `Verifier::verify`, with
/// `VerifyingKey::from_bytes` and `Signature::from_slice` marshalling the
/// arguments (both succeed here: the key bytes are valid by the
/// precondition, and `from_slice` only checks the 64-byte length):
/// acceptance of a signature is a pure function of the public key bytes, the
/// message and the signature bytes. The message of the verification error is
/// handed back on failure.
#[verifier::external_body]
fn ed25519_verify(public_key: &[u8; 32], message: &[u8], signature: &[u8]) -> (r: Result<
    (),
    String,
>)
    requires
        spec_ed25519_key_parseable(public_key@),
        signature@.len() == 64,
    ensures
        r.is_ok() == spec_ed25519_verifies(public_key@, message@, signature@),
{
    let key = match ed25519_dalek::VerifyingKey::from_bytes(public_key) {
        Ok(key) => key,
        Err(e) => return Err(e.to_string()),
    };
    let sig = match ed25519_dalek::Signature::from_slice(signature) {
        Ok(sig) => sig,
        Err(e) => return Err(e.to_string()),
    };
    ed25519_dalek::Verifier::verify(&key, message, &sig).map_err(|e| e.to_string())
}

/// Relies on ring's `SystemRandom::fill`: the buffer is filled with random
/// bytes from the system. Nothing is assumed of the values; the buffer's
/// length cannot change.
#[verifier::external_body]
fn ring_fill(buf: &mut Vec<u8>) -> (r: Result<(), ()>)
    ensures
        final(buf)@.len() == old(buf)@.len(),
{
    ring::rand::SecureRandom::fill(&ring::rand::SystemRandom::new(), buf.as_mut_slice()).map_err(
        |_| (),
    )
}

/// Ed25519 keypair for signing and verification, modelled by the 32-byte
/// secret seed it is built from.
#[derive(Clone)]
pub struct KeyPair {
    seed: [u8; 32],
}

impl KeyPair {
    /// The secret seed the keypair holds.
    pub closed spec fn spec_seed(self) -> Seq<u8> {
        self.seed@
    }

    /// Generate a keypair from the operating system's randomness.
    pub fn generate() -> (kp: KeyPair)
        ensures
            kp.spec_seed().len() == 32,
    {
        KeyPair { seed: ed25519_generate_seed() }
    }

    /// Create a keypair from a 32-byte seed.
    pub fn from_seed(seed: &[u8; 32]) -> (kp: KeyPair)
        ensures
            kp.spec_seed() == seed@,
    {
        KeyPair { seed: *seed }
    }

    /// The public key of this keypair.
    pub fn public_key(&self) -> (pk: PublicKey)
        ensures
            pk.spec_bytes() == spec_ed25519_public_key(self.spec_seed()),
            pk.wf(),
    {
        PublicKey { bytes: ed25519_public_key(&self.seed) }
    }

    /// Sign a message: 64 signature bytes, the same for every signing of the
    /// same message with the same keypair.
    pub fn sign(&self, message: &[u8]) -> (sig: Vec<u8>)
        ensures
            sig@ == spec_ed25519_signature(self.spec_seed(), message@),
            sig@.len() == 64,
    {
        ed25519_sign(&self.seed, message)
    }

    /// The seed bytes of the keypair.
    pub fn to_bytes(&self) -> (bytes: [u8; 32])
        ensures
            bytes@ == self.spec_seed(),
    {
        self.seed
    }
}

/// Ed25519 public key for signature verification, modelled by its 32
/// encoded bytes.
#[derive(Clone, Debug, PartialEq, Eq)]
pub struct PublicKey {
    bytes: [u8; 32],
}

impl PublicKey {
    /// The encoded bytes of the public key.
    pub closed spec fn spec_bytes(self) -> Seq<u8> {
        self.bytes@
    }

    /// Well-formedness: the bytes decode as a valid public key. Both
    /// constructors establish this.
    pub open spec fn wf(self) -> bool {
        spec_ed25519_key_parseable(self.spec_bytes())
    }

    /// Create a public key from its encoded bytes. Succeeds exactly when the
    /// bytes decode as a valid key.
    pub fn from_bytes(bytes: &[u8; 32]) -> (r: SystemResult<PublicKey>)
        ensures
            r.is_ok() <==> spec_ed25519_key_parseable(bytes@),
            r matches Ok(pk) ==> pk.spec_bytes() == bytes@ && pk.wf(),
            r matches Err(e) ==> (e matches SystemError::Crypto { operation, .. } && operation@
                == "public_key_parse"@),
    {
        match ed25519_parse_public_key(bytes) {
            Ok(()) => Ok(PublicKey { bytes: *bytes }),
            Err(message) => Err(SystemError::crypto("public_key_parse", message.as_str())),
        }
    }

    /// Verify a signature on a message. Succeeds exactly when the signature
    /// is 64 bytes long and verifies for this key and message; a wrong
    /// length is a parse error, a failed equation a verification error.
    pub fn verify(&self, message: &[u8], signature: &[u8]) -> (r: SystemResult<()>)
        requires
            self.wf(),
        ensures
            r.is_ok() <==> (signature@.len() == 64 && spec_ed25519_verifies(
                self.spec_bytes(),
                message@,
                signature@,
            )),
            signature@.len() != 64 ==> (r matches Err(e) && (e matches SystemError::Crypto {
                operation,
                ..
            } && operation@ == "signature_parse"@)),
            signature@.len() == 64 && !spec_ed25519_verifies(self.spec_bytes(), message@, signature@)
                ==> (r matches Err(e) && (e matches SystemError::Crypto { operation, .. }
                && operation@ == "signature_verify"@)),
    {
        if signature.len() != 64 {
            return Err(
                SystemError::crypto("signature_parse", "signature must be 64 bytes long"),
            );
        }
        match ed25519_verify(&self.bytes, message, signature) {
            Ok(()) => Ok(()),
            Err(message) => Err(SystemError::crypto("signature_verify", message.as_str())),
        }
    }

    /// The encoded bytes of the public key.
    pub fn to_bytes(&self) -> (bytes: [u8; 32])
        ensures
            bytes@ == self.spec_bytes(),
    {
        self.bytes
    }
}

/// Nonce counter for authenticated encryption: a 96-bit nonce whose last
/// eight bytes carry a little-endian counter, advanced once per sealing.
/// Never reusing a nonce under one key is the caller's obligation, met by
/// taking every nonce from one advancing counter.
pub struct Counter {
    counter: u64,
}

/// The `j`-th little-endian byte of a 64-bit counter value.
pub open spec fn spec_le_byte(value: u64, j: int) -> u8 {
    ((value >> ((j * 8) as u64)) & 0xff) as u8
}

impl Counter {
    /// The counter's current value.
    pub closed spec fn spec_value(self) -> u64 {
        self.counter
    }

    /// A counter starting at zero.
    pub fn new() -> (c: Counter)
        ensures
            c.spec_value() == 0,
    {
        Counter { counter: 0 }
    }

    /// Produce the next nonce: four zero bytes, then the counter value in
    /// little-endian order. The counter advances by one, wrapping at the
    /// 64-bit boundary.
    pub fn advance(&mut self) -> (nonce: Vec<u8>)
        ensures
            nonce@.len() == 12,
            nonce@[0] == 0 && nonce@[1] == 0 && nonce@[2] == 0 && nonce@[3] == 0,
            nonce@[4] == spec_le_byte(old(self).spec_value(), 0),
            nonce@[5] == spec_le_byte(old(self).spec_value(), 1),
            nonce@[6] == spec_le_byte(old(self).spec_value(), 2),
            nonce@[7] == spec_le_byte(old(self).spec_value(), 3),
            nonce@[8] == spec_le_byte(old(self).spec_value(), 4),
            nonce@[9] == spec_le_byte(old(self).spec_value(), 5),
            nonce@[10] == spec_le_byte(old(self).spec_value(), 6),
            nonce@[11] == spec_le_byte(old(self).spec_value(), 7),
            final(self).spec_value() == (old(self).spec_value() + 1) % 0x1_0000_0000_0000_0000,
    {
        let value = self.counter;
        let b0: u8 = #[verifier::truncate] ((value & 0xff) as u8);
        let b1: u8 = #[verifier::truncate] (((value >> 8u64) & 0xff) as u8);
        let b2: u8 = #[verifier::truncate] (((value >> 16u64) & 0xff) as u8);
        let b3: u8 = #[verifier::truncate] (((value >> 24u64) & 0xff) as u8);
        let b4: u8 = #[verifier::truncate] (((value >> 32u64) & 0xff) as u8);
        let b5: u8 = #[verifier::truncate] (((value >> 40u64) & 0xff) as u8);
        let b6: u8 = #[verifier::truncate] (((value >> 48u64) & 0xff) as u8);
        let b7: u8 = #[verifier::truncate] (((value >> 56u64) & 0xff) as u8);
        let mut nonce: Vec<u8> = Vec::new();
        nonce.push(0);
        nonce.push(0);
        nonce.push(0);
        nonce.push(0);
        nonce.push(b0);
        nonce.push(b1);
        nonce.push(b2);
        nonce.push(b3);
        nonce.push(b4);
        nonce.push(b5);
        nonce.push(b6);
        nonce.push(b7);
        self.counter = self.counter.wrapping_add(1);
        proof {
            assert(nonce@ =~= seq![0u8, 0u8, 0u8, 0u8, b0, b1, b2, b3, b4, b5, b6, b7]);
            assert((value >> ((0 * 8) as u64)) & 0xff == value & 0xff) by (bit_vector);
        }
        nonce
    }
}

/// Generate random bytes from the system's secure randomness. On success
/// the buffer has exactly the requested length; nothing is assumed about
/// its contents.
pub fn random_bytes(len: usize) -> (r: SystemResult<Vec<u8>>)
    ensures
        r matches Ok(bytes) ==> bytes@.len() == len,
        r matches Err(e) ==> (e matches SystemError::Crypto { operation, .. } && operation@
            == "random_generation"@),
{
    let mut buf: Vec<u8> = Vec::new();
    let mut i: usize = 0;
    while i < len
        invariant
            buf@.len() == i,
            i <= len,
        decreases len - i,
    {
        buf.push(0);
        i = i + 1;
    }
    match ring_fill(&mut buf) {
        Ok(()) => Ok(buf),
        Err(()) => Err(SystemError::crypto("random_generation", "Failed to generate random bytes")),
    }
}

} // verus!
