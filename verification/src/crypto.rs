//! The cryptographic primitives of the confidential channel, behind trusted
//! wrappers: X25519 key agreement, HKDF-SHA256 key derivation, AES-256-GCM
//! authenticated encryption, the BLAKE2b-256 digest, base64, and the
//! channel's randomness. Each wrapper's contract names what the outside
//! call returns; the protocol built on them is verified against those names.

use vstd::prelude::*;

use aes_gcm::aead::Aead;
use aes_gcm::{Aes256Gcm, KeyInit, Nonce};
use base64::engine::general_purpose::STANDARD;
use base64::Engine;
use blake2::digest::consts::U32;
use blake2::{Blake2b, Digest};
use hkdf::Hkdf;
use rand::Rng;
use sha2::Sha256;
use x25519_dalek::{PublicKey, StaticSecret};

verus! {

/// The X25519 shared secret of a private key and a peer's public key.
pub uninterp spec fn dh_shared(private_key: Seq<u8>, peer_public: Seq<u8>) -> Seq<u8>;

/// The X25519 public key of a private key.
pub uninterp spec fn dh_public(private_key: Seq<u8>) -> Seq<u8>;

/// The 32-byte key that HKDF-SHA256 derives from a salt and input keying
/// material, with empty info.
pub uninterp spec fn hkdf_key(salt: Seq<u8>, ikm: Seq<u8>) -> Seq<u8>;

/// The AES-256-GCM ciphertext (with its tag) of a plaintext under a key and
/// nonce, with no associated data.
pub uninterp spec fn aead_enc(key: Seq<u8>, nonce: Seq<u8>, plaintext: Seq<u8>) -> Seq<u8>;

/// The BLAKE2b-256 digest of a byte string.
pub uninterp spec fn blake2b_256(data: Seq<u8>) -> Seq<u8>;

/// The standard base64 encoding (with padding) of a byte string.
pub uninterp spec fn b64_of(data: Seq<u8>) -> Seq<char>;

/// What the standard base64 engine decodes a string to, where it accepts
/// it.
pub uninterp spec fn b64_decode_of(s: Seq<char>) -> Option<Seq<u8>>;

/// Relies on x25519_dalek's `diffie_hellman`. The result is a function of
/// the two key byte strings; and the two parties of an exchange agree: for
/// any private key behind the peer's public key, the peer computes the same
/// secret from our public key.
#[verifier::external_body]
pub fn x25519_shared(private_key: &Vec<u8>, peer_public: &Vec<u8>) -> (r: Vec<u8>)
    requires
        private_key@.len() == 32,
        peer_public@.len() == 32,
    ensures
        r@.len() == 32,
        r@ == dh_shared(private_key@, peer_public@),
        forall|b: Seq<u8>|
            peer_public@ == #[trigger] dh_public(b) ==> r@ == dh_shared(b, dh_public(private_key@)),
{
    let sk = StaticSecret::from(<[u8; 32]>::try_from(private_key.as_slice()).unwrap());
    let pk = PublicKey::from(<[u8; 32]>::try_from(peer_public.as_slice()).unwrap());
    sk.diffie_hellman(&pk).as_bytes().to_vec()
}

/// Relies on x25519_dalek's `PublicKey::from`: the public key derived from
/// a private key's bytes.
#[verifier::external_body]
pub fn x25519_public(private_key: &Vec<u8>) -> (r: Vec<u8>)
    requires
        private_key@.len() == 32,
    ensures
        r@.len() == 32,
        r@ == dh_public(private_key@),
{
    let sk = StaticSecret::from(<[u8; 32]>::try_from(private_key.as_slice()).unwrap());
    PublicKey::from(&sk).as_bytes().to_vec()
}

/// Relies on hkdf's `Hkdf::<Sha256>::expand` with empty info. Expanding to
/// 32 bytes is always within HKDF's length bound, so the call cannot fail.
#[verifier::external_body]
pub fn hkdf_sha256(salt: &Vec<u8>, ikm: &Vec<u8>) -> (r: Vec<u8>)
    ensures
        r@.len() == 32,
        r@ == hkdf_key(salt@, ikm@),
{
    let hk = Hkdf::<Sha256>::new(Some(salt.as_slice()), ikm.as_slice());
    let mut okm = [0u8; 32];
    hk.expand(&[], &mut okm).unwrap();
    okm.to_vec()
}

/// Relies on aes_gcm's `encrypt`: the ciphertext carries its tag after the
/// message, and the call fails only past the AES-GCM plaintext bound.
#[verifier::external_body]
pub fn aes256gcm_encrypt(key: &Vec<u8>, nonce: &Vec<u8>, plaintext: &Vec<u8>) -> (r: Result<
    Vec<u8>,
    (),
>)
    requires
        key@.len() == 32,
        nonce@.len() == 12,
    ensures
        r is Ok ==> r.unwrap()@ == aead_enc(key@, nonce@, plaintext@) && r.unwrap()@.len()
            == plaintext@.len() + 16,
        plaintext@.len() < 0x1000000000 ==> r is Ok,
{
    let cipher = Aes256Gcm::new_from_slice(key.as_slice()).unwrap();
    let n: [u8; 12] = nonce.as_slice().try_into().unwrap();
    cipher.encrypt(&Nonce::from(n), plaintext.as_slice()).map_err(|_| ())
}

/// Relies on aes_gcm's `decrypt`: it accepts exactly the ciphertexts made
/// under the same key and nonce, and returns the plaintext they were made
/// from.
#[verifier::external_body]
pub fn aes256gcm_decrypt(key: &Vec<u8>, nonce: &Vec<u8>, ciphertext: &Vec<u8>) -> (r: Result<
    Vec<u8>,
    (),
>)
    requires
        key@.len() == 32,
        nonce@.len() == 12,
    ensures
        r is Ok ==> ciphertext@ == aead_enc(key@, nonce@, r.unwrap()@),
        forall|pt: Seq<u8>|
            ciphertext@ == #[trigger] aead_enc(key@, nonce@, pt) ==> r is Ok && r.unwrap()@ == pt,
{
    let cipher = Aes256Gcm::new_from_slice(key.as_slice()).unwrap();
    let n: [u8; 12] = nonce.as_slice().try_into().unwrap();
    cipher.decrypt(&Nonce::from(n), ciphertext.as_slice()).map_err(|_| ())
}

/// Relies on blake2's `Blake2b<U32>`: the 32-byte BLAKE2b digest of the
/// input.
#[verifier::external_body]
pub fn blake2b_hash(slice: &[u8]) -> (r: Vec<u8>)
    ensures
        r@.len() == 32,
        r@ == blake2b_256(slice@),
{
    let mut hasher = Blake2b::<U32>::new();
    hasher.update(slice);
    hasher.finalize().to_vec()
}

/// Relies on base64's standard engine: the padded encoding of the input,
/// which decoding gives back.
#[verifier::external_body]
pub fn base64_encode(data: &[u8]) -> (r: String)
    ensures
        r@ == b64_of(data@),
        b64_decode_of(r@) == Some(data@),
{
    STANDARD.encode(data)
}

/// Relies on base64's standard engine: decoding is a function of the
/// string, accepting every encoded string and giving back the bytes it
/// encodes.
#[verifier::external_body]
pub fn base64_decode(s: &str) -> (r: Result<Vec<u8>, ()>)
    ensures
        r is Ok <==> b64_decode_of(s@) is Some,
        r is Ok ==> r.unwrap()@ == b64_decode_of(s@).unwrap(),
{
    STANDARD.decode(s).map_err(|_| ())
}

/// Relies on rand's `thread_rng`: 12 fresh bytes for a nonce. Nothing is
/// promised of their values.
#[verifier::external_body]
pub fn random_nonce() -> (r: Vec<u8>)
    ensures
        r@.len() == 12,
{
    rand::thread_rng().gen::<[u8; 12]>().to_vec()
}

/// Relies on rand's `thread_rng`: 16 fresh bytes for a salt. Nothing is
/// promised of their values.
#[verifier::external_body]
pub fn random_salt() -> (r: Vec<u8>)
    ensures
        r@.len() == 16,
{
    rand::thread_rng().gen::<[u8; 16]>().to_vec()
}

/// Relies on rand's `thread_rng`: 32 fresh bytes for an X25519 private key.
/// Nothing is promised of their values.
#[verifier::external_body]
pub fn random_key_bytes() -> (r: Vec<u8>)
    ensures
        r@.len() == 32,
{
    rand::thread_rng().gen::<[u8; 32]>().to_vec()
}

/// Relies on rand's `random`: a fresh sampling seed. Nothing is promised of
/// its value.
#[verifier::external_body]
pub fn random_seed() -> u64 {
    rand::random::<u64>()
}

} // verus!
