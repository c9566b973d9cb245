//! Authenticity of a compute node's response: the signature envelope and
//! its verification.
//!
//! A signature travels as base64 text over a flag byte, the signature
//! bytes, and the signer's public key: flag `0` is Ed25519 (64-byte
//! signature, 32-byte key), flag `1` Secp256k1 and flag `2` Secp256r1
//! (64-byte signature, 33-byte compressed key). Any other flag or length is
//! an unsupported envelope and verifies as nothing.

use vstd::prelude::*;

use fastcrypto::ed25519::{Ed25519PublicKey, Ed25519Signature};
use fastcrypto::secp256k1::{Secp256k1PublicKey, Secp256k1Signature};
use fastcrypto::secp256r1::{Secp256r1PublicKey, Secp256r1Signature};
use fastcrypto::traits::{ToFromBytes, VerifyingKey};

use crate::crypto::b64_decode_of;
use crate::json::copy_range;

verus! {

/// The signature schemes the channel accepts.
#[derive(Clone, Copy, Debug, PartialEq, Eq, Structural)]
pub enum SignatureScheme {
    Ed25519,
    Secp256k1,
    Secp256r1,
}

/// Whether fastcrypto's Ed25519 verification accepts `sig` on `msg` under
/// `public_key`.
pub uninterp spec fn ed25519_ok(public_key: Seq<u8>, sig: Seq<u8>, msg: Seq<u8>) -> bool;

/// Whether fastcrypto's Secp256k1 verification accepts `sig` on `msg`
/// under `public_key`.
pub uninterp spec fn secp256k1_ok(public_key: Seq<u8>, sig: Seq<u8>, msg: Seq<u8>) -> bool;

/// Whether fastcrypto's Secp256r1 verification accepts `sig` on `msg`
/// under `public_key`.
pub uninterp spec fn secp256r1_ok(public_key: Seq<u8>, sig: Seq<u8>, msg: Seq<u8>) -> bool;

/// How a signature envelope decomposes: the scheme its flag byte names,
/// the signature bytes, and the embedded public key.
pub open spec fn sp_parse_sig(b: Seq<u8>) -> Option<(SignatureScheme, Seq<u8>, Seq<u8>)> {
    if b.len() == 97 && b[0] == 0x00 {
        Some((SignatureScheme::Ed25519, b.subrange(1, 65), b.subrange(65, 97)))
    } else if b.len() == 98 && b[0] == 0x01 {
        Some((SignatureScheme::Secp256k1, b.subrange(1, 65), b.subrange(65, 98)))
    } else if b.len() == 98 && b[0] == 0x02 {
        Some((SignatureScheme::Secp256r1, b.subrange(1, 65), b.subrange(65, 98)))
    } else {
        None
    }
}

/// Decomposes a signature envelope, as `sp_parse_sig` says.
pub fn parse_signature(b: &[u8]) -> (r: Option<(SignatureScheme, Vec<u8>, Vec<u8>)>)
    ensures
        match r {
            Some(t) => sp_parse_sig(b@) == Some((t.0, t.1@, t.2@)),
            None => sp_parse_sig(b@) is None,
        },
{
    if b.len() == 97 && b[0] == 0x00 {
        Some((SignatureScheme::Ed25519, copy_range(b, 1, 65), copy_range(b, 65, 97)))
    } else if b.len() == 98 && b[0] == 0x01 {
        Some((SignatureScheme::Secp256k1, copy_range(b, 1, 65), copy_range(b, 65, 98)))
    } else if b.len() == 98 && b[0] == 0x02 {
        Some((SignatureScheme::Secp256r1, copy_range(b, 1, 65), copy_range(b, 65, 98)))
    } else {
        None
    }
}

/// Relies on fastcrypto's Ed25519 key and signature parsing and
/// verification: whether the bytes form a key and a valid signature of
/// `msg` under it. Malformed bytes verify as nothing.
#[verifier::external_body]
fn ed25519_verify(public_key: &Vec<u8>, sig: &Vec<u8>, msg: &Vec<u8>) -> (r: bool)
    ensures
        r == ed25519_ok(public_key@, sig@, msg@),
{
    match (
        Ed25519PublicKey::from_bytes(public_key.as_slice()),
        Ed25519Signature::from_bytes(sig.as_slice()),
    ) {
        (Ok(pk), Ok(s)) => pk.verify(msg.as_slice(), &s).is_ok(),
        _ => false,
    }
}

/// Relies on fastcrypto's Secp256k1 key and signature parsing and
/// verification, as `ed25519_verify` does for Ed25519.
#[verifier::external_body]
fn secp256k1_verify(public_key: &Vec<u8>, sig: &Vec<u8>, msg: &Vec<u8>) -> (r: bool)
    ensures
        r == secp256k1_ok(public_key@, sig@, msg@),
{
    match (
        Secp256k1PublicKey::from_bytes(public_key.as_slice()),
        Secp256k1Signature::from_bytes(sig.as_slice()),
    ) {
        (Ok(pk), Ok(s)) => pk.verify(msg.as_slice(), &s).is_ok(),
        _ => false,
    }
}

/// Relies on fastcrypto's Secp256r1 key and signature parsing and
/// verification, as `ed25519_verify` does for Ed25519.
#[verifier::external_body]
fn secp256r1_verify(public_key: &Vec<u8>, sig: &Vec<u8>, msg: &Vec<u8>) -> (r: bool)
    ensures
        r == secp256r1_ok(public_key@, sig@, msg@),
{
    match (
        Secp256r1PublicKey::from_bytes(public_key.as_slice()),
        Secp256r1Signature::from_bytes(sig.as_slice()),
    ) {
        (Ok(pk), Ok(s)) => pk.verify(msg.as_slice(), &s).is_ok(),
        _ => false,
    }
}

/// Whether a base64 signature text proves `msg`: its text decodes, the
/// envelope decomposes, and the named scheme accepts the signature over
/// `msg` under the embedded key.
pub open spec fn sig_verifies(s: Seq<char>, msg: Seq<u8>) -> bool {
    match b64_decode_of(s) {
        Some(bytes) => match sp_parse_sig(bytes) {
            Some((scheme, sig, pk)) => match scheme {
                SignatureScheme::Ed25519 => ed25519_ok(pk, sig, msg),
                SignatureScheme::Secp256k1 => secp256k1_ok(pk, sig, msg),
                SignatureScheme::Secp256r1 => secp256r1_ok(pk, sig, msg),
            },
            None => false,
        },
        None => false,
    }
}

/// Verifies a base64 signature text over a message, as `sig_verifies`
/// says: true exactly when the text decodes to a supported envelope whose
/// scheme accepts the signature.
pub fn verify_signature(base64_signature: &str, body_hash: &Vec<u8>) -> (r: bool)
    ensures
        r == sig_verifies(base64_signature@, body_hash@),
{
    match crate::crypto::base64_decode(base64_signature) {
        Ok(bytes) => match parse_signature(bytes.as_slice()) {
            Some((scheme, sig, pk)) => match scheme {
                SignatureScheme::Ed25519 => ed25519_verify(&pk, &sig, body_hash),
                SignatureScheme::Secp256k1 => secp256k1_verify(&pk, &sig, body_hash),
                SignatureScheme::Secp256r1 => secp256r1_verify(&pk, &sig, body_hash),
            },
            None => false,
        },
        Err(()) => false,
    }
}

} // verus!
