//! The confidential compute channel: one authenticated-encrypted
//! request/response round trip with a remote compute node.
//!
//! A call establishes a fresh session — a new nonce and salt, never reused —
//! derives an AES-256-GCM key from an X25519 exchange with the node's
//! published key via HKDF-SHA256, encrypts the serialized request, and on
//! the way back decrypts with the same key, recomputes the BLAKE2b-256
//! digest of the plaintext, and verifies the node's signature over it.
//! Unverified content never leaves this module: the plaintext is returned
//! only after both checks pass.
//!
//! The HTTP transport itself stays outside the library; the functions here
//! turn the wire records into values and back, and their contracts say
//! exactly which bytes travel.

use vstd::prelude::*;
use vstd::string::StringSliceAdditionalSpecFns;
use vstd::utf8::{decode_utf8, encode_utf8, valid_utf8};

use crate::codec::{build_request_bytes, sp_ser_request, ChatCompletionRequest};
use crate::crypto::{
    aead_enc, aes256gcm_decrypt, aes256gcm_encrypt, b64_decode_of, b64_of, base64_decode,
    base64_encode, blake2b_256, blake2b_hash, dh_public, dh_shared, hkdf_key, hkdf_sha256,
    random_nonce, random_salt, x25519_public, x25519_shared,
};
use crate::json::{as_str_bytes, as_u64, get_field, obj_get, parse_json, sp_json, Json, JsonV};
use crate::sig::{sig_verifies, verify_signature};

verus! {

/// The ceiling on compute units asked of the node for one request.
pub const MAX_COMPUTE_UNITS: u64 = 8192;

/// What can go wrong inside one confidential call.
#[derive(Clone, Copy, Debug, PartialEq, Eq, Structural)]
pub enum AtomaSdkError {
    /// The node's published key does not decode to 32 bytes.
    CreatePublicKeyError,
    /// A base64 field of the exchange does not decode.
    DecodeNodePublicKeyError,
    /// The response ciphertext does not decrypt under the session key.
    DecryptResponseError,
    /// The request could not be encrypted.
    EncryptRequestError,
    /// The response hash does not decode to 32 bytes.
    InvalidPayloadHashLengthError,
    /// The response nonce does not decode to 12 bytes.
    InvalidNonceError,
    /// A response the protocol cannot read.
    ParseResponseError,
    /// The hash or signature is missing, or fails its check.
    VerifyResponseHashAndSignatureError,
}

/// A handle on the compute service: the bearer credential and the model
/// that answers the requests.
pub struct AtomaSdk {
    /// The credential sent with each call.
    pub api_key: String,
    /// The model identifier the calls name.
    pub model: String,
}

impl AtomaSdk {
    /// A handle holding exactly the given credential and model.
    pub fn new(api_key: String, model: String) -> (r: AtomaSdk)
        ensures
            r.api_key@ == api_key@,
            r.model@ == model@,
    {
        AtomaSdk { api_key, model }
    }
}

/// The directory's record of a compute node serving a model.
pub struct NodesModelsRetrieveResponse {
    /// The node's X25519 public key, base64 encoded.
    pub public_key: String,
    /// The node's identifier.
    pub node_small_id: u64,
    /// The digest of the stack entry, where the directory names one.
    pub stack_entry_digest: Option<String>,
    /// The compute-allocation identifier the call is billed to.
    pub stack_small_id: u64,
}

/// The encrypted request envelope, every byte field base64 encoded.
pub struct ConfidentialComputeRequest {
    /// The encrypted request body.
    pub ciphertext: String,
    /// The compute-allocation identifier.
    pub stack_small_id: u64,
    /// The encryption nonce.
    pub nonce: String,
    /// The key-derivation salt.
    pub salt: String,
    /// The client's X25519 public key.
    pub client_dh_public_key: String,
    /// The node's X25519 public key.
    pub node_dh_public_key: String,
    /// The BLAKE2b-256 digest of the plaintext body.
    pub plaintext_body_hash: String,
    /// Whether the response streams; this channel never streams.
    pub stream: Option<bool>,
    /// The model that answers the request.
    pub model_name: String,
    /// The compute-unit budget of the call.
    pub num_compute_units: Option<u64>,
}

/// Usage accounting of one confidential call.
pub struct Usage {
    /// Compute units of the prompt.
    pub prompt_tokens: u64,
    /// Compute units of the completion, where reported.
    pub completion_tokens: Option<u64>,
    /// Compute units of the whole call.
    pub total_tokens: u64,
}

/// The encrypted response envelope.
pub struct ConfidentialComputeResponse {
    /// The encrypted response body, base64 encoded.
    pub ciphertext: String,
    /// The response's own nonce, base64 encoded.
    pub nonce: String,
    /// The node's signature over the response hash, base64 encoded.
    pub signature: Option<String>,
    /// The BLAKE2b-256 digest of the response body, base64 encoded.
    pub response_hash: Option<String>,
    /// Usage accounting, where reported.
    pub usage: Option<Usage>,
}

/// One call's ephemeral cryptographic state: generated fresh per call,
/// never reused.
pub struct ConfidentialSession {
    /// The node's X25519 public key, 32 bytes.
    pub node_public_key: Vec<u8>,
    /// The compute-allocation identifier the call is billed to.
    pub stack_small_id: u64,
    /// The request nonce, 12 bytes.
    pub nonce: Vec<u8>,
    /// The key-derivation salt, 16 bytes.
    pub salt: Vec<u8>,
}

impl ConfidentialSession {
    /// The session's fields have the lengths the protocol fixes.
    pub open spec fn wf(self) -> bool {
        self.node_public_key@.len() == 32 && self.nonce@.len() == 12 && self.salt@.len() == 16
    }
}

/// The u64 under `key` in the object `v`, where it is a plain numeral
/// naming one.
pub open spec fn sp_u64_field(v: JsonV, key: Seq<char>) -> Option<u64> {
    match v {
        JsonV::Obj(fs) => match obj_get(fs, encode_utf8(key)) {
            Some(w) => match w {
                JsonV::Num(lex) => if lex.len() > 0 && crate::dec::all_digits(lex)
                    && crate::dec::dec_val(lex) <= u64::MAX {
                    Some(crate::dec::dec_val(lex) as u64)
                } else {
                    None
                },
                _ => None,
            },
            None => None,
        },
        _ => None,
    }
}

/// Reads a u64-valued field of an object, as `sp_u64_field` says.
pub fn u64_field(j: &Json, key: &str) -> (r: Option<u64>)
    ensures
        r == sp_u64_field(j.v(), key@),
{
    match get_field(j, key) {
        Some(w) => as_u64(w),
        None => None,
    }
}

/// The string under `key` where the field is present; `Some(None)` where
/// the object lacks the field; `None` where it holds something that is not
/// a string of valid UTF-8.
pub open spec fn sp_opt_string_field(v: JsonV, key: Seq<char>) -> Option<Option<Seq<char>>> {
    match v {
        JsonV::Obj(fs) => match obj_get(fs, encode_utf8(key)) {
            Some(w) => match w {
                JsonV::Str(b) => if valid_utf8(b) {
                    Some(Some(decode_utf8(b)))
                } else {
                    None
                },
                _ => None,
            },
            None => Some(None),
        },
        _ => None,
    }
}

/// Reads an optional string field, as `sp_opt_string_field` says.
pub fn opt_string_field(j: &Json, key: &str) -> (r: Option<Option<String>>)
    ensures
        r is Some <==> sp_opt_string_field(j.v(), key@) is Some,
        r is Some ==> match r.unwrap() {
            Some(s) => sp_opt_string_field(j.v(), key@).unwrap() == Some(s@),
            None => sp_opt_string_field(j.v(), key@).unwrap() is None,
        },
{
    match j {
        Json::Obj(_) => match get_field(j, key) {
            Some(w) => match as_str_bytes(w) {
                Some(b) => match crate::codec::string_from_utf8(crate::codec::to_owned_bytes(
                    b.as_slice(),
                )) {
                    Some(s) => Some(Some(s)),
                    None => None,
                },
                None => None,
            },
            None => Some(None),
        },
        _ => None,
    }
}

/// What a directory record must hold: `public_key` as a string,
/// `node_small_id` and `stack_small_id` as numerals, and
/// `stack_entry_digest` as a string where present.
pub open spec fn sp_directory_of(s: Seq<u8>) -> Option<(Seq<char>, u64, Option<Seq<char>>, u64)> {
    match sp_json(s) {
        Some(v) => match crate::codec::sp_string_field(v, "public_key"@) {
            Some(pk) => match sp_u64_field(v, "node_small_id"@) {
                Some(node_id) => match sp_opt_string_field(v, "stack_entry_digest"@) {
                    Some(digest) => match sp_u64_field(v, "stack_small_id"@) {
                        Some(stack_id) => Some((pk, node_id, digest, stack_id)),
                        None => None,
                    },
                    None => None,
                },
                None => None,
            },
            None => None,
        },
        None => None,
    }
}

/// Decodes the directory's answer, as `sp_directory_of` says.
pub fn parse_directory_response(s: &[u8]) -> (r: Option<NodesModelsRetrieveResponse>)
    ensures
        r is Some <==> sp_directory_of(s@) is Some,
        r is Some ==> {
            let d = sp_directory_of(s@).unwrap();
            &&& r.unwrap().public_key@ == d.0
            &&& r.unwrap().node_small_id == d.1
            &&& match r.unwrap().stack_entry_digest {
                Some(g) => d.2 == Some(g@),
                None => d.2 is None,
            }
            &&& r.unwrap().stack_small_id == d.3
        },
{
    match parse_json(s) {
        Some(j) => match crate::codec::string_field(&j, "public_key") {
            Some(pk) => match u64_field(&j, "node_small_id") {
                Some(node_id) => match opt_string_field(&j, "stack_entry_digest") {
                    Some(digest) => match u64_field(&j, "stack_small_id") {
                        Some(stack_id) => Some(
                            NodesModelsRetrieveResponse {
                                public_key: pk,
                                node_small_id: node_id,
                                stack_entry_digest: digest,
                                stack_small_id: stack_id,
                            },
                        ),
                        None => None,
                    },
                    None => None,
                },
                None => None,
            },
            None => None,
        },
        None => None,
    }
}

/// The integer under `key` where the field is present; `Some(None)` where
/// the object lacks the field; `None` where it holds something that is not
/// a plain numeral naming a `u64`.
pub open spec fn sp_opt_u64_field(v: JsonV, key: Seq<char>) -> Option<Option<u64>> {
    match v {
        JsonV::Obj(fs) => match obj_get(fs, encode_utf8(key)) {
            Some(w) => match w {
                JsonV::Num(lex) => if lex.len() > 0 && crate::dec::all_digits(lex)
                    && crate::dec::dec_val(lex) <= u64::MAX {
                    Some(Some(crate::dec::dec_val(lex) as u64))
                } else {
                    None
                },
                _ => None,
            },
            None => Some(None),
        },
        _ => None,
    }
}

/// Reads an optional u64 field, as `sp_opt_u64_field` says.
pub fn opt_u64_field(j: &Json, key: &str) -> (r: Option<Option<u64>>)
    ensures
        r == sp_opt_u64_field(j.v(), key@),
{
    match j {
        Json::Obj(_) => match get_field(j, key) {
            Some(w) => match as_u64(w) {
                Some(n) => Some(Some(n)),
                None => None,
            },
            None => Some(None),
        },
        _ => None,
    }
}

/// What the envelope's usage object must hold where it is present:
/// `prompt_tokens` and `total_tokens` as numerals, `completion_tokens` as
/// one where given.
pub open spec fn sp_usage_of(v: JsonV) -> Option<Option<(u64, Option<u64>, u64)>> {
    match v {
        JsonV::Obj(fs) => match obj_get(fs, encode_utf8("usage"@)) {
            Some(u) => match u {
                JsonV::Obj(_) => match sp_u64_field(u, "prompt_tokens"@) {
                    Some(p) => match sp_opt_u64_field(u, "completion_tokens"@) {
                        Some(c) => match sp_u64_field(u, "total_tokens"@) {
                            Some(tt) => Some(Some((p, c, tt))),
                            None => None,
                        },
                        None => None,
                    },
                    None => None,
                },
                _ => None,
            },
            None => Some(None),
        },
        _ => None,
    }
}

/// Reads the envelope's usage accounting, as `sp_usage_of` says.
fn usage_of(j: &Json) -> (r: Option<Option<Usage>>)
    ensures
        r is Some <==> sp_usage_of(j.v()) is Some,
        r is Some ==> match r.unwrap() {
            Some(u) => sp_usage_of(j.v()).unwrap() == Some(
                (u.prompt_tokens, u.completion_tokens, u.total_tokens),
            ),
            None => sp_usage_of(j.v()).unwrap() is None,
        },
{
    match j {
        Json::Obj(_) => match get_field(j, "usage") {
            Some(u) => match u {
                Json::Obj(_) => match u64_field(u, "prompt_tokens") {
                    Some(p) => match opt_u64_field(u, "completion_tokens") {
                        Some(c) => match u64_field(u, "total_tokens") {
                            Some(tt) => Some(
                                Some(
                                    Usage {
                                        prompt_tokens: p,
                                        completion_tokens: c,
                                        total_tokens: tt,
                                    },
                                ),
                            ),
                            None => None,
                        },
                        None => None,
                    },
                    None => None,
                },
                _ => None,
            },
            None => Some(None),
        },
        _ => None,
    }
}

/// What a response envelope must hold: `ciphertext` and `nonce` as
/// strings, `signature` and `response_hash` as strings where present, and
/// well-formed usage accounting where given.
pub open spec fn sp_envelope_of(s: Seq<u8>) -> Option<
    (Seq<char>, Seq<char>, Option<Seq<char>>, Option<Seq<char>>, Option<(u64, Option<u64>, u64)>),
> {
    match sp_json(s) {
        Some(v) => match crate::codec::sp_string_field(v, "ciphertext"@) {
            Some(ct) => match crate::codec::sp_string_field(v, "nonce"@) {
                Some(n) => match sp_opt_string_field(v, "signature"@) {
                    Some(sg) => match sp_opt_string_field(v, "response_hash"@) {
                        Some(h) => match sp_usage_of(v) {
                            Some(u) => Some((ct, n, sg, h, u)),
                            None => None,
                        },
                        None => None,
                    },
                    None => None,
                },
                None => None,
            },
            None => None,
        },
        None => None,
    }
}

/// Decodes a response envelope, as `sp_envelope_of` says.
pub fn parse_compute_response(s: &[u8]) -> (r: Option<ConfidentialComputeResponse>)
    ensures
        r is Some <==> sp_envelope_of(s@) is Some,
        r is Some ==> {
            let e = sp_envelope_of(s@).unwrap();
            &&& r.unwrap().ciphertext@ == e.0
            &&& r.unwrap().nonce@ == e.1
            &&& match r.unwrap().signature {
                Some(g) => e.2 == Some(g@),
                None => e.2 is None,
            }
            &&& match r.unwrap().response_hash {
                Some(h) => e.3 == Some(h@),
                None => e.3 is None,
            }
            &&& match r.unwrap().usage {
                Some(u) => e.4 == Some((u.prompt_tokens, u.completion_tokens, u.total_tokens)),
                None => e.4 is None,
            }
        },
{
    match parse_json(s) {
        Some(j) => match crate::codec::string_field(&j, "ciphertext") {
            Some(ct) => match crate::codec::string_field(&j, "nonce") {
                Some(n) => match opt_string_field(&j, "signature") {
                    Some(sg) => match opt_string_field(&j, "response_hash") {
                        Some(h) => match usage_of(&j) {
                            Some(u) => Some(
                                ConfidentialComputeResponse {
                                    ciphertext: ct,
                                    nonce: n,
                                    signature: sg,
                                    response_hash: h,
                                    usage: u,
                                },
                            ),
                            None => None,
                        },
                        None => None,
                    },
                    None => None,
                },
                None => None,
            },
            None => None,
        },
        None => None,
    }
}

/// Whether two byte strings hold the same bytes, read without an early
/// exit: the whole length is walked whatever the bytes, as a comparison of
/// secret material asks.
fn ct_bytes_eq(a: &Vec<u8>, b: &Vec<u8>) -> (r: bool)
    ensures
        r == (a@ == b@),
{
    if a.len() != b.len() {
        return false;
    }
    let mut diff: u8 = 0;
    let mut i: usize = 0;
    while i < a.len()
        invariant
            0 <= i <= a@.len(),
            a@.len() == b@.len(),
            (diff == 0) <==> (forall|k: int| 0 <= k < i ==> a@[k] == b@[k]),
        decreases a@.len() - i,
    {
        let x = a[i];
        let y = b[i];
        let ghost d0 = diff;
        diff = diff | (x ^ y);
        proof {
            assert((d0 | (x ^ y)) == 0 <==> d0 == 0 && x == y) by (bit_vector);
        }
        i = i + 1;
    }
    if diff == 0 {
        proof {
            assert(a@ =~= b@);
        }
        true
    } else {
        false
    }
}

/// Checks a decrypted response body against the hash and signature the
/// node supplied: it passes exactly when both are present, the hash equals
/// the recomputed BLAKE2b-256 digest of the body, and the signature proves
/// that digest; any failure discards the response.
pub fn verify_response_hash_and_signature(
    response_body: &Vec<u8>,
    response_hash: &Option<Vec<u8>>,
    signature: &Option<String>,
) -> (r: Result<(), AtomaSdkError>)
    ensures
        r is Ok <==> match (response_hash, signature) {
            (Some(h), Some(sg)) => h@ == blake2b_256(response_body@) && sig_verifies(
                sg@,
                blake2b_256(response_body@),
            ),
            _ => false,
        },
        r is Err ==> r == Err::<(), AtomaSdkError>(
            AtomaSdkError::VerifyResponseHashAndSignatureError,
        ),
{
    match (response_hash, signature) {
        (Some(h), Some(sg)) => {
            let computed = blake2b_hash(response_body.as_slice());
            if !ct_bytes_eq(h, &computed) {
                return Err(AtomaSdkError::VerifyResponseHashAndSignatureError);
            }
            if !verify_signature(sg.as_str(), &computed) {
                return Err(AtomaSdkError::VerifyResponseHashAndSignatureError);
            }
            Ok(())
        },
        _ => Err(AtomaSdkError::VerifyResponseHashAndSignatureError),
    }
}

/// Decodes a node's published key, which must be base64 for exactly 32
/// bytes.
pub fn decode_node_public_key(public_key: &str) -> (r: Result<Vec<u8>, AtomaSdkError>)
    ensures
        r is Ok <==> b64_decode_of(public_key@) is Some && b64_decode_of(
            public_key@,
        ).unwrap().len() == 32,
        r is Ok ==> r.unwrap()@ == b64_decode_of(public_key@).unwrap(),
        r == Err::<Vec<u8>, AtomaSdkError>(AtomaSdkError::DecodeNodePublicKeyError) <==> b64_decode_of(
            public_key@,
        ) is None,
        r == Err::<Vec<u8>, AtomaSdkError>(AtomaSdkError::CreatePublicKeyError) <==> b64_decode_of(
            public_key@,
        ) is Some && b64_decode_of(public_key@).unwrap().len() != 32,
{
    match base64_decode(public_key) {
        Ok(b) => {
            if b.len() == 32 {
                Ok(b)
            } else {
                Err(AtomaSdkError::CreatePublicKeyError)
            }
        },
        Err(()) => Err(AtomaSdkError::DecodeNodePublicKeyError),
    }
}

/// The AES key of a session: derived from the salt and the X25519 shared
/// secret of the client's private key and the node's public key.
pub open spec fn session_key(client_private_key: Seq<u8>, session: ConfidentialSession) -> Seq<
    u8,
> {
    hkdf_key(session.salt@, dh_shared(client_private_key, session.node_public_key@))
}

/// Encrypts a request for a node and assembles the envelope around it:
/// the ciphertext, nonce, salt, both parties' public keys and the
/// plaintext digest, each base64; the call never streams and carries the
/// fixed compute budget.
pub fn encrypt_chat_completions_request(
    request: &ChatCompletionRequest,
    client_private_key: &Vec<u8>,
    node_public_key: &Vec<u8>,
    model_name: String,
    nonce: &Vec<u8>,
    salt: &Vec<u8>,
    stack_small_id: u64,
) -> (r: Result<ConfidentialComputeRequest, AtomaSdkError>)
    requires
        client_private_key@.len() == 32,
        node_public_key@.len() == 32,
        nonce@.len() == 12,
    ensures
        sp_ser_request(*request).len() < 0x1000000000 ==> r is Ok,
        r is Err ==> r == Err::<ConfidentialComputeRequest, AtomaSdkError>(
            AtomaSdkError::EncryptRequestError,
        ),
        r is Ok ==> {
            let key = hkdf_key(salt@, dh_shared(client_private_key@, node_public_key@));
            let body = sp_ser_request(*request);
            &&& r.unwrap().ciphertext@ == b64_of(aead_enc(key, nonce@, body))
            &&& r.unwrap().nonce@ == b64_of(nonce@)
            &&& r.unwrap().salt@ == b64_of(salt@)
            &&& r.unwrap().client_dh_public_key@ == b64_of(dh_public(client_private_key@))
            &&& r.unwrap().node_dh_public_key@ == b64_of(node_public_key@)
            &&& r.unwrap().plaintext_body_hash@ == b64_of(blake2b_256(body))
            &&& r.unwrap().stack_small_id == stack_small_id
            &&& r.unwrap().model_name@ == model_name@
            &&& r.unwrap().stream == Some(false)
            &&& r.unwrap().num_compute_units == Some(MAX_COMPUTE_UNITS)
        },
{
    let shared = x25519_shared(client_private_key, node_public_key);
    let key = hkdf_sha256(salt, &shared);
    let body = build_request_bytes(request);
    let ciphertext = match aes256gcm_encrypt(&key, nonce, &body) {
        Ok(ct) => ct,
        Err(()) => {
            return Err(AtomaSdkError::EncryptRequestError);
        },
    };
    let payload_hash = blake2b_hash(body.as_slice());
    let client_public = x25519_public(client_private_key);
    Ok(
        ConfidentialComputeRequest {
            ciphertext: base64_encode(ciphertext.as_slice()),
            stack_small_id,
            nonce: base64_encode(nonce.as_slice()),
            salt: base64_encode(salt.as_slice()),
            client_dh_public_key: base64_encode(client_public.as_slice()),
            node_dh_public_key: base64_encode(node_public_key.as_slice()),
            plaintext_body_hash: base64_encode(payload_hash.as_slice()),
            stream: Some(false),
            model_name,
            num_compute_units: Some(MAX_COMPUTE_UNITS),
        },
    )
}

/// Decrypts a response body with the session's key and the nonce the
/// response carries: it succeeds exactly on the ciphertexts made under
/// that key and nonce, and returns the plaintext they were made from.
pub fn decrypt_chat_completions_response(
    ciphertext: &Vec<u8>,
    client_private_key: &Vec<u8>,
    node_public_key: &Vec<u8>,
    nonce: &Vec<u8>,
    salt: &Vec<u8>,
) -> (r: Result<Vec<u8>, AtomaSdkError>)
    requires
        client_private_key@.len() == 32,
        node_public_key@.len() == 32,
        nonce@.len() == 12,
    ensures
        ({
            let key = hkdf_key(salt@, dh_shared(client_private_key@, node_public_key@));
            &&& (r is Ok ==> ciphertext@ == aead_enc(key, nonce@, r.unwrap()@))
            &&& (forall|pt: Seq<u8>|
                ciphertext@ == #[trigger] aead_enc(key, nonce@, pt) ==> r is Ok && r.unwrap()@
                    == pt)
            &&& (r is Err ==> r == Err::<Vec<u8>, AtomaSdkError>(
                AtomaSdkError::DecryptResponseError,
            ))
        }),
{
    let shared = x25519_shared(client_private_key, node_public_key);
    let key = hkdf_sha256(salt, &shared);
    match aes256gcm_decrypt(&key, nonce, ciphertext) {
        Ok(pt) => Ok(pt),
        Err(()) => Err(AtomaSdkError::DecryptResponseError),
    }
}

/// The ciphertext field decodes.
pub open spec fn ct_decodes(resp: ConfidentialComputeResponse) -> bool {
    b64_decode_of(resp.ciphertext@) is Some
}

/// The nonce field decodes.
pub open spec fn nonce_decodes(resp: ConfidentialComputeResponse) -> bool {
    b64_decode_of(resp.nonce@) is Some
}

/// The nonce field decodes to the 12 bytes AES-GCM asks.
pub open spec fn nonce_fits(resp: ConfidentialComputeResponse) -> bool {
    nonce_decodes(resp) && b64_decode_of(resp.nonce@).unwrap().len() == 12
}

/// The hash field, where present, decodes.
pub open spec fn hash_decodes(resp: ConfidentialComputeResponse) -> bool {
    match resp.response_hash {
        Some(h) => b64_decode_of(h@) is Some,
        None => true,
    }
}

/// The hash field, where present, decodes to the 32 bytes of a BLAKE2b-256
/// digest.
pub open spec fn hash_fits(resp: ConfidentialComputeResponse) -> bool {
    match resp.response_hash {
        Some(h) => b64_decode_of(h@) is Some && b64_decode_of(h@).unwrap().len() == 32,
        None => true,
    }
}

/// The ciphertext was made under the session's key and the response's
/// nonce.
pub open spec fn decryptable(
    client_private_key: Seq<u8>,
    session: ConfidentialSession,
    resp: ConfidentialComputeResponse,
) -> bool {
    let key = session_key(client_private_key, session);
    let n = b64_decode_of(resp.nonce@).unwrap();
    let ct = b64_decode_of(resp.ciphertext@).unwrap();
    exists|pt: Seq<u8>| ct == #[trigger] aead_enc(key, n, pt)
}

/// The response is authentic: hash and signature are present, the
/// ciphertext decrypts, the hash is the digest of the plaintext, and the
/// signature proves that digest.
pub open spec fn authentic(
    client_private_key: Seq<u8>,
    session: ConfidentialSession,
    resp: ConfidentialComputeResponse,
) -> bool {
    let key = session_key(client_private_key, session);
    let n = b64_decode_of(resp.nonce@).unwrap();
    let ct = b64_decode_of(resp.ciphertext@).unwrap();
    match (resp.response_hash, resp.signature) {
        (Some(h), Some(sg)) => exists|pt: Seq<u8>|
            ct == #[trigger] aead_enc(key, n, pt) && b64_decode_of(h@) == Some(blake2b_256(pt))
                && sig_verifies(sg@, blake2b_256(pt)),
        _ => false,
    }
}

/// Opens a response envelope: decodes its fields, decrypts the body with
/// the session's key, and verifies the hash and the signature. The
/// plaintext leaves this function only when every check has passed, and
/// each failure names its stage.
pub fn process_confidential_response(
    client_private_key: &Vec<u8>,
    session: &ConfidentialSession,
    resp: &ConfidentialComputeResponse,
) -> (r: Result<Vec<u8>, AtomaSdkError>)
    requires
        client_private_key@.len() == 32,
        session.wf(),
    ensures
        r is Ok <==> ct_decodes(*resp) && nonce_fits(*resp) && hash_fits(*resp) && authentic(
            client_private_key@,
            *session,
            *resp,
        ),
        r is Ok ==> {
            let key = session_key(client_private_key@, *session);
            let n = b64_decode_of(resp.nonce@).unwrap();
            &&& b64_decode_of(resp.ciphertext@).unwrap() == aead_enc(key, n, r.unwrap()@)
            &&& resp.response_hash matches Some(h) && b64_decode_of(h@) == Some(
                blake2b_256(r.unwrap()@),
            )
            &&& resp.signature matches Some(sg) && sig_verifies(sg@, blake2b_256(r.unwrap()@))
        },
        r == Err::<Vec<u8>, AtomaSdkError>(AtomaSdkError::DecodeNodePublicKeyError) <==> (!ct_decodes(
            *resp,
        ) || (ct_decodes(*resp) && !nonce_decodes(*resp)) || (ct_decodes(*resp) && nonce_fits(
            *resp,
        ) && !hash_decodes(*resp))),
        r == Err::<Vec<u8>, AtomaSdkError>(AtomaSdkError::InvalidNonceError) <==> ct_decodes(*resp)
            && nonce_decodes(*resp) && !nonce_fits(*resp),
        r == Err::<Vec<u8>, AtomaSdkError>(AtomaSdkError::InvalidPayloadHashLengthError) <==> ct_decodes(
            *resp,
        ) && nonce_fits(*resp) && hash_decodes(*resp) && !hash_fits(*resp),
        r == Err::<Vec<u8>, AtomaSdkError>(AtomaSdkError::DecryptResponseError) <==> ct_decodes(
            *resp,
        ) && nonce_fits(*resp) && hash_fits(*resp) && !decryptable(
            client_private_key@,
            *session,
            *resp,
        ),
        r == Err::<Vec<u8>, AtomaSdkError>(AtomaSdkError::VerifyResponseHashAndSignatureError)
            <==> ct_decodes(*resp) && nonce_fits(*resp) && hash_fits(*resp) && decryptable(
            client_private_key@,
            *session,
            *resp,
        ) && !authentic(client_private_key@, *session, *resp),
{
    let ct = match base64_decode(resp.ciphertext.as_str()) {
        Ok(b) => b,
        Err(()) => {
            return Err(AtomaSdkError::DecodeNodePublicKeyError);
        },
    };
    let n = match base64_decode(resp.nonce.as_str()) {
        Ok(b) => b,
        Err(()) => {
            return Err(AtomaSdkError::DecodeNodePublicKeyError);
        },
    };
    if n.len() != 12 {
        return Err(AtomaSdkError::InvalidNonceError);
    }
    let hash_bytes: Option<Vec<u8>> = match &resp.response_hash {
        Some(h) => match base64_decode(h.as_str()) {
            Ok(b) => {
                if b.len() != 32 {
                    return Err(AtomaSdkError::InvalidPayloadHashLengthError);
                }
                Some(b)
            },
            Err(()) => {
                return Err(AtomaSdkError::DecodeNodePublicKeyError);
            },
        },
        None => None,
    };
    let ghost key = session_key(client_private_key@, *session);
    let ghost nn = b64_decode_of(resp.nonce@).unwrap();
    let ghost ctd = b64_decode_of(resp.ciphertext@).unwrap();
    let body = match decrypt_chat_completions_response(
        &ct,
        client_private_key,
        &session.node_public_key,
        &n,
        &session.salt,
    ) {
        Ok(b) => b,
        Err(_) => {
            proof {
                assert(!decryptable(client_private_key@, *session, *resp)) by {
                    if decryptable(client_private_key@, *session, *resp) {
                        let pt = choose|pt: Seq<u8>| ctd == #[trigger] aead_enc(key, nn, pt);
                        assert(ct@ == aead_enc(key, nn, pt));
                    }
                }
            }
            return Err(AtomaSdkError::DecryptResponseError);
        },
    };
    proof {
        assert(ctd == aead_enc(key, nn, body@));
        assert(decryptable(client_private_key@, *session, *resp));
    }
    match verify_response_hash_and_signature(&body, &hash_bytes, &resp.signature) {
        Ok(()) => {
            proof {
                assert(authentic(client_private_key@, *session, *resp)) by {
                    assert(ctd == aead_enc(key, nn, body@));
                }
            }
            Ok(body)
        },
        Err(e) => {
            proof {
                assert(!authentic(client_private_key@, *session, *resp)) by {
                    if authentic(client_private_key@, *session, *resp) {
                        let h = resp.response_hash.unwrap();
                        let sg = resp.signature.unwrap();
                        let pt = choose|pt: Seq<u8>|
                            ctd == #[trigger] aead_enc(key, nn, pt) && b64_decode_of(h@) == Some(
                                blake2b_256(pt),
                            ) && sig_verifies(sg@, blake2b_256(pt));
                        assert(ct@ == aead_enc(key, nn, pt));
                        assert(pt == body@);
                    }
                }
            }
            Err(e)
        },
    }
}

/// The ends of a key exchange agree — a round trip across the channel's
/// whole cipher pipeline: a plaintext encrypted with one party's private
/// key and the other's public key decrypts under the opposite pairing,
/// with the same nonce and salt, to the original plaintext.
pub fn ecdh_round_trip(
    a_private: &Vec<u8>,
    b_private: &Vec<u8>,
    nonce: &Vec<u8>,
    salt: &Vec<u8>,
    plaintext: &Vec<u8>,
) -> (r: Vec<u8>)
    requires
        a_private@.len() == 32,
        b_private@.len() == 32,
        nonce@.len() == 12,
        plaintext@.len() < 0x1000000000,
    ensures
        r@ == plaintext@,
{
    let a_public = x25519_public(a_private);
    let b_public = x25519_public(b_private);
    let shared_a = x25519_shared(a_private, &b_public);
    let key_a = hkdf_sha256(salt, &shared_a);
    let ciphertext = match aes256gcm_encrypt(&key_a, nonce, plaintext) {
        Ok(ct) => ct,
        Err(()) => {
            return vstd::pervasive::unreached();
        },
    };
    let shared_b = x25519_shared(b_private, &a_public);
    assert(shared_a@ == shared_b@);
    let key_b = hkdf_sha256(salt, &shared_b);
    match aes256gcm_decrypt(&key_b, nonce, &ciphertext) {
        Ok(pt) => pt,
        Err(()) => vstd::pervasive::unreached(),
    }
}

impl AtomaSdk {
    /// Opens a confidential call: decodes the node's key from the
    /// directory's record, draws the call's fresh nonce and salt, and
    /// encrypts the request. Returns the envelope to send and the session
    /// that will open the node's answer.
    pub fn begin_confidential_call(
        &self,
        client_private_key: &Vec<u8>,
        request: &ChatCompletionRequest,
        directory: &NodesModelsRetrieveResponse,
    ) -> (r: Result<(ConfidentialComputeRequest, ConfidentialSession), AtomaSdkError>)
        requires
            client_private_key@.len() == 32,
        ensures
            r is Ok ==> {
                let env = r.unwrap().0;
                let session = r.unwrap().1;
                let key = session_key(client_private_key@, session);
                let body = sp_ser_request(*request);
                &&& session.wf()
                &&& session.node_public_key@ == b64_decode_of(directory.public_key@).unwrap()
                &&& session.stack_small_id == directory.stack_small_id
                &&& env.ciphertext@ == b64_of(aead_enc(key, session.nonce@, body))
                &&& env.nonce@ == b64_of(session.nonce@)
                &&& env.salt@ == b64_of(session.salt@)
                &&& env.client_dh_public_key@ == b64_of(dh_public(client_private_key@))
                &&& env.node_dh_public_key@ == b64_of(session.node_public_key@)
                &&& env.plaintext_body_hash@ == b64_of(blake2b_256(body))
                &&& env.stack_small_id == directory.stack_small_id
                &&& env.model_name@ == self.model@
                &&& env.stream == Some(false)
                &&& env.num_compute_units == Some(MAX_COMPUTE_UNITS)
            },
            r == Err::<(ConfidentialComputeRequest, ConfidentialSession), AtomaSdkError>(
                AtomaSdkError::DecodeNodePublicKeyError,
            ) <==> b64_decode_of(directory.public_key@) is None,
            r == Err::<(ConfidentialComputeRequest, ConfidentialSession), AtomaSdkError>(
                AtomaSdkError::CreatePublicKeyError,
            ) <==> b64_decode_of(directory.public_key@) is Some && b64_decode_of(
                directory.public_key@,
            ).unwrap().len() != 32,
            b64_decode_of(directory.public_key@) is Some && b64_decode_of(
                directory.public_key@,
            ).unwrap().len() == 32 && sp_ser_request(*request).len() < 0x1000000000 ==> r is Ok,
    {
        let node_public_key = match decode_node_public_key(self_public_key_str(directory)) {
            Ok(k) => k,
            Err(e) => {
                return Err(e);
            },
        };
        let session = ConfidentialSession {
            node_public_key,
            stack_small_id: directory.stack_small_id,
            nonce: random_nonce(),
            salt: random_salt(),
        };
        match encrypt_chat_completions_request(
            request,
            client_private_key,
            &session.node_public_key,
            self.model.clone(),
            &session.nonce,
            &session.salt,
            directory.stack_small_id,
        ) {
            Ok(env) => Ok((env, session)),
            Err(e) => Err(e),
        }
    }
}

/// The directory record's key field, as a borrowed string.
fn self_public_key_str(directory: &NodesModelsRetrieveResponse) -> (r: &str)
    ensures
        r@ == directory.public_key@,
{
    directory.public_key.as_str()
}

} // verus!
