//! The confidential channel, exercised end to end against the real
//! cryptography: a client-side envelope a node can open, a node-side
//! answer the client verifies, and the failure of every tampered variant.

use aes_gcm::aead::Aead;
use aes_gcm::KeyInit;
use base64::engine::general_purpose::STANDARD;
use base64::Engine;
use blake2::digest::consts::U32;
use blake2::{Blake2b, Digest};
use fastcrypto::traits::{KeyPair, Signer, ToFromBytes};
use guess_ai::channel::{
    decode_node_public_key, ecdh_round_trip, process_confidential_response,
    verify_response_hash_and_signature, AtomaSdk, AtomaSdkError, ConfidentialComputeResponse,
    NodesModelsRetrieveResponse,
};
use guess_ai::codec::{decode_chat_content, decode_guess_response, ChatCompletionMessage,
    ChatCompletionRequest};

fn blake2b_256_of(data: &[u8]) -> Vec<u8> {
    let mut hasher = Blake2b::<U32>::new();
    hasher.update(data);
    hasher.finalize().to_vec()
}

fn derive_key(salt: &[u8], shared: &[u8]) -> [u8; 32] {
    let hk = hkdf::Hkdf::<sha2::Sha256>::new(Some(salt), shared);
    let mut key = [0u8; 32];
    hk.expand(&[], &mut key).unwrap();
    key
}

fn aes_encrypt(key: &[u8; 32], nonce: &[u8; 12], plaintext: &[u8]) -> Vec<u8> {
    let cipher = aes_gcm::Aes256Gcm::new_from_slice(key).unwrap();
    cipher.encrypt(&aes_gcm::Nonce::from(*nonce), plaintext).unwrap()
}

fn aes_decrypt(key: &[u8; 32], nonce: &[u8; 12], ciphertext: &[u8]) -> Vec<u8> {
    let cipher = aes_gcm::Aes256Gcm::new_from_slice(key).unwrap();
    cipher.decrypt(&aes_gcm::Nonce::from(*nonce), ciphertext).unwrap()
}

#[test]
fn ecdh_round_trip_recovers_plaintext() {
    let a = vec![7u8; 32];
    let b = vec![9u8; 32];
    let nonce = vec![1u8; 12];
    let salt = vec![2u8; 16];
    let plaintext = b"a secret worth keeping".to_vec();
    let recovered = ecdh_round_trip(&a, &b, &nonce, &salt, &plaintext);
    assert_eq!(recovered, plaintext);
}

#[test]
fn decode_node_public_key_checks_length_and_encoding() {
    let good = STANDARD.encode([5u8; 32]);
    assert_eq!(decode_node_public_key(&good).unwrap(), vec![5u8; 32]);
    let short = STANDARD.encode([5u8; 31]);
    assert_eq!(
        decode_node_public_key(&short).unwrap_err(),
        AtomaSdkError::CreatePublicKeyError
    );
    assert_eq!(
        decode_node_public_key("not base64 at all!").unwrap_err(),
        AtomaSdkError::DecodeNodePublicKeyError
    );
}

#[test]
fn confidential_call_round_trip() {
    // The node's identity, as the directory would publish it.
    let node_private = [9u8; 32];
    let node_secret = x25519_dalek::StaticSecret::from(node_private);
    let node_public = x25519_dalek::PublicKey::from(&node_secret);
    let directory = NodesModelsRetrieveResponse {
        public_key: STANDARD.encode(node_public.as_bytes()),
        node_small_id: 1,
        stack_entry_digest: None,
        stack_small_id: 42,
    };

    // The client encrypts a request.
    let client_private = vec![7u8; 32];
    let sdk = AtomaSdk::new("k".to_string(), "m".to_string());
    let request = ChatCompletionRequest {
        model: "m".to_string(),
        messages: vec![ChatCompletionMessage {
            role: "user".to_string(),
            content: "is it a fork?".to_string(),
        }],
        seed: Some(5),
    };
    let (envelope, session) = sdk
        .begin_confidential_call(&client_private, &request, &directory)
        .unwrap();
    assert_eq!(envelope.stack_small_id, 42);
    assert_eq!(envelope.model_name, "m");
    assert_eq!(envelope.stream, Some(false));

    // The node opens it with its own key and the envelope's fields.
    let nonce: [u8; 12] = STANDARD
        .decode(&envelope.nonce)
        .unwrap()
        .as_slice()
        .try_into()
        .unwrap();
    let salt = STANDARD.decode(&envelope.salt).unwrap();
    let client_public: [u8; 32] = STANDARD
        .decode(&envelope.client_dh_public_key)
        .unwrap()
        .as_slice()
        .try_into()
        .unwrap();
    let shared = node_secret.diffie_hellman(&x25519_dalek::PublicKey::from(client_public));
    let key = derive_key(&salt, shared.as_bytes());
    let ciphertext = STANDARD.decode(&envelope.ciphertext).unwrap();
    let plaintext = aes_decrypt(&key, &nonce, &ciphertext);

    // The plaintext is the serialized request, and the envelope's hash is
    // its BLAKE2b-256 digest.
    let v: serde_json::Value = serde_json::from_slice(&plaintext).unwrap();
    assert_eq!(v["model"], "m");
    assert_eq!(v["seed"], 5);
    assert_eq!(v["messages"][0]["role"], "user");
    assert_eq!(v["messages"][0]["content"], "is it a fork?");
    assert_eq!(
        STANDARD.decode(&envelope.plaintext_body_hash).unwrap(),
        blake2b_256_of(&plaintext)
    );

    // The node answers: an encrypted chat completion, hashed and signed.
    let body = "{\"id\":\"r1\",\"created\":1,\"model\":\"m\",\"choices\":[{\"index\":0,\"message\":{\"role\":\"assistant\",\"content\":\"{\\\"is_correct\\\": true, \\\"explanation\\\": \\\"spot on\\\"}\"}}]}";
    let response_nonce = [3u8; 12];
    let response_ct = aes_encrypt(&key, &response_nonce, body.as_bytes());
    let response_hash = blake2b_256_of(body.as_bytes());
    let kp = fastcrypto::ed25519::Ed25519KeyPair::generate(&mut rand::thread_rng());
    let sig = kp.sign(&response_hash);
    let mut sig_envelope = vec![0u8];
    sig_envelope.extend_from_slice(sig.as_ref());
    sig_envelope.extend_from_slice(kp.public().as_bytes());
    assert_eq!(sig_envelope.len(), 97);
    let response = ConfidentialComputeResponse {
        ciphertext: STANDARD.encode(&response_ct),
        nonce: STANDARD.encode(response_nonce),
        signature: Some(STANDARD.encode(&sig_envelope)),
        response_hash: Some(STANDARD.encode(&response_hash)),
        usage: None,
    };

    // The client opens and verifies it, then reads the verdict.
    let opened = process_confidential_response(&client_private, &session, &response).unwrap();
    assert_eq!(opened, body.as_bytes());
    let content = decode_chat_content(&opened).unwrap();
    let answer = decode_guess_response(&content).unwrap();
    assert!(answer.is_correct);
    assert_eq!(answer.explanation, "spot on");

    // A missing hash, a missing signature, a flipped ciphertext bit and a
    // wrong hash each fail at their own stage.
    let mut no_hash = clone_response(&response);
    no_hash.response_hash = None;
    assert_eq!(
        process_confidential_response(&client_private, &session, &no_hash).unwrap_err(),
        AtomaSdkError::VerifyResponseHashAndSignatureError
    );
    let mut no_sig = clone_response(&response);
    no_sig.signature = None;
    assert_eq!(
        process_confidential_response(&client_private, &session, &no_sig).unwrap_err(),
        AtomaSdkError::VerifyResponseHashAndSignatureError
    );
    let mut tampered = clone_response(&response);
    let mut ct = response_ct.clone();
    ct[0] ^= 1;
    tampered.ciphertext = STANDARD.encode(&ct);
    assert_eq!(
        process_confidential_response(&client_private, &session, &tampered).unwrap_err(),
        AtomaSdkError::DecryptResponseError
    );
    let mut wrong_hash = clone_response(&response);
    let mut h = response_hash.clone();
    h[0] ^= 1;
    wrong_hash.response_hash = Some(STANDARD.encode(&h));
    assert_eq!(
        process_confidential_response(&client_private, &session, &wrong_hash).unwrap_err(),
        AtomaSdkError::VerifyResponseHashAndSignatureError
    );
    let mut short_nonce = clone_response(&response);
    short_nonce.nonce = STANDARD.encode([1u8; 4]);
    assert_eq!(
        process_confidential_response(&client_private, &session, &short_nonce).unwrap_err(),
        AtomaSdkError::InvalidNonceError
    );
    let mut short_hash = clone_response(&response);
    short_hash.response_hash = Some(STANDARD.encode([1u8; 8]));
    assert_eq!(
        process_confidential_response(&client_private, &session, &short_hash).unwrap_err(),
        AtomaSdkError::InvalidPayloadHashLengthError
    );
}

fn clone_response(r: &ConfidentialComputeResponse) -> ConfidentialComputeResponse {
    ConfidentialComputeResponse {
        ciphertext: r.ciphertext.clone(),
        nonce: r.nonce.clone(),
        signature: r.signature.clone(),
        response_hash: r.response_hash.clone(),
        usage: None,
    }
}

#[test]
fn verify_rejects_each_missing_or_wrong_part() {
    let body = b"payload".to_vec();
    let hash = blake2b_256_of(&body);
    let kp = fastcrypto::ed25519::Ed25519KeyPair::generate(&mut rand::thread_rng());
    let sig = kp.sign(&hash);
    let mut sig_envelope = vec![0u8];
    sig_envelope.extend_from_slice(sig.as_ref());
    sig_envelope.extend_from_slice(kp.public().as_bytes());
    let sig_b64 = STANDARD.encode(&sig_envelope);

    assert!(verify_response_hash_and_signature(
        &body,
        &Some(hash.clone()),
        &Some(sig_b64.clone())
    )
    .is_ok());
    assert!(verify_response_hash_and_signature(&body, &None, &Some(sig_b64.clone())).is_err());
    assert!(verify_response_hash_and_signature(&body, &Some(hash.clone()), &None).is_err());
    let mut wrong = hash.clone();
    wrong[31] ^= 0xff;
    assert!(
        verify_response_hash_and_signature(&body, &Some(wrong), &Some(sig_b64.clone())).is_err()
    );
    // A signature over a different message fails under its declared scheme.
    let other_sig = kp.sign(b"something else");
    let mut other_envelope = vec![0u8];
    other_envelope.extend_from_slice(other_sig.as_ref());
    other_envelope.extend_from_slice(kp.public().as_bytes());
    assert!(verify_response_hash_and_signature(
        &body,
        &Some(hash.clone()),
        &Some(STANDARD.encode(&other_envelope))
    )
    .is_err());
    // An unsupported scheme flag is refused.
    let mut odd_envelope = sig_envelope.clone();
    odd_envelope[0] = 9;
    assert!(verify_response_hash_and_signature(
        &body,
        &Some(hash),
        &Some(STANDARD.encode(&odd_envelope))
    )
    .is_err());
}

#[test]
fn blake2b_is_deterministic_and_bit_sensitive() {
    let data = b"the quick brown fox".to_vec();
    let d1 = guess_ai::crypto::blake2b_hash(&data);
    let d2 = guess_ai::crypto::blake2b_hash(&data);
    assert_eq!(d1, d2);
    let mut flipped = data.clone();
    flipped[0] ^= 0x01;
    assert_ne!(guess_ai::crypto::blake2b_hash(&flipped), d1);
    // The digest of the empty string is the BLAKE2b-256 reference value.
    let empty = guess_ai::crypto::blake2b_hash(&[]);
    let expected = "0e5751c026e543b2e8ab2eb06099daa1d1e5df47778f7787faab45cdf12fe3a8";
    let hex: String = empty.iter().map(|b| format!("{:02x}", b)).collect();
    assert_eq!(hex, expected);
}
