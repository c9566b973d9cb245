//! The JSON codec and the wire-record decoders: exact values for the
//! shapes the protocol names, and refusal of everything outside them.

use guess_ai::channel::{parse_compute_response, parse_directory_response};
use guess_ai::codec::{
    build_request_bytes, decode_chat_content, decode_guess_response, decode_hint_response,
    decode_secret_response, ChatCompletionMessage, ChatCompletionRequest,
};
use guess_ai::dec::{parse_dec_u64, u64_to_dec};
use guess_ai::events::{parse_event, GuessAiEvent, GuessAiEventIdentifier,
    SecretGuessingEventIdentifier};
use guess_ai::json::{parse_json, Json};

#[test]
fn decimal_text_round_trips_and_overflows_are_refused() {
    assert_eq!(u64_to_dec(0), b"0".to_vec());
    assert_eq!(u64_to_dec(90210), b"90210".to_vec());
    assert_eq!(u64_to_dec(u64::MAX), b"18446744073709551615".to_vec());
    assert_eq!(parse_dec_u64(b"90210"), Some(90210));
    assert_eq!(parse_dec_u64(b"18446744073709551615"), Some(u64::MAX));
    assert_eq!(parse_dec_u64(b"18446744073709551616"), None);
    assert_eq!(parse_dec_u64(b""), None);
    assert_eq!(parse_dec_u64(b"12a"), None);
    assert_eq!(parse_dec_u64(b"007"), Some(7));
}

#[test]
fn json_parser_reads_the_grammar_and_nothing_more() {
    // Shapes, whitespace and escapes.
    let j = parse_json(b" {\"a\": [1, true, null, \"x\\ny\"], \"b\": {\"c\": false}} ").unwrap();
    match &j {
        Json::Obj(fields) => {
            assert_eq!(fields.len(), 2);
            assert_eq!(fields[0].0, b"a".to_vec());
            match &fields[0].1 {
                Json::Arr(es) => {
                    assert_eq!(es.len(), 4);
                    assert!(matches!(&es[0], Json::Num(lex) if lex == &b"1".to_vec()));
                    assert!(matches!(es[1], Json::Bool(true)));
                    assert!(matches!(es[2], Json::Null));
                    assert!(matches!(&es[3], Json::Str(s) if s == &b"x\ny".to_vec()));
                },
                _ => panic!("expected an array"),
            }
        },
        _ => panic!("expected an object"),
    }
    // Raw UTF-8 passes through; a numeral may be negative lexically.
    assert!(parse_json("{\"s\": \"caf\u{e9}\", \"n\": -3}".as_bytes()).is_some());
    // Outside the grammar: trailing text, fractions, raw control bytes,
    // unbalanced objects.
    assert!(parse_json(b"{} trailing").is_none());
    assert!(parse_json(b"{\"a\": 1.5}").is_none());
    assert!(parse_json(b"{\"a\": \"\x01\"}").is_none());
    assert!(parse_json(b"{\"a\": 1").is_none());
    assert!(parse_json(b"").is_none());
}

#[test]
fn unicode_escapes_decode_to_utf8() {
    // A one-byte, a two-byte and a three-byte scalar, of either hex case.
    match parse_json(b"\"\\u0041\\u00e9\\u20AC\"").unwrap() {
        Json::Str(s) => assert_eq!(String::from_utf8(s).unwrap(), "A\u{e9}\u{20ac}"),
        _ => panic!("expected a string"),
    }
    // A surrogate pair names one supplementary scalar.
    match parse_json(b"\"\\uD83D\\uDE00\"").unwrap() {
        Json::Str(s) => assert_eq!(String::from_utf8(s).unwrap(), "\u{1f600}"),
        _ => panic!("expected a string"),
    }
    // Control characters arrive the way serde_json writes them.
    match parse_json(b"\"\\u001f\"").unwrap() {
        Json::Str(s) => assert_eq!(s, vec![0x1f]),
        _ => panic!("expected a string"),
    }
    // A lone high surrogate, a lone low surrogate, bad hex and a
    // truncated escape are refused.
    assert!(parse_json(b"\"\\uD83D\"").is_none());
    assert!(parse_json(b"\"\\uDE00\"").is_none());
    assert!(parse_json(b"\"\\uD83Dx\"").is_none());
    assert!(parse_json(b"\"\\u00zz\"").is_none());
    assert!(parse_json(b"\"\\u00\"").is_none());
}

#[test]
fn request_serialization_is_the_exact_wire_text() {
    let request = ChatCompletionRequest {
        model: "m\"x".to_string(),
        messages: vec![
            ChatCompletionMessage {
                role: "system".to_string(),
                content: "line one\nline two".to_string(),
            },
            ChatCompletionMessage {
                role: "user".to_string(),
                content: "plain".to_string(),
            },
        ],
        seed: Some(7),
    };
    let bytes = build_request_bytes(&request);
    assert_eq!(
        String::from_utf8(bytes).unwrap(),
        "{\"model\":\"m\\\"x\",\"messages\":[{\"role\":\"system\",\"content\":\"line one\\nline two\"},{\"role\":\"user\",\"content\":\"plain\"}],\"seed\":7}"
    );
    let no_seed = ChatCompletionRequest {
        model: "m".to_string(),
        messages: vec![],
        seed: None,
    };
    assert_eq!(
        String::from_utf8(build_request_bytes(&no_seed)).unwrap(),
        "{\"model\":\"m\",\"messages\":[]}"
    );
}

#[test]
fn model_response_contracts_are_strict() {
    assert_eq!(
        decode_secret_response(b"{\"secret\": \"kaleidoscope\"}").unwrap(),
        "kaleidoscope"
    );
    assert!(decode_secret_response(b"{\"secrets\": \"x\"}").is_none());
    assert!(decode_secret_response(b"{\"secret\": 3}").is_none());
    assert!(decode_secret_response(b"[\"secret\"]").is_none());

    let answer = decode_guess_response(
        b"{\"is_correct\": false, \"explanation\": \"not even close\"}",
    )
    .unwrap();
    assert!(!answer.is_correct);
    assert_eq!(answer.explanation, "not even close");
    assert!(decode_guess_response(b"{\"is_correct\": \"yes\", \"explanation\": \"x\"}").is_none());
    assert!(decode_guess_response(b"{\"is_correct\": true}").is_none());

    assert_eq!(
        decode_hint_response(b"{\"hint\": \"Whispers Through Walls\"}").unwrap(),
        "Whispers Through Walls"
    );
    assert!(decode_hint_response(b"{}").is_none());
}

#[test]
fn chat_content_comes_from_the_first_choice() {
    let body = b"{\"id\":\"x\",\"choices\":[{\"message\":{\"role\":\"assistant\",\"content\":\"first\"}},{\"message\":{\"role\":\"assistant\",\"content\":\"second\"}}]}";
    assert_eq!(decode_chat_content(body).unwrap(), b"first".to_vec());
    assert!(decode_chat_content(b"{\"choices\":[]}").is_none());
    assert!(decode_chat_content(b"{\"choices\":[{\"message\":{}}]}").is_none());
}

#[test]
fn usage_accounting_is_read_where_reported() {
    let body = b"{\"choices\":[],\"usage\":{\"prompt_tokens\":7,\"completion_tokens\":3,\"total_tokens\":10}}";
    let usage = guess_ai::codec::decode_completion_usage(body).unwrap().unwrap();
    assert_eq!(usage.prompt_tokens, 7);
    assert_eq!(usage.completion_tokens, 3);
    assert_eq!(usage.total_tokens, 10);
    assert!(guess_ai::codec::decode_completion_usage(b"{\"choices\":[]}")
        .unwrap()
        .is_none());
    // A count outside i32 is refused.
    assert!(guess_ai::codec::decode_completion_usage(
        b"{\"usage\":{\"prompt_tokens\":4294967296,\"completion_tokens\":1,\"total_tokens\":1}}"
    )
    .is_none());
}

#[test]
fn directory_and_envelope_records_decode_field_for_field() {
    let d = parse_directory_response(
        b"{\"public_key\": \"cGs=\", \"node_small_id\": 3, \"stack_small_id\": 9, \"stack_entry_digest\": null}",
    );
    // A null digest is not a string: the record is refused.
    assert!(d.is_none());
    let d = parse_directory_response(
        b"{\"public_key\": \"cGs=\", \"node_small_id\": 3, \"stack_small_id\": 9}",
    )
    .unwrap();
    assert_eq!(d.public_key, "cGs=");
    assert_eq!(d.node_small_id, 3);
    assert_eq!(d.stack_small_id, 9);
    assert!(d.stack_entry_digest.is_none());

    let e = parse_compute_response(
        b"{\"ciphertext\": \"YWJj\", \"nonce\": \"bm9uY2U=\", \"response_hash\": \"aGFzaA==\"}",
    )
    .unwrap();
    assert_eq!(e.ciphertext, "YWJj");
    assert_eq!(e.nonce, "bm9uY2U=");
    assert_eq!(e.response_hash.as_deref(), Some("aGFzaA=="));
    assert!(e.signature.is_none());
    assert!(e.usage.is_none());
    assert!(parse_compute_response(b"{\"nonce\": \"x\"}").is_none());
    let with_usage = parse_compute_response(
        b"{\"ciphertext\": \"YWJj\", \"nonce\": \"bm9uY2U=\", \"usage\": {\"prompt_tokens\": 5, \"total_tokens\": 9}}",
    )
    .unwrap();
    let u = with_usage.usage.unwrap();
    assert_eq!(u.prompt_tokens, 5);
    assert_eq!(u.completion_tokens, None);
    assert_eq!(u.total_tokens, 9);
}

#[test]
fn event_payloads_decode_their_wire_schema() {
    let id = GuessAiEventIdentifier::from_str("NewGuessEvent").unwrap();
    let event = parse_event(
        id,
        b"{\"fee\": \"100\", \"guess\": \"hello\", \"guess_count\": \"1\", \"treasury_pool_balance\": 1000}",
    )
    .unwrap();
    match event {
        GuessAiEvent::NewGuessEvent(e) => {
            assert_eq!(e.fee, 100);
            assert_eq!(e.guess, "hello");
            assert_eq!(e.guess_count, 1);
            assert_eq!(e.treasury_pool_balance, 1000);
        },
        _ => panic!("expected a guess event"),
    }
    // The counters travel as strings: a bare numeral is refused.
    assert!(parse_event(
        GuessAiEventIdentifier::from_str("NewGuessEvent").unwrap(),
        b"{\"fee\": 100, \"guess\": \"hello\", \"guess_count\": \"1\", \"treasury_pool_balance\": 1000}",
    )
    .is_none());

    let rotate = parse_event(
        GuessAiEventIdentifier::from_str("RotateTdxQuoteEvent").unwrap(),
        b"{\"epoch\": \"7\", \"random_seed\": \"42\"}",
    )
    .unwrap();
    match rotate {
        GuessAiEvent::RotateTdxQuoteEvent(e) => {
            assert_eq!(e.epoch, 7);
            assert_eq!(e.random_seed, 42);
        },
        _ => panic!("expected a rotation event"),
    }

    let resubmit = parse_event(
        GuessAiEventIdentifier::from_str("TDXQuoteResubmittedEvent").unwrap(),
        b"{\"epoch\": 4, \"tdx_quote_v4\": [1, 2, 255], \"public_key_bytes\": []}",
    )
    .unwrap();
    match resubmit {
        GuessAiEvent::TDXQuoteResubmittedEvent(e) => {
            assert_eq!(e.epoch, 4);
            assert_eq!(e.tdx_quote_v4, vec![1, 2, 255]);
            assert!(e.public_key_bytes.is_empty());
        },
        _ => panic!("expected a resubmission event"),
    }
    // A byte above 255 is no byte.
    assert!(parse_event(
        GuessAiEventIdentifier::from_str("TDXQuoteResubmittedEvent").unwrap(),
        b"{\"epoch\": 4, \"tdx_quote_v4\": [256], \"public_key_bytes\": []}",
    )
    .is_none());

    // The earlier schema decodes its own rotation and resubmission
    // payloads, and refuses the later schema's.
    let early_rotate = guess_ai::events::parse_event_v1(
        SecretGuessingEventIdentifier::from_str("RotateTdxQuoteEvent").unwrap(),
        b"{\"epoch\": \"7\", \"challenge_nonce\": [9, 8]}",
    )
    .unwrap();
    match early_rotate {
        guess_ai::events::SecretGuessingEvent::RotateTdxQuoteEvent(e) => {
            assert_eq!(e.epoch, 7);
            assert_eq!(e.challenge_nonce, vec![9, 8]);
        },
        _ => panic!("expected the earlier rotation event"),
    }
    assert!(guess_ai::events::parse_event_v1(
        SecretGuessingEventIdentifier::from_str("RotateTdxQuoteEvent").unwrap(),
        b"{\"epoch\": \"7\", \"random_seed\": \"42\"}",
    )
    .is_none());
    let early_resubmit = guess_ai::events::parse_event_v1(
        SecretGuessingEventIdentifier::from_str("TDXQuoteResubmittedEvent").unwrap(),
        b"{\"epoch\": 4, \"tdx_quote_v4\": [1, 2]}",
    )
    .unwrap();
    match early_resubmit {
        guess_ai::events::SecretGuessingEvent::TDXQuoteResubmittedEvent(e) => {
            assert_eq!(e.epoch, 4);
            assert_eq!(e.tdx_quote_v4, vec![1, 2]);
        },
        _ => panic!("expected the earlier resubmission event"),
    }

    // Both schema generations classify the same four names.
    assert!(GuessAiEventIdentifier::from_str("PublishEvent").is_some());
    assert!(GuessAiEventIdentifier::from_str("SomethingElse").is_none());
    assert!(SecretGuessingEventIdentifier::from_str("RotateTdxQuoteEvent").is_some());
    assert!(SecretGuessingEventIdentifier::from_str("RotateTdxQuote").is_none());
}
