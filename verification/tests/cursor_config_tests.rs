//! The cursor checkpoint and the configuration records.

use guess_ai::config::{ConfigError, GuessAiConfig, HttpServerConfig};
use guess_ai::cursor::{
    encode_cursor, parse_cursor, read_cursor, CursorStoreError, EventCursor,
};

#[test]
fn cursor_round_trips_through_its_text_form() {
    let cursors = [
        EventCursor {
            tx_digest: vec![0x00, 0xff, 0x10, 0xab],
            event_seq: 0,
        },
        EventCursor {
            tx_digest: vec![0xde, 0xad, 0xbe, 0xef],
            event_seq: u64::MAX,
        },
        EventCursor {
            tx_digest: vec![],
            event_seq: 7,
        },
    ];
    for c in cursors {
        let text = encode_cursor(&c);
        let back = parse_cursor(&text).unwrap();
        assert_eq!(back, c);
    }
    assert_eq!(
        String::from_utf8(encode_cursor(&EventCursor {
            tx_digest: vec![0xde, 0xad, 0xbe, 0xef],
            event_seq: 42,
        }))
        .unwrap(),
        "deadbeef 42"
    );
}

#[test]
fn an_empty_store_is_the_start_of_history_not_an_error() {
    assert_eq!(read_cursor(None), Ok(None));
}

#[test]
fn a_garbled_store_is_refused() {
    let garbled = b"not a cursor".to_vec();
    assert_eq!(read_cursor(Some(&garbled)), Err(CursorStoreError::Malformed));
    let odd_hex = b"abc 1".to_vec();
    assert_eq!(read_cursor(Some(&odd_hex)), Err(CursorStoreError::Malformed));
    let no_seq = b"abcd ".to_vec();
    assert_eq!(read_cursor(Some(&no_seq)), Err(CursorStoreError::Malformed));
}

#[test]
fn a_written_store_reads_back_as_the_position_it_holds() {
    let c = EventCursor {
        tx_digest: vec![1, 2, 3],
        event_seq: 5,
    };
    let text = encode_cursor(&c);
    assert_eq!(read_cursor(Some(&text)), Ok(Some(c)));
}

fn sample_config_text() -> Vec<u8> {
    let mut lines = String::new();
    lines.push_str("atoma_api_key = \"api-key\"\n");
    lines.push_str("cursor_path = \"/var/lib/game/cursor\"\n");
    lines.push_str("guess_ai_db = \"0xdb\"\n");
    lines.push_str("guess_ai_package_id = \"0xpkg\"\n");
    lines.push_str("hint_wait_count = 50\n");
    lines.push_str("http_rpc_node_addr = \"https://rpc.example\"\n");
    lines.push_str("limit = 25\n");
    lines.push_str("model = \"big-model\"\n");
    lines.push_str("sui_config_path = \"/home/game/.sui\"\n");
    lines.push_str("twitter_access_token = \"tat\"\n");
    lines.push_str("twitter_access_token_secret = \"tats\"\n");
    lines.push_str("twitter_consumer_key = \"tck\"\n");
    lines.push_str("twitter_consumer_secret = \"tcs\"\n");
    lines.into_bytes()
}

#[test]
fn a_rendered_section_becomes_the_config_field_for_field() {
    let c = GuessAiConfig::from_toml_text(&sample_config_text()).unwrap();
    assert_eq!(c.atoma_api_key, "api-key");
    assert_eq!(c.cursor_path, "/var/lib/game/cursor");
    assert_eq!(c.hint_wait_count, 50);
    assert_eq!(c.http_rpc_node_addr, "https://rpc.example");
    assert_eq!(c.model, "big-model");
    assert_eq!(c.limit, Some(25));
    assert_eq!(c.guess_ai_package_id, "0xpkg");
    assert_eq!(c.guess_ai_db, "0xdb");
    assert_eq!(c.request_timeout, None);
    assert_eq!(c.max_concurrent_requests, None);
    assert_eq!(c.sui_config_path, "/home/game/.sui");
}

#[test]
fn a_section_missing_a_required_field_is_refused() {
    let text = String::from_utf8(sample_config_text())
        .unwrap()
        .replace("model = \"big-model\"\n", "");
    assert!(GuessAiConfig::from_toml_text(text.as_bytes()).is_none());
    // A field of the wrong type is refused too.
    let text = String::from_utf8(sample_config_text())
        .unwrap()
        .replace("hint_wait_count = 50", "hint_wait_count = \"50\"");
    assert!(GuessAiConfig::from_toml_text(text.as_bytes()).is_none());
}

#[test]
fn the_http_section_holds_its_one_field() {
    let c = HttpServerConfig::from_toml_text(b"service_bind_address = \"0.0.0.0:8080\"\n")
        .unwrap();
    assert_eq!(c.service_bind_address, "0.0.0.0:8080");
    assert!(HttpServerConfig::from_toml_text(b"bind = \"x\"\n").is_none());
}

#[test]
fn a_missing_config_file_is_a_read_error() {
    let r = GuessAiConfig::from_file_path("/nonexistent/path/to/nothing");
    assert_eq!(r.unwrap_err(), ConfigError::ReadError);
}
