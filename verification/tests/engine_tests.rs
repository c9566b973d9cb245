//! The game engine's decisions: hint cadence, payout, rotation, and the
//! cursor's advance-and-checkpoint discipline over pages.

use guess_ai::channel::AtomaSdk;
use guess_ai::codec::{decode_guess_response, GuessAnswer};
use guess_ai::cursor::EventCursor;
use guess_ai::engine::{secret_request, GuessAiEngine};
use guess_ai::events::{GuessAiEventIdentifier, NewGuessEvent, RotateTdxQuoteEvent};

fn engine_with(secret: &str, hint_wait_count: u64) -> GuessAiEngine {
    GuessAiEngine::new(
        AtomaSdk::new("k".to_string(), "m".to_string()),
        secret.to_string(),
        vec![7u8; 32],
        11,
        hint_wait_count,
        None,
    )
}

fn guess_event(guess: &str, guess_count: u64) -> NewGuessEvent {
    NewGuessEvent {
        fee: 100,
        guess: guess.to_string(),
        guess_count,
        treasury_pool_balance: 1000,
    }
}

#[test]
fn hint_triggers_on_interval_multiples() {
    let engine = engine_with("telephone", 50);
    let wrong = GuessAnswer {
        is_correct: false,
        explanation: "no".to_string(),
    };
    for count in [50u64, 100, 150] {
        let d = engine.handle_new_guess_event(&guess_event("fork", count), &wrong);
        assert!(d.request_hint, "count {count} must trigger a hint");
    }
    for count in [49u64, 101] {
        let d = engine.handle_new_guess_event(&guess_event("fork", count), &wrong);
        assert!(!d.request_hint, "count {count} must not trigger a hint");
    }
}

#[test]
fn correct_guess_pays_exactly_once_and_no_hint() {
    // The scenario: guess "kaleidoscope" against secret "kaleidoscope",
    // fee 100, count 5, pool 1000; the model judges it correct.
    let engine = engine_with("kaleidoscope", 50);
    let event = NewGuessEvent {
        fee: 100,
        guess: "kaleidoscope".to_string(),
        guess_count: 5,
        treasury_pool_balance: 1000,
    };
    let model_reply = b"{\"is_correct\": true, \"explanation\": \"exact match\"}";
    let answer = decode_guess_response(model_reply).unwrap();
    let decision = engine.handle_new_guess_event(&event, &answer);

    // Drive the decision the way the loop does, counting payout calls.
    let mut payouts: Vec<String> = Vec::new();
    let sender = "0xplayer".to_string();
    if decision.pay_winner {
        payouts.push(sender.clone());
    }
    if decision.request_hint {
        let _ = engine.hint_request();
    }
    assert_eq!(payouts, vec!["0xplayer".to_string()]);
    assert!(!decision.request_hint, "5 is no multiple of 50");
}

#[test]
fn rotation_replaces_the_whole_epoch() {
    let mut engine = engine_with("oldword", 50);
    let old_key = engine.client_private_key.clone();
    let event = RotateTdxQuoteEvent {
        epoch: 7,
        random_seed: 42,
    };
    let new_key = vec![21u8; 32];
    engine.handle_rotate_tdx_quote_event(&event, "newword".to_string(), new_key.clone());
    assert_eq!(engine.secret, "newword");
    assert_eq!(engine.random_seed, 42);
    assert_eq!(engine.client_private_key, new_key);
    assert_ne!(engine.client_private_key, old_key);

    // A guess after the rotation is judged only against the new secret,
    // and a hint is built from it.
    let request = engine.guess_request("oldword");
    let user_prompt = &request.messages[1].content;
    assert_eq!(
        user_prompt,
        "The guess is: oldword\nThe secret is: newword\nIs the guess correct?"
    );
    assert!(engine.hint_request().messages[0]
        .content
        .contains("{\"secret\": \"newword\"}"));
}

#[test]
fn guess_request_carries_both_prompts_and_the_seed() {
    let engine = engine_with("camera", 50);
    let request = engine.guess_request("tripod");
    assert_eq!(request.model, "m");
    assert_eq!(request.seed, Some(11));
    assert_eq!(request.messages.len(), 2);
    assert_eq!(request.messages[0].role, "system");
    assert_eq!(request.messages[1].role, "user");
    assert_eq!(
        request.messages[1].content,
        format!(
            "The guess is: {}\nThe secret is: {}\nIs the guess correct?",
            "tripod", "camera"
        )
    );
}

#[test]
fn hint_request_is_built_from_the_current_secret() {
    let engine = engine_with("camera", 50);
    let request = engine.hint_request();
    assert_eq!(request.messages.len(), 1);
    assert_eq!(request.messages[0].role, "system");
    let prompt = &request.messages[0].content;
    assert!(prompt.ends_with(
        "{\"secret\": \"camera\"}\n            {\"reveal\": true}"
    ));
    // Two different secrets give two different hint prompts.
    let other = engine_with("telephone", 50);
    assert_ne!(prompt, &other.hint_request().messages[0].content);
}

#[test]
fn secret_request_asks_under_the_given_seed() {
    let request = secret_request("m", 42);
    assert_eq!(request.model, "m");
    assert_eq!(request.seed, Some(42));
    assert_eq!(request.messages.len(), 1);
    assert_eq!(request.messages[0].role, "system");
}

#[test]
fn unknown_event_names_are_skipped_and_the_cursor_still_advances() {
    // A page holding a known, an unknown and another known event: the
    // unknown one is skipped without failing the page, and the cursor
    // moves to the page's next position past all of them.
    let mut engine = engine_with("camera", 50);
    let page = [
        ("NewGuessEvent", "{\"fee\": \"1\", \"guess\": \"g\", \"guess_count\": \"2\", \"treasury_pool_balance\": 3}"),
        ("SomebodyElsesEvent", "{\"anything\": 1}"),
        ("PublishEvent", "{\"id\": \"a\", \"manager_id\": \"b\"}"),
    ];
    let mut handled = 0;
    let mut skipped = 0;
    for (name, payload) in page {
        match GuessAiEventIdentifier::from_str(name) {
            Some(id) => match guess_ai::events::parse_event(id, payload.as_bytes()) {
                Some(_) => handled += 1,
                None => skipped += 1,
            },
            None => skipped += 1,
        }
    }
    assert_eq!(handled, 2);
    assert_eq!(skipped, 1);
    let next = EventCursor {
        tx_digest: vec![0xaa, 0xbb],
        event_seq: 9,
    };
    engine.advance_cursor(Some(next.clone()));
    assert_eq!(engine.cursor, Some(next));
}

#[test]
fn cursor_file_is_written_once_after_the_last_page() {
    // Two consecutive pages, the first with more to come, the second the
    // last: the checkpoint is written exactly once, after the second.
    let mut engine = engine_with("camera", 50);
    let pages = [
        (
            Some(EventCursor {
                tx_digest: vec![1],
                event_seq: 1,
            }),
            true,
        ),
        (
            Some(EventCursor {
                tx_digest: vec![2],
                event_seq: 2,
            }),
            false,
        ),
    ];
    let mut writes: Vec<Vec<u8>> = Vec::new();
    for (next_cursor, has_next_page) in pages {
        engine.advance_cursor(next_cursor);
        if GuessAiEngine::should_checkpoint(has_next_page) {
            let c = engine.cursor.as_ref().unwrap();
            writes.push(guess_ai::cursor::encode_cursor(c));
        }
    }
    assert_eq!(writes.len(), 1);
    let written = guess_ai::cursor::parse_cursor(&writes[0]).unwrap();
    assert_eq!(written.tx_digest, vec![2]);
    assert_eq!(written.event_seq, 2);
}
