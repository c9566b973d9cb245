//! The game engine's state machine: the active secret epoch, the decisions
//! an event asks for, and the cursor's advance-and-checkpoint discipline.
//!
//! Exactly one secret epoch is active at any time: the engine owns the
//! secret, the ephemeral client key and the sampling seed, and a rotation
//! replaces all three at once — the old epoch is dropped, there is no
//! overlap. The engine decides; the loop around it performs the I/O the
//! decisions call for (the confidential calls, the payout, the checkpoint
//! write) and hands the outcomes back.

use vstd::prelude::*;
use vstd::string::StringExecFns;

use crate::channel::AtomaSdk;
use crate::codec::{ChatCompletionMessage, ChatCompletionRequest, GuessAnswer};
use crate::cursor::EventCursor;
use crate::events::{NewGuessEvent, RotateTdxQuoteEvent};
use crate::prompts::{
    check_guess_prompt, create_hint_prompt, create_secret_prompt, guess_system_text,
    guess_user_text, hint_prompt_text, secret_prompt_text,
};

verus! {

/// What the engine does about a judged guess: pay the guesser, and ask the
/// model for a hint when the count reaches the interval.
pub struct GuessDecision {
    /// Whether the treasury pays the guesser.
    pub pay_winner: bool,
    /// Whether a hint is generated and announced.
    pub request_hint: bool,
}

/// The engine's state: the active secret epoch and the log position.
pub struct GuessAiEngine {
    /// The compute-service handle the engine judges guesses through.
    pub atoma_sdk: AtomaSdk,
    /// The epoch's ephemeral X25519 private key, 32 bytes.
    pub client_private_key: Vec<u8>,
    /// The epoch's sampling seed.
    pub random_seed: u64,
    /// The word the players are guessing.
    pub secret: String,
    /// How many guesses pass between hints.
    pub hint_wait_count: u64,
    /// The position up to which the log has been consumed.
    pub cursor: Option<EventCursor>,
}

impl GuessAiEngine {
    /// The key has X25519's length and the hint interval can divide.
    pub open spec fn wf(self) -> bool {
        self.client_private_key@.len() == 32 && self.hint_wait_count >= 1
    }

    /// An engine holding exactly the given epoch and position.
    pub fn new(
        atoma_sdk: AtomaSdk,
        secret: String,
        client_private_key: Vec<u8>,
        random_seed: u64,
        hint_wait_count: u64,
        cursor: Option<EventCursor>,
    ) -> (r: GuessAiEngine)
        requires
            client_private_key@.len() == 32,
            hint_wait_count >= 1,
        ensures
            r.wf(),
            r.atoma_sdk == atoma_sdk,
            r.secret == secret,
            r.client_private_key == client_private_key,
            r.random_seed == random_seed,
            r.hint_wait_count == hint_wait_count,
            r.cursor == cursor,
    {
        GuessAiEngine {
            atoma_sdk,
            client_private_key,
            random_seed,
            secret,
            hint_wait_count,
            cursor,
        }
    }

    /// The request that puts a guess to the model: the judge's system
    /// prompt, the guess and the active secret, under the epoch's seed.
    pub fn guess_request(&self, guess: &str) -> (r: ChatCompletionRequest)
        ensures
            r.model@ == self.atoma_sdk.model@,
            r.seed == Some(self.random_seed),
            r.messages@.len() == 2,
            r.messages@[0].role@ == "system"@,
            r.messages@[0].content@ == guess_system_text(),
            r.messages@[1].role@ == "user"@,
            r.messages@[1].content@ == guess_user_text(guess@, self.secret@),
    {
        let (system_prompt, user_prompt) = check_guess_prompt(guess, self.secret.as_str());
        let mut messages: Vec<ChatCompletionMessage> = Vec::new();
        messages.push(
            ChatCompletionMessage { role: String::from_str("system"), content: system_prompt },
        );
        messages.push(ChatCompletionMessage { role: String::from_str("user"), content: user_prompt });
        ChatCompletionRequest {
            model: self.atoma_sdk.model.clone(),
            messages,
            seed: Some(self.random_seed),
        }
    }

    /// The request that asks the model for a hint, built from the active
    /// secret, under the epoch's seed.
    pub fn hint_request(&self) -> (r: ChatCompletionRequest)
        ensures
            r.model@ == self.atoma_sdk.model@,
            r.seed == Some(self.random_seed),
            r.messages@.len() == 1,
            r.messages@[0].role@ == "system"@,
            r.messages@[0].content@ == hint_prompt_text(self.secret@),
    {
        let prompt = create_hint_prompt(self.secret.as_str());
        let mut messages: Vec<ChatCompletionMessage> = Vec::new();
        messages.push(ChatCompletionMessage { role: String::from_str("system"), content: prompt });
        ChatCompletionRequest {
            model: self.atoma_sdk.model.clone(),
            messages,
            seed: Some(self.random_seed),
        }
    }

    /// What a judged guess asks of the engine: the treasury pays exactly
    /// when the model judged the guess correct, and a hint falls due
    /// exactly when the guess count is a multiple of the hint interval.
    pub fn handle_new_guess_event(&self, event: &NewGuessEvent, answer: &GuessAnswer) -> (r:
        GuessDecision)
        requires
            self.wf(),
        ensures
            r.pay_winner == answer.is_correct,
            r.request_hint == (event.guess_count % self.hint_wait_count == 0),
    {
        GuessDecision {
            pay_winner: answer.is_correct,
            request_hint: event.guess_count % self.hint_wait_count == 0,
        }
    }

    /// Installs the new secret epoch a rotation event ordered: the fresh
    /// secret, the fresh key and the event's seed replace the old epoch
    /// whole; the handle, the hint interval and the cursor stand.
    pub fn handle_rotate_tdx_quote_event(
        &mut self,
        event: &RotateTdxQuoteEvent,
        new_secret: String,
        new_private_key: Vec<u8>,
    )
        requires
            old(self).wf(),
            new_private_key@.len() == 32,
        ensures
            final(self).wf(),
            final(self).secret == new_secret,
            final(self).client_private_key == new_private_key,
            final(self).random_seed == event.random_seed,
            final(self).atoma_sdk == old(self).atoma_sdk,
            final(self).hint_wait_count == old(self).hint_wait_count,
            final(self).cursor == old(self).cursor,
    {
        self.secret = new_secret;
        self.client_private_key = new_private_key;
        self.random_seed = event.random_seed;
    }

    /// Takes a page's position: the in-memory cursor moves to the page's
    /// `next_cursor` as soon as the page arrives, whatever its events
    /// hold; the epoch stands.
    pub fn advance_cursor(&mut self, next_cursor: Option<EventCursor>)
        ensures
            final(self).cursor == next_cursor,
            final(self).atoma_sdk == old(self).atoma_sdk,
            final(self).secret == old(self).secret,
            final(self).client_private_key == old(self).client_private_key,
            final(self).random_seed == old(self).random_seed,
            final(self).hint_wait_count == old(self).hint_wait_count,
    {
        self.cursor = next_cursor;
    }

    /// Whether the checkpoint is written after a page: exactly when the
    /// page was the last currently available.
    pub fn should_checkpoint(has_next_page: bool) -> (r: bool)
        ensures
            r == !has_next_page,
    {
        !has_next_page
    }
}

/// The request that asks the model to create a fresh secret for an epoch,
/// under the epoch's seed.
pub fn secret_request(model: &str, random_seed: u64) -> (r: ChatCompletionRequest)
    ensures
        r.model@ == model@,
        r.seed == Some(random_seed),
        r.messages@.len() == 1,
        r.messages@[0].role@ == "system"@,
        r.messages@[0].content@ == secret_prompt_text(),
{
    let prompt = create_secret_prompt();
    let mut messages: Vec<ChatCompletionMessage> = Vec::new();
    messages.push(ChatCompletionMessage { role: String::from_str("system"), content: prompt });
    ChatCompletionRequest { model: String::from_str(model), messages, seed: Some(random_seed) }
}

} // verus!
