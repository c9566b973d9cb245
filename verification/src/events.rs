//! The game contract's events: their names, their wire shapes, and the
//! strict decoding of each from the event log's JSON payloads.
//!
//! An event arrives as a type name and a JSON payload. A name outside the
//! contract's four is no event of this game: the caller skips it and the
//! page goes on. A known name whose payload does not match its shape is
//! likewise skipped without failing the page.

use vstd::prelude::*;
use vstd::string::StringSliceAdditionalSpecFns;
use vstd::utf8::{encode_utf8, encode_utf8_decode_utf8};

use crate::channel::sp_u64_field;
use crate::codec::{sp_string_field, string_field};
use crate::dec::{all_digits, dec_val};
use crate::json::{
    as_str_bytes, as_u64, bytes_eq, get_field, lemma_elems_v, obj_get, parse_json, sp_json, Json,
    JsonV,
};

verus! {

/// Whether two strings hold the same characters.
pub fn str_eq(a: &str, b: &str) -> (r: bool)
    ensures
        r == (a@ == b@),
{
    proof {
        encode_utf8_decode_utf8(a@);
        encode_utf8_decode_utf8(b@);
    }
    bytes_eq(a.as_bytes(), b.as_bytes())
}

/// The event names the game contract emits.
#[derive(Clone, Copy, Debug, PartialEq, Eq, Structural)]
pub enum GuessAiEventIdentifier {
    PublishEvent,
    NewGuessEvent,
    RotateTdxQuoteEvent,
    TDXQuoteResubmittedEvent,
}

/// The event names of the contract's earlier schema: the same four names;
/// the rotation and resubmission payloads differed.
#[derive(Clone, Copy, Debug, PartialEq, Eq, Structural)]
pub enum SecretGuessingEventIdentifier {
    PublishEvent,
    NewGuessEvent,
    RotateTdxQuoteEvent,
    TDXQuoteResubmittedEvent,
}

/// Which identifier an event-type name denotes; `None` for every name
/// outside the contract's four.
pub open spec fn sp_identifier_of(s: Seq<char>) -> Option<GuessAiEventIdentifier> {
    if s == "PublishEvent"@ {
        Some(GuessAiEventIdentifier::PublishEvent)
    } else if s == "NewGuessEvent"@ {
        Some(GuessAiEventIdentifier::NewGuessEvent)
    } else if s == "RotateTdxQuoteEvent"@ {
        Some(GuessAiEventIdentifier::RotateTdxQuoteEvent)
    } else if s == "TDXQuoteResubmittedEvent"@ {
        Some(GuessAiEventIdentifier::TDXQuoteResubmittedEvent)
    } else {
        None
    }
}

impl GuessAiEventIdentifier {
    /// Classifies an event-type name, as `sp_identifier_of` says: an
    /// unknown name is no event of this game.
    pub fn from_str(s: &str) -> (r: Option<GuessAiEventIdentifier>)
        ensures
            r == sp_identifier_of(s@),
    {
        if str_eq(s, "PublishEvent") {
            Some(GuessAiEventIdentifier::PublishEvent)
        } else if str_eq(s, "NewGuessEvent") {
            Some(GuessAiEventIdentifier::NewGuessEvent)
        } else if str_eq(s, "RotateTdxQuoteEvent") {
            Some(GuessAiEventIdentifier::RotateTdxQuoteEvent)
        } else if str_eq(s, "TDXQuoteResubmittedEvent") {
            Some(GuessAiEventIdentifier::TDXQuoteResubmittedEvent)
        } else {
            None
        }
    }
}

impl SecretGuessingEventIdentifier {
    /// Classifies an event-type name of the earlier schema: the same four
    /// names are known, any other is skipped.
    pub fn from_str(s: &str) -> (r: Option<SecretGuessingEventIdentifier>)
        ensures
            r == match sp_identifier_of(s@) {
                Some(GuessAiEventIdentifier::PublishEvent) => Some(
                    SecretGuessingEventIdentifier::PublishEvent,
                ),
                Some(GuessAiEventIdentifier::NewGuessEvent) => Some(
                    SecretGuessingEventIdentifier::NewGuessEvent,
                ),
                Some(GuessAiEventIdentifier::RotateTdxQuoteEvent) => Some(
                    SecretGuessingEventIdentifier::RotateTdxQuoteEvent,
                ),
                Some(GuessAiEventIdentifier::TDXQuoteResubmittedEvent) => Some(
                    SecretGuessingEventIdentifier::TDXQuoteResubmittedEvent,
                ),
                None => None,
            },
    {
        if str_eq(s, "PublishEvent") {
            Some(SecretGuessingEventIdentifier::PublishEvent)
        } else if str_eq(s, "NewGuessEvent") {
            Some(SecretGuessingEventIdentifier::NewGuessEvent)
        } else if str_eq(s, "RotateTdxQuoteEvent") {
            Some(SecretGuessingEventIdentifier::RotateTdxQuoteEvent)
        } else if str_eq(s, "TDXQuoteResubmittedEvent") {
            Some(SecretGuessingEventIdentifier::TDXQuoteResubmittedEvent)
        } else {
            None
        }
    }
}

/// The contract's publication notice.
pub struct PublishEvent {
    /// The shared object that carries the game.
    pub id: String,
    /// The manager that published it.
    pub manager_id: String,
}

/// A player's guess, with the game's counters at that moment.
pub struct NewGuessEvent {
    /// The fee paid for the guess.
    pub fee: u64,
    /// The guessed word or phrase.
    pub guess: String,
    /// How many guesses the game has seen.
    pub guess_count: u64,
    /// The treasury pool's balance.
    pub treasury_pool_balance: u64,
}

/// The contract's order to rotate the secret.
pub struct RotateTdxQuoteEvent {
    /// The new rotation epoch.
    pub epoch: u64,
    /// The sampling seed for the epoch's inference calls.
    pub random_seed: u64,
}

/// An attestation quote resubmitted on chain; an audit notice, no state
/// change.
pub struct TDXQuoteResubmittedEvent {
    /// The epoch the quote belongs to.
    pub epoch: u64,
    /// The quote, opaque bytes.
    pub tdx_quote_v4: Vec<u8>,
    /// The agent's X25519 public key.
    pub public_key_bytes: Vec<u8>,
}

/// One decoded event of the game.
pub enum GuessAiEvent {
    PublishEvent(PublishEvent),
    NewGuessEvent(NewGuessEvent),
    RotateTdxQuoteEvent(RotateTdxQuoteEvent),
    TDXQuoteResubmittedEvent(TDXQuoteResubmittedEvent),
}

/// The u64 under `key` where the field holds it as a string of digits, as
/// the event log writes its counters.
pub open spec fn sp_str_u64_field(v: JsonV, key: Seq<char>) -> Option<u64> {
    match v {
        JsonV::Obj(fs) => match obj_get(fs, encode_utf8(key)) {
            Some(w) => match w {
                JsonV::Str(b) => if b.len() > 0 && all_digits(b) && dec_val(b) <= u64::MAX {
                    Some(dec_val(b) as u64)
                } else {
                    None
                },
                _ => None,
            },
            None => None,
        },
        _ => None,
    }
}

/// Reads a string-encoded u64 field, as `sp_str_u64_field` says.
pub fn str_u64_field(j: &Json, key: &str) -> (r: Option<u64>)
    ensures
        r == sp_str_u64_field(j.v(), key@),
{
    match get_field(j, key) {
        Some(w) => match as_str_bytes(w) {
            Some(b) => crate::dec::parse_dec_u64(b.as_slice()),
            None => None,
        },
        None => None,
    }
}

/// The bytes a JSON array stands for: every element a numeral naming a
/// byte.
pub open spec fn sp_bytes_of(es: Seq<JsonV>) -> Option<Seq<u8>>
    decreases es.len(),
{
    if es.len() == 0 {
        Some(Seq::empty())
    } else {
        match es[0] {
            JsonV::Num(lex) => if lex.len() > 0 && all_digits(lex) && dec_val(lex) <= 255 {
                match sp_bytes_of(es.drop_first()) {
                    Some(t) => Some(seq![dec_val(lex) as u8] + t),
                    None => None,
                }
            } else {
                None
            },
            _ => None,
        }
    }
}

/// The byte array under `key`, as `sp_bytes_of` says.
pub open spec fn sp_bytes_field(v: JsonV, key: Seq<char>) -> Option<Seq<u8>> {
    match v {
        JsonV::Obj(fs) => match obj_get(fs, encode_utf8(key)) {
            Some(w) => match w {
                JsonV::Arr(es) => sp_bytes_of(es),
                _ => None,
            },
            None => None,
        },
        _ => None,
    }
}

/// Reads the elements of `es` from index `k` on as bytes.
fn bytes_of_from(es: &Vec<Json>, k: usize) -> (r: Option<Vec<u8>>)
    requires
        k <= es@.len(),
    ensures
        match r {
            Some(b) => sp_bytes_of(crate::json::elems_v(es@).skip(k as int)) == Some(b@),
            None => sp_bytes_of(crate::json::elems_v(es@).skip(k as int)) is None,
        },
    decreases es@.len() - k,
{
    proof {
        lemma_elems_v(es@);
    }
    let ghost ev = crate::json::elems_v(es@);
    if k >= es.len() {
        assert(ev.skip(k as int) =~= Seq::<JsonV>::empty());
        return Some(Vec::new());
    }
    assert(ev.skip(k as int)[0] == ev[k as int]);
    assert(ev.skip(k as int).drop_first() =~= ev.skip(k + 1));
    let n = match as_u64(&es[k]) {
        Some(n) => n,
        None => {
            return None;
        },
    };
    if n > 255 {
        return None;
    }
    match bytes_of_from(es, k + 1) {
        Some(mut rest) => {
            let ghost old_rest = rest@;
            rest.insert(0, n as u8);
            proof {
                assert(rest@ =~= seq![n as u8] + old_rest);
            }
            Some(rest)
        },
        None => None,
    }
}

/// Reads a byte-array field, as `sp_bytes_field` says.
pub fn bytes_field(j: &Json, key: &str) -> (r: Option<Vec<u8>>)
    ensures
        r is Some <==> sp_bytes_field(j.v(), key@) is Some,
        r is Some ==> sp_bytes_field(j.v(), key@) == Some(r.unwrap()@),
{
    match get_field(j, key) {
        Some(w) => match w {
            Json::Arr(es) => {
                assert(crate::json::elems_v(es@).skip(0) =~= crate::json::elems_v(es@));
                bytes_of_from(es, 0)
            },
            _ => None,
        },
        None => None,
    }
}

/// What a publication notice must hold.
pub open spec fn sp_publish_of(s: Seq<u8>) -> Option<(Seq<char>, Seq<char>)> {
    match sp_json(s) {
        Some(v) => match sp_string_field(v, "id"@) {
            Some(id) => match sp_string_field(v, "manager_id"@) {
                Some(m) => Some((id, m)),
                None => None,
            },
            None => None,
        },
        None => None,
    }
}

/// What a guess event must hold: `fee` and `guess_count` as strings of
/// digits, `guess` as a string, `treasury_pool_balance` as a numeral.
pub open spec fn sp_new_guess_of(s: Seq<u8>) -> Option<(u64, Seq<char>, u64, u64)> {
    match sp_json(s) {
        Some(v) => match sp_str_u64_field(v, "fee"@) {
            Some(fee) => match sp_string_field(v, "guess"@) {
                Some(g) => match sp_str_u64_field(v, "guess_count"@) {
                    Some(c) => match sp_u64_field(v, "treasury_pool_balance"@) {
                        Some(b) => Some((fee, g, c, b)),
                        None => None,
                    },
                    None => None,
                },
                None => None,
            },
            None => None,
        },
        None => None,
    }
}

/// What a rotation order must hold: `epoch` and `random_seed` as strings
/// of digits.
pub open spec fn sp_rotate_of(s: Seq<u8>) -> Option<(u64, u64)> {
    match sp_json(s) {
        Some(v) => match sp_str_u64_field(v, "epoch"@) {
            Some(e) => match sp_str_u64_field(v, "random_seed"@) {
                Some(rs) => Some((e, rs)),
                None => None,
            },
            None => None,
        },
        None => None,
    }
}

/// What a resubmission notice must hold: `epoch` as a numeral, the quote
/// and the key as byte arrays.
pub open spec fn sp_resubmit_of(s: Seq<u8>) -> Option<(u64, Seq<u8>, Seq<u8>)> {
    match sp_json(s) {
        Some(v) => match sp_u64_field(v, "epoch"@) {
            Some(e) => match sp_bytes_field(v, "tdx_quote_v4"@) {
                Some(q) => match sp_bytes_field(v, "public_key_bytes"@) {
                    Some(pk) => Some((e, q, pk)),
                    None => None,
                },
                None => None,
            },
            None => None,
        },
        None => None,
    }
}

/// The earlier schema's rotation order: an epoch and a raw challenge
/// nonce, where the later schema carries a sampling seed.
pub struct EarlyRotateTdxQuoteEvent {
    /// The new rotation epoch.
    pub epoch: u64,
    /// The challenge nonce for the rotation's attestation.
    pub challenge_nonce: Vec<u8>,
}

/// The earlier schema's resubmission notice: the epoch and the quote,
/// without the agent's key.
pub struct EarlyTDXQuoteResubmittedEvent {
    /// The epoch the quote belongs to.
    pub epoch: u64,
    /// The quote, opaque bytes.
    pub tdx_quote_v4: Vec<u8>,
}

/// One decoded event of the earlier schema: publication and guesses are
/// shared with the later one; rotation and resubmission carry their own
/// payloads.
pub enum SecretGuessingEvent {
    PublishEvent(PublishEvent),
    NewGuessEvent(NewGuessEvent),
    RotateTdxQuoteEvent(EarlyRotateTdxQuoteEvent),
    TDXQuoteResubmittedEvent(EarlyTDXQuoteResubmittedEvent),
}

/// What the earlier rotation order must hold: `epoch` as a string of
/// digits and `challenge_nonce` as a byte array.
pub open spec fn sp_rotate_v1_of(s: Seq<u8>) -> Option<(u64, Seq<u8>)> {
    match sp_json(s) {
        Some(v) => match sp_str_u64_field(v, "epoch"@) {
            Some(e) => match sp_bytes_field(v, "challenge_nonce"@) {
                Some(n) => Some((e, n)),
                None => None,
            },
            None => None,
        },
        None => None,
    }
}

/// What the earlier resubmission notice must hold: `epoch` as a numeral
/// and the quote as a byte array.
pub open spec fn sp_resubmit_v1_of(s: Seq<u8>) -> Option<(u64, Seq<u8>)> {
    match sp_json(s) {
        Some(v) => match sp_u64_field(v, "epoch"@) {
            Some(e) => match sp_bytes_field(v, "tdx_quote_v4"@) {
                Some(q) => Some((e, q)),
                None => None,
            },
            None => None,
        },
        None => None,
    }
}

/// Decodes an event payload of the earlier schema under its identifier:
/// the versioned half of the decode path beside `parse_event`. Exactly
/// the payloads matching the identifier's shape decode; the caller skips
/// the rest.
pub fn parse_event_v1(id: SecretGuessingEventIdentifier, s: &[u8]) -> (r: Option<
    SecretGuessingEvent,
>)
    ensures
        match id {
            SecretGuessingEventIdentifier::PublishEvent => {
                &&& r is Some <==> sp_publish_of(s@) is Some
                &&& r is Some ==> (r.unwrap() matches SecretGuessingEvent::PublishEvent(e)
                    && sp_publish_of(s@) == Some((e.id@, e.manager_id@)))
            },
            SecretGuessingEventIdentifier::NewGuessEvent => {
                &&& r is Some <==> sp_new_guess_of(s@) is Some
                &&& r is Some ==> (r.unwrap() matches SecretGuessingEvent::NewGuessEvent(e)
                    && sp_new_guess_of(s@) == Some(
                    (e.fee, e.guess@, e.guess_count, e.treasury_pool_balance),
                ))
            },
            SecretGuessingEventIdentifier::RotateTdxQuoteEvent => {
                &&& r is Some <==> sp_rotate_v1_of(s@) is Some
                &&& r is Some ==> (r.unwrap() matches SecretGuessingEvent::RotateTdxQuoteEvent(e)
                    && sp_rotate_v1_of(s@) == Some((e.epoch, e.challenge_nonce@)))
            },
            SecretGuessingEventIdentifier::TDXQuoteResubmittedEvent => {
                &&& r is Some <==> sp_resubmit_v1_of(s@) is Some
                &&& r is Some ==> (r.unwrap()
                    matches SecretGuessingEvent::TDXQuoteResubmittedEvent(e)
                    && sp_resubmit_v1_of(s@) == Some((e.epoch, e.tdx_quote_v4@)))
            },
        },
{
    let j = match parse_json(s) {
        Some(j) => j,
        None => {
            return None;
        },
    };
    match id {
        SecretGuessingEventIdentifier::PublishEvent => match string_field(&j, "id") {
            Some(i) => match string_field(&j, "manager_id") {
                Some(m) => Some(
                    SecretGuessingEvent::PublishEvent(PublishEvent { id: i, manager_id: m }),
                ),
                None => None,
            },
            None => None,
        },
        SecretGuessingEventIdentifier::NewGuessEvent => match str_u64_field(&j, "fee") {
            Some(fee) => match string_field(&j, "guess") {
                Some(g) => match str_u64_field(&j, "guess_count") {
                    Some(c) => match crate::channel::u64_field(&j, "treasury_pool_balance") {
                        Some(b) => Some(
                            SecretGuessingEvent::NewGuessEvent(
                                NewGuessEvent {
                                    fee,
                                    guess: g,
                                    guess_count: c,
                                    treasury_pool_balance: b,
                                },
                            ),
                        ),
                        None => None,
                    },
                    None => None,
                },
                None => None,
            },
            None => None,
        },
        SecretGuessingEventIdentifier::RotateTdxQuoteEvent => match str_u64_field(&j, "epoch") {
            Some(e) => match bytes_field(&j, "challenge_nonce") {
                Some(n) => Some(
                    SecretGuessingEvent::RotateTdxQuoteEvent(
                        EarlyRotateTdxQuoteEvent { epoch: e, challenge_nonce: n },
                    ),
                ),
                None => None,
            },
            None => None,
        },
        SecretGuessingEventIdentifier::TDXQuoteResubmittedEvent => match crate::channel::u64_field(
            &j,
            "epoch",
        ) {
            Some(e) => match bytes_field(&j, "tdx_quote_v4") {
                Some(q) => Some(
                    SecretGuessingEvent::TDXQuoteResubmittedEvent(
                        EarlyTDXQuoteResubmittedEvent { epoch: e, tdx_quote_v4: q },
                    ),
                ),
                None => None,
            },
            None => None,
        },
    }
}

/// Decodes an event payload under its identifier. Exactly the payloads
/// matching the identifier's shape decode; the caller skips the rest.
pub fn parse_event(id: GuessAiEventIdentifier, s: &[u8]) -> (r: Option<GuessAiEvent>)
    ensures
        match id {
            GuessAiEventIdentifier::PublishEvent => {
                &&& r is Some <==> sp_publish_of(s@) is Some
                &&& r is Some ==> (r.unwrap() matches GuessAiEvent::PublishEvent(e)
                    && sp_publish_of(s@) == Some((e.id@, e.manager_id@)))
            },
            GuessAiEventIdentifier::NewGuessEvent => {
                &&& r is Some <==> sp_new_guess_of(s@) is Some
                &&& r is Some ==> (r.unwrap() matches GuessAiEvent::NewGuessEvent(e)
                    && sp_new_guess_of(s@) == Some(
                    (e.fee, e.guess@, e.guess_count, e.treasury_pool_balance),
                ))
            },
            GuessAiEventIdentifier::RotateTdxQuoteEvent => {
                &&& r is Some <==> sp_rotate_of(s@) is Some
                &&& r is Some ==> (r.unwrap() matches GuessAiEvent::RotateTdxQuoteEvent(e)
                    && sp_rotate_of(s@) == Some((e.epoch, e.random_seed)))
            },
            GuessAiEventIdentifier::TDXQuoteResubmittedEvent => {
                &&& r is Some <==> sp_resubmit_of(s@) is Some
                &&& r is Some ==> (r.unwrap() matches GuessAiEvent::TDXQuoteResubmittedEvent(e)
                    && sp_resubmit_of(s@) == Some((e.epoch, e.tdx_quote_v4@, e.public_key_bytes@)))
            },
        },
{
    let j = match parse_json(s) {
        Some(j) => j,
        None => {
            return None;
        },
    };
    match id {
        GuessAiEventIdentifier::PublishEvent => match string_field(&j, "id") {
            Some(i) => match string_field(&j, "manager_id") {
                Some(m) => Some(GuessAiEvent::PublishEvent(PublishEvent { id: i, manager_id: m })),
                None => None,
            },
            None => None,
        },
        GuessAiEventIdentifier::NewGuessEvent => match str_u64_field(&j, "fee") {
            Some(fee) => match string_field(&j, "guess") {
                Some(g) => match str_u64_field(&j, "guess_count") {
                    Some(c) => match crate::channel::u64_field(&j, "treasury_pool_balance") {
                        Some(b) => Some(
                            GuessAiEvent::NewGuessEvent(
                                NewGuessEvent {
                                    fee,
                                    guess: g,
                                    guess_count: c,
                                    treasury_pool_balance: b,
                                },
                            ),
                        ),
                        None => None,
                    },
                    None => None,
                },
                None => None,
            },
            None => None,
        },
        GuessAiEventIdentifier::RotateTdxQuoteEvent => match str_u64_field(&j, "epoch") {
            Some(e) => match str_u64_field(&j, "random_seed") {
                Some(rs) => Some(
                    GuessAiEvent::RotateTdxQuoteEvent(
                        RotateTdxQuoteEvent { epoch: e, random_seed: rs },
                    ),
                ),
                None => None,
            },
            None => None,
        },
        GuessAiEventIdentifier::TDXQuoteResubmittedEvent => match crate::channel::u64_field(
            &j,
            "epoch",
        ) {
            Some(e) => match bytes_field(&j, "tdx_quote_v4") {
                Some(q) => match bytes_field(&j, "public_key_bytes") {
                    Some(pk) => Some(
                        GuessAiEvent::TDXQuoteResubmittedEvent(
                            TDXQuoteResubmittedEvent {
                                epoch: e,
                                tdx_quote_v4: q,
                                public_key_bytes: pk,
                            },
                        ),
                    ),
                    None => None,
                },
                None => None,
            },
            None => None,
        },
    }
}

} // verus!
