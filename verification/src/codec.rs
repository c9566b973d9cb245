//! The prompt and wire codec: the deterministic model prompts, the JSON
//! serialization of a chat-completion request, and the strict decoding of
//! the model's response contracts (secret creation, guess judgment, hint).
//!
//! A response that fails to match its exact shape is refused whole, never
//! partially accepted.

use vstd::prelude::*;
use vstd::string::StringSliceAdditionalSpecFns;
use vstd::utf8::{decode_utf8, encode_utf8, valid_utf8};

use crate::dec::{dec_seq, push_dec};
use crate::json::{
    obj_get, parse_json, sp_json, as_bool, as_str_bytes, get_field, Json, JsonV,
};

verus! {

/// One message of a chat conversation.
pub struct ChatCompletionMessage {
    /// The author's role: `system`, `user` or `assistant`.
    pub role: String,
    /// The message text.
    pub content: String,
}

/// A chat-completion request: the model, the conversation so far, and the
/// sampling seed where the caller fixes one.
pub struct ChatCompletionRequest {
    /// The model that answers the request.
    pub model: String,
    /// The conversation, in order.
    pub messages: Vec<ChatCompletionMessage>,
    /// A seed for deterministic sampling, where one is used.
    pub seed: Option<u64>,
}

/// Usage statistics of a completion response.
pub struct CompletionUsage {
    /// Tokens in the prompt.
    pub prompt_tokens: i32,
    /// Tokens in the completion.
    pub completion_tokens: i32,
    /// Tokens in the whole exchange.
    pub total_tokens: i32,
}

/// The model's answer to a guess judgment.
pub struct GuessAnswer {
    /// Whether the guess names the secret.
    pub is_correct: bool,
    /// The model's account of the verdict.
    pub explanation: String,
}

/// What a byte becomes inside a JSON string: the two-character escape where
/// JSON asks for one, the byte itself elsewhere.
pub open spec fn esc1(x: u8) -> Seq<u8> {
    if x == 0x22 {
        seq![0x5c, 0x22]
    } else if x == 0x5c {
        seq![0x5c, 0x5c]
    } else if x == 0x08 {
        seq![0x5c, 0x62]
    } else if x == 0x0c {
        seq![0x5c, 0x66]
    } else if x == 0x0a {
        seq![0x5c, 0x6e]
    } else if x == 0x0d {
        seq![0x5c, 0x72]
    } else if x == 0x09 {
        seq![0x5c, 0x74]
    } else {
        seq![x]
    }
}

/// The escaped form of a string's bytes.
pub open spec fn esc_json(b: Seq<u8>) -> Seq<u8>
    decreases b.len(),
{
    if b.len() == 0 {
        Seq::empty()
    } else {
        esc1(b[0]) + esc_json(b.drop_first())
    }
}

/// A quoted, escaped JSON string.
pub open spec fn sp_quoted(b: Seq<u8>) -> Seq<u8> {
    seq![0x22] + esc_json(b) + seq![0x22]
}

/// The serialized form of one message.
pub open spec fn sp_ser_message(m: ChatCompletionMessage) -> Seq<u8> {
    encode_utf8("{\"role\":"@) + sp_quoted(encode_utf8(m.role@)) + encode_utf8(",\"content\":"@)
        + sp_quoted(encode_utf8(m.content@)) + encode_utf8("}"@)
}

/// The serialized messages, joined by commas.
pub open spec fn sp_ser_messages(ms: Seq<ChatCompletionMessage>) -> Seq<u8>
    decreases ms.len(),
{
    if ms.len() == 0 {
        Seq::empty()
    } else if ms.len() == 1 {
        sp_ser_message(ms[0])
    } else {
        sp_ser_message(ms[0]) + seq![0x2c] + sp_ser_messages(ms.drop_first())
    }
}

/// The serialized form of a whole request.
pub open spec fn sp_ser_request(r: ChatCompletionRequest) -> Seq<u8> {
    encode_utf8("{\"model\":"@) + sp_quoted(encode_utf8(r.model@)) + encode_utf8(
        ",\"messages\":["@,
    ) + sp_ser_messages(r.messages@) + encode_utf8("]"@) + (match r.seed {
        Some(n) => encode_utf8(",\"seed\":"@) + dec_seq(n as nat),
        None => Seq::empty(),
    }) + encode_utf8("}"@)
}

/// Appends the UTF-8 bytes of `s` to `out`.
fn push_lit(out: &mut Vec<u8>, s: &str)
    ensures
        final(out)@ == old(out)@ + encode_utf8(s@),
{
    let mut b = s.as_bytes_vec();
    out.append(&mut b);
}

/// Appends the escaped form of `b`, from index `i` on.
fn push_escaped_from(out: &mut Vec<u8>, b: &[u8], i: usize)
    requires
        i <= b@.len(),
    ensures
        final(out)@ == old(out)@ + esc_json(b@.skip(i as int)),
    decreases b@.len() - i,
{
    if i >= b.len() {
        assert(b@.skip(i as int) =~= Seq::<u8>::empty());
        assert(out@ =~= old(out)@ + esc_json(b@.skip(i as int)));
        return ;
    }
    let x = b[i];
    assert(b@.skip(i as int)[0] == x);
    assert(b@.skip(i as int).drop_first() =~= b@.skip(i + 1));
    if x == 0x22 {
        out.push(0x5c);
        out.push(0x22);
    } else if x == 0x5c {
        out.push(0x5c);
        out.push(0x5c);
    } else if x == 0x08 {
        out.push(0x5c);
        out.push(0x62);
    } else if x == 0x0c {
        out.push(0x5c);
        out.push(0x66);
    } else if x == 0x0a {
        out.push(0x5c);
        out.push(0x6e);
    } else if x == 0x0d {
        out.push(0x5c);
        out.push(0x72);
    } else if x == 0x09 {
        out.push(0x5c);
        out.push(0x74);
    } else {
        out.push(x);
    }
    let ghost mid = out@;
    assert(mid =~= old(out)@ + esc1(x));
    push_escaped_from(out, b, i + 1);
    assert(out@ =~= old(out)@ + esc_json(b@.skip(i as int)));
}

/// Appends the quoted, escaped form of `b`.
fn push_quoted(out: &mut Vec<u8>, b: &[u8])
    ensures
        final(out)@ == old(out)@ + sp_quoted(b@),
{
    out.push(0x22);
    assert(b@.skip(0) =~= b@);
    push_escaped_from(out, b, 0);
    out.push(0x22);
    assert(out@ =~= old(out)@ + sp_quoted(b@));
}

/// Appends the serialized messages from index `i` on.
fn push_messages_from(out: &mut Vec<u8>, ms: &Vec<ChatCompletionMessage>, i: usize)
    requires
        i <= ms@.len(),
    ensures
        final(out)@ == old(out)@ + sp_ser_messages(ms@.skip(i as int)),
    decreases ms@.len() - i,
{
    if i >= ms.len() {
        assert(ms@.skip(i as int) =~= Seq::<ChatCompletionMessage>::empty());
        assert(out@ =~= old(out)@ + sp_ser_messages(ms@.skip(i as int)));
        return ;
    }
    assert(ms@.skip(i as int)[0] == ms@[i as int]);
    assert(ms@.skip(i as int).drop_first() =~= ms@.skip(i + 1));
    push_lit(out, "{\"role\":");
    push_quoted(out, ms[i].role.as_str().as_bytes());
    push_lit(out, ",\"content\":");
    push_quoted(out, ms[i].content.as_str().as_bytes());
    push_lit(out, "}");
    let ghost mid = out@;
    assert(mid =~= old(out)@ + sp_ser_message(ms@[i as int]));
    if i + 1 < ms.len() {
        out.push(0x2c);
        push_messages_from(out, ms, i + 1);
        assert(out@ =~= old(out)@ + sp_ser_messages(ms@.skip(i as int)));
    } else {
        assert(ms@.skip(i as int).len() == 1);
        assert(out@ =~= old(out)@ + sp_ser_messages(ms@.skip(i as int)));
    }
}

/// The serialized bytes of a request: the plaintext that is hashed,
/// encrypted and sent.
pub fn build_request_bytes(req: &ChatCompletionRequest) -> (r: Vec<u8>)
    ensures
        r@ == sp_ser_request(*req),
{
    let mut out: Vec<u8> = Vec::new();
    push_lit(&mut out, "{\"model\":");
    push_quoted(&mut out, req.model.as_str().as_bytes());
    push_lit(&mut out, ",\"messages\":[");
    assert(req.messages@.skip(0) =~= req.messages@);
    push_messages_from(&mut out, &req.messages, 0);
    push_lit(&mut out, "]");
    match req.seed {
        Some(n) => {
            push_lit(&mut out, ",\"seed\":");
            push_dec(n, &mut out);
        },
        None => {},
    }
    push_lit(&mut out, "}");
    assert(out@ =~= sp_ser_request(*req));
    out
}

/// Relies on `String::from_utf8`: it accepts exactly the valid UTF-8 byte
/// strings, and the string it returns holds those very bytes.
#[verifier::external_body]
pub fn string_from_utf8(v: Vec<u8>) -> (r: Option<String>)
    ensures
        r is Some <==> valid_utf8(v@),
        r is Some ==> encode_utf8(r.unwrap()@) == v@ && r.unwrap()@ == decode_utf8(v@),
{
    String::from_utf8(v).ok()
}

/// The bytes of `v`, as fresh storage.
pub fn to_owned_bytes(v: &[u8]) -> (r: Vec<u8>)
    ensures
        r@ == v@,
{
    let mut out: Vec<u8> = Vec::new();
    let mut k: usize = 0;
    while k < v.len()
        invariant
            0 <= k <= v@.len(),
            out@ == v@.take(k as int),
        decreases v@.len() - k,
    {
        out.push(v[k]);
        assert(out@ =~= v@.take(k + 1));
        k = k + 1;
    }
    assert(out@ =~= v@);
    out
}

/// The string under `key` in the object `v`, where it is one and holds
/// valid UTF-8.
pub open spec fn sp_string_field(v: JsonV, key: Seq<char>) -> Option<Seq<char>> {
    match v {
        JsonV::Obj(fs) => match obj_get(fs, encode_utf8(key)) {
            Some(w) => match w {
                JsonV::Str(b) => if valid_utf8(b) {
                    Some(decode_utf8(b))
                } else {
                    None
                },
                _ => None,
            },
            None => None,
        },
        _ => None,
    }
}

/// Reads a string-valued field of an object, as `sp_string_field` says.
pub fn string_field(j: &Json, key: &str) -> (r: Option<String>)
    ensures
        r is Some <==> sp_string_field(j.v(), key@) is Some,
        r is Some ==> r.unwrap()@ == sp_string_field(j.v(), key@).unwrap(),
{
    match get_field(j, key) {
        Some(w) => match as_str_bytes(w) {
            Some(b) => string_from_utf8(to_owned_bytes(b.as_slice())),
            None => None,
        },
        None => None,
    }
}

/// The secret named by a secret-creation response: the text must be a JSON
/// object whose `secret` field holds a string of valid UTF-8.
pub open spec fn sp_secret_of(s: Seq<u8>) -> Option<Seq<char>> {
    match sp_json(s) {
        Some(v) => sp_string_field(v, "secret"@),
        None => None,
    }
}

/// Decodes a secret-creation response, as `sp_secret_of` says.
pub fn decode_secret_response(s: &[u8]) -> (r: Option<String>)
    ensures
        r is Some <==> sp_secret_of(s@) is Some,
        r is Some ==> r.unwrap()@ == sp_secret_of(s@).unwrap(),
{
    match parse_json(s) {
        Some(j) => string_field(&j, "secret"),
        None => None,
    }
}

/// The hint named by a hint response: the text must be a JSON object whose
/// `hint` field holds a string of valid UTF-8.
pub open spec fn sp_hint_of(s: Seq<u8>) -> Option<Seq<char>> {
    match sp_json(s) {
        Some(v) => sp_string_field(v, "hint"@),
        None => None,
    }
}

/// Decodes a hint response, as `sp_hint_of` says.
pub fn decode_hint_response(s: &[u8]) -> (r: Option<String>)
    ensures
        r is Some <==> sp_hint_of(s@) is Some,
        r is Some ==> r.unwrap()@ == sp_hint_of(s@).unwrap(),
{
    match parse_json(s) {
        Some(j) => string_field(&j, "hint"),
        None => None,
    }
}

/// The verdict of a guess-judgment response: the text must be a JSON object
/// holding `is_correct` as a boolean and `explanation` as a string.
pub open spec fn sp_guess_of(s: Seq<u8>) -> Option<(bool, Seq<char>)> {
    match sp_json(s) {
        Some(v) => match v {
            JsonV::Obj(fs) => match obj_get(fs, encode_utf8("is_correct"@)) {
                Some(w) => match w {
                    JsonV::Bool(b) => match sp_string_field(v, "explanation"@) {
                        Some(e) => Some((b, e)),
                        None => None,
                    },
                    _ => None,
                },
                None => None,
            },
            _ => None,
        },
        None => None,
    }
}

/// Decodes a guess-judgment response, as `sp_guess_of` says.
pub fn decode_guess_response(s: &[u8]) -> (r: Option<GuessAnswer>)
    ensures
        r is Some <==> sp_guess_of(s@) is Some,
        r is Some ==> r.unwrap().is_correct == sp_guess_of(s@).unwrap().0 && r.unwrap().explanation@
            == sp_guess_of(s@).unwrap().1,
{
    match parse_json(s) {
        Some(j) => match get_field(&j, "is_correct") {
            Some(w) => match as_bool(w) {
                Some(b) => match string_field(&j, "explanation") {
                    Some(e) => Some(GuessAnswer { is_correct: b, explanation: e }),
                    None => None,
                },
                None => None,
            },
            None => None,
        },
        None => None,
    }
}

/// What a chat response's usage object must hold where it is present:
/// the three token counts as numerals within `i32`.
pub open spec fn sp_completion_usage_of(s: Seq<u8>) -> Option<Option<(i32, i32, i32)>> {
    match sp_json(s) {
        Some(v) => match v {
            JsonV::Obj(fs) => match obj_get(fs, encode_utf8("usage"@)) {
                Some(u) => match u {
                    JsonV::Obj(_) => match (
                        crate::channel::sp_u64_field(u, "prompt_tokens"@),
                        crate::channel::sp_u64_field(u, "completion_tokens"@),
                        crate::channel::sp_u64_field(u, "total_tokens"@),
                    ) {
                        (Some(p), Some(c), Some(tt)) => if p <= i32::MAX && c <= i32::MAX && tt
                            <= i32::MAX {
                            Some(Some((p as i32, c as i32, tt as i32)))
                        } else {
                            None
                        },
                        _ => None,
                    },
                    _ => None,
                },
                None => Some(None),
            },
            _ => None,
        },
        None => None,
    }
}

/// Reads a chat response's usage accounting, as `sp_completion_usage_of`
/// says: `Some(None)` where the response reports none.
pub fn decode_completion_usage(s: &[u8]) -> (r: Option<Option<CompletionUsage>>)
    ensures
        r is Some <==> sp_completion_usage_of(s@) is Some,
        r is Some ==> match r.unwrap() {
            Some(u) => sp_completion_usage_of(s@).unwrap() == Some(
                (u.prompt_tokens, u.completion_tokens, u.total_tokens),
            ),
            None => sp_completion_usage_of(s@).unwrap() is None,
        },
{
    let j = match parse_json(s) {
        Some(j) => j,
        None => {
            return None;
        },
    };
    match &j {
        Json::Obj(_) => match get_field(&j, "usage") {
            Some(u) => match u {
                Json::Obj(_) => {
                    let p = crate::channel::u64_field(u, "prompt_tokens");
                    let c = crate::channel::u64_field(u, "completion_tokens");
                    let tt = crate::channel::u64_field(u, "total_tokens");
                    match (p, c, tt) {
                        (Some(p), Some(c), Some(tt)) => {
                            if p <= i32::MAX as u64 && c <= i32::MAX as u64 && tt
                                <= i32::MAX as u64 {
                                Some(
                                    Some(
                                        CompletionUsage {
                                            prompt_tokens: p as i32,
                                            completion_tokens: c as i32,
                                            total_tokens: tt as i32,
                                        },
                                    ),
                                )
                            } else {
                                None
                            }
                        },
                        _ => None,
                    }
                },
                _ => None,
            },
            None => Some(None),
        },
        _ => None,
    }
}

/// The content of the first choice of a chat-completion response: the text
/// must be a JSON object where `choices` is a non-empty array, its first
/// element an object whose `message` object holds `content` as a string.
pub open spec fn sp_chat_content(s: Seq<u8>) -> Option<Seq<u8>> {
    match sp_json(s) {
        Some(v) => match v {
            JsonV::Obj(fs) => match obj_get(fs, encode_utf8("choices"@)) {
                Some(cv) => match cv {
                    JsonV::Arr(es) => if es.len() > 0 {
                        match es[0] {
                            JsonV::Obj(c0) => match obj_get(c0, encode_utf8("message"@)) {
                                Some(mv) => match mv {
                                    JsonV::Obj(mf) => match obj_get(
                                        mf,
                                        encode_utf8("content"@),
                                    ) {
                                        Some(tv) => match tv {
                                            JsonV::Str(b) => Some(b),
                                            _ => None,
                                        },
                                        None => None,
                                    },
                                    _ => None,
                                },
                                None => None,
                            },
                            _ => None,
                        }
                    } else {
                        None
                    },
                    _ => None,
                },
                None => None,
            },
            _ => None,
        },
        None => None,
    }
}

/// Extracts the first choice's message content from a decrypted
/// chat-completion response, as `sp_chat_content` says. The content is
/// returned as bytes: for the game's calls it is itself a JSON text.
pub fn decode_chat_content(s: &[u8]) -> (r: Option<Vec<u8>>)
    ensures
        r is Some <==> sp_chat_content(s@) is Some,
        r is Some ==> r.unwrap()@ == sp_chat_content(s@).unwrap(),
{
    match parse_json(s) {
        Some(j) => match get_field(&j, "choices") {
            Some(cv) => match cv {
                Json::Arr(es) => {
                    if es.len() > 0 {
                        proof {
                            crate::json::lemma_elems_v(es@);
                        }
                        match get_field(&es[0], "message") {
                            Some(mv) => match get_field(mv, "content") {
                                Some(tv) => match as_str_bytes(tv) {
                                    Some(b) => Some(to_owned_bytes(b.as_slice())),
                                    None => None,
                                },
                                None => None,
                            },
                            None => None,
                        }
                    } else {
                        None
                    }
                },
                _ => None,
            },
            None => None,
        },
        None => None,
    }
}

} // verus!
