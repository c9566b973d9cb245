//! The durable event-log checkpoint: the cursor record, its text form,
//! and the proof that reading a written checkpoint gives it back.
//!
//! A cursor names a position in the ledger's event log: the digest of the
//! transaction last consumed and the event's index inside it. The store
//! writes one record — the digest in lowercase hex, a space, the index in
//! decimal — and reads it back at startup. An absent store means the start
//! of history, not an error; a record that does not parse is refused, and
//! the engine treats that as fatal.

use vstd::prelude::*;

use crate::dec::{all_digits, dec_seq, dec_val, lemma_dec_seq_digits, lemma_dec_val_of_dec_seq,
    parse_dec_u64, push_dec};
use crate::json::copy_range;

verus! {

/// A position in the event log.
#[derive(Clone, Debug)]
pub struct EventCursor {
    /// The digest of the transaction last consumed.
    pub tx_digest: Vec<u8>,
    /// The event's index within that transaction.
    pub event_seq: u64,
}

impl PartialEq for EventCursor {
    fn eq(&self, other: &EventCursor) -> (r: bool) {
        crate::json::bytes_eq(self.tx_digest.as_slice(), other.tx_digest.as_slice())
            && self.event_seq == other.event_seq
    }
}

impl vstd::std_specs::cmp::PartialEqSpecImpl for EventCursor {
    open spec fn obeys_eq_spec() -> bool {
        true
    }

    open spec fn eq_spec(&self, other: &EventCursor) -> bool {
        self.tx_digest@ == other.tx_digest@ && self.event_seq == other.event_seq
    }
}

/// The lower-case hex character of a value below 16.
pub open spec fn hex_digit(n: u8) -> u8 {
    if n < 10 {
        (n + 0x30) as u8
    } else {
        (n - 10 + 0x61) as u8
    }
}

/// A lower-case hex character.
pub open spec fn is_hex_digit(b: u8) -> bool {
    (0x30 <= b <= 0x39) || (0x61 <= b <= 0x66)
}

/// The value of a hex character.
pub open spec fn hex_val(b: u8) -> u8 {
    if b <= 0x39 {
        (b - 0x30) as u8
    } else {
        (b - 0x61 + 10) as u8
    }
}

/// The lower-case hex text of a byte string, two characters per byte.
pub open spec fn hex_seq(b: Seq<u8>) -> Seq<u8>
    decreases b.len(),
{
    if b.len() == 0 {
        Seq::empty()
    } else {
        seq![hex_digit(b[0] / 16), hex_digit((b[0] % 16) as u8)] + hex_seq(b.drop_first())
    }
}

/// Hex text is made of hex characters, two per byte.
pub proof fn lemma_hex_seq_digits(b: Seq<u8>)
    ensures
        hex_seq(b).len() == 2 * b.len(),
        forall|k: int| 0 <= k < hex_seq(b).len() ==> is_hex_digit(#[trigger] hex_seq(b)[k]),
    decreases b.len(),
{
    if b.len() > 0 {
        lemma_hex_seq_digits(b.drop_first());
    }
}

/// The bytes a hex text names: pairs of hex characters, nothing else.
pub open spec fn sp_parse_hex(s: Seq<u8>) -> Option<Seq<u8>>
    decreases s.len(),
{
    if s.len() == 0 {
        Some(Seq::empty())
    } else if s.len() >= 2 && is_hex_digit(s[0]) && is_hex_digit(s[1]) {
        match sp_parse_hex(s.skip(2)) {
            Some(t) => Some(seq![(hex_val(s[0]) * 16 + hex_val(s[1])) as u8] + t),
            None => None,
        }
    } else {
        None
    }
}

/// Reading hex text back gives the bytes it was made from.
pub proof fn lemma_parse_hex_of_hex_seq(b: Seq<u8>)
    ensures
        sp_parse_hex(hex_seq(b)) == Some(b),
    decreases b.len(),
{
    if b.len() == 0 {
        assert(hex_seq(b).len() == 0);
    } else {
        lemma_parse_hex_of_hex_seq(b.drop_first());
        let s = hex_seq(b);
        assert(s[0] == hex_digit(b[0] / 16));
        assert(s[1] == hex_digit((b[0] % 16) as u8));
        assert(s.skip(2) =~= hex_seq(b.drop_first()));
        assert(hex_val(hex_digit(b[0] / 16)) == b[0] / 16);
        assert(hex_val(hex_digit((b[0] % 16) as u8)) == b[0] % 16);
        assert((hex_val(s[0]) * 16 + hex_val(s[1])) as u8 == b[0]);
        assert(seq![b[0]] + b.drop_first() =~= b);
    }
}

/// Appends the hex text of `b`, from index `i` on.
fn push_hex_from(out: &mut Vec<u8>, b: &[u8], i: usize)
    requires
        i <= b@.len(),
    ensures
        final(out)@ == old(out)@ + hex_seq(b@.skip(i as int)),
    decreases b@.len() - i,
{
    if i >= b.len() {
        assert(b@.skip(i as int) =~= Seq::<u8>::empty());
        assert(out@ =~= old(out)@ + hex_seq(b@.skip(i as int)));
        return ;
    }
    let x = b[i];
    assert(b@.skip(i as int)[0] == x);
    assert(b@.skip(i as int).drop_first() =~= b@.skip(i + 1));
    let hi = x / 16;
    let lo = x % 16;
    out.push(
        if hi < 10 {
            hi + 0x30
        } else {
            hi - 10 + 0x61
        },
    );
    out.push(
        if lo < 10 {
            lo + 0x30
        } else {
            lo - 10 + 0x61
        },
    );
    let ghost mid = out@;
    assert(mid =~= old(out)@ + seq![hex_digit(x / 16), hex_digit((x % 16) as u8)]);
    push_hex_from(out, b, i + 1);
    assert(out@ =~= old(out)@ + hex_seq(b@.skip(i as int)));
}

/// Reads hex pairs between `i` and `end`, as `sp_parse_hex` says of that
/// range.
fn parse_hex_range(s: &[u8], i: usize, end: usize) -> (r: Option<Vec<u8>>)
    requires
        i <= end <= s@.len(),
    ensures
        match r {
            Some(b) => sp_parse_hex(s@.subrange(i as int, end as int)) == Some(b@),
            None => sp_parse_hex(s@.subrange(i as int, end as int)) is None,
        },
    decreases end - i,
{
    let ghost part = s@.subrange(i as int, end as int);
    if i == end {
        assert(part =~= Seq::<u8>::empty());
        return Some(Vec::new());
    }
    assert(part[0] == s@[i as int]);
    if end - i >= 2 {
        assert(part[1] == s@[i + 1]);
    }
    let b0 = s[i];
    let d0 = if 0x30 <= b0 && b0 <= 0x39 {
        b0 - 0x30
    } else if 0x61 <= b0 && b0 <= 0x66 {
        b0 - 0x61 + 10
    } else {
        return None;
    };
    if end - i < 2 {
        return None;
    }
    let b1 = s[i + 1];
    let d1 = if 0x30 <= b1 && b1 <= 0x39 {
        b1 - 0x30
    } else if 0x61 <= b1 && b1 <= 0x66 {
        b1 - 0x61 + 10
    } else {
        return None;
    };
    assert(part.skip(2) =~= s@.subrange(i + 2, end as int));
    match parse_hex_range(s, i + 2, end) {
        Some(mut rest) => {
            let ghost old_rest = rest@;
            rest.insert(0, d0 * 16 + d1);
            proof {
                assert(rest@ =~= seq![(hex_val(part[0]) * 16 + hex_val(part[1])) as u8]
                    + old_rest);
            }
            Some(rest)
        },
        None => None,
    }
}

/// The first index at or after `i` holding a space, or the length where
/// none does.
pub open spec fn sp_find_space(s: Seq<u8>, i: int) -> int
    decreases s.len() - i when 0 <= i <= s.len()
{
    if i < s.len() {
        if s[i] == 0x20 {
            i
        } else {
            sp_find_space(s, i + 1)
        }
    } else {
        i
    }
}

/// Runs to the first space, as `sp_find_space` says.
fn find_space(s: &[u8], i: usize) -> (r: usize)
    requires
        i <= s@.len(),
    ensures
        r as int == sp_find_space(s@, i as int),
        i <= r <= s@.len(),
    decreases s@.len() - i,
{
    if i < s.len() {
        if s[i] == 0x20 {
            i
        } else {
            find_space(s, i + 1)
        }
    } else {
        i
    }
}

/// The text form of a cursor: the digest in hex, a space, the index in
/// decimal.
pub open spec fn sp_encode_cursor(c: EventCursor) -> Seq<u8> {
    hex_seq(c.tx_digest@) + seq![0x20u8] + dec_seq(c.event_seq as nat)
}

/// Writes a cursor's text form.
pub fn encode_cursor(c: &EventCursor) -> (r: Vec<u8>)
    ensures
        r@ == sp_encode_cursor(*c),
{
    let mut out: Vec<u8> = Vec::new();
    assert(c.tx_digest@.skip(0) =~= c.tx_digest@);
    push_hex_from(&mut out, c.tx_digest.as_slice(), 0);
    out.push(0x20);
    push_dec(c.event_seq, &mut out);
    assert(out@ =~= sp_encode_cursor(*c));
    out
}

/// What a cursor record must hold: hex pairs to the first space, and a
/// decimal index after it.
pub open spec fn sp_parse_cursor(s: Seq<u8>) -> Option<(Seq<u8>, u64)> {
    let i = sp_find_space(s, 0);
    if 0 <= i < s.len() {
        match sp_parse_hex(s.take(i)) {
            Some(d) => {
                let rest = s.skip(i + 1);
                if rest.len() > 0 && all_digits(rest) && dec_val(rest) <= u64::MAX {
                    Some((d, dec_val(rest) as u64))
                } else {
                    None
                }
            },
            None => None,
        }
    } else {
        None
    }
}

/// Reads a cursor record, as `sp_parse_cursor` says.
pub fn parse_cursor(s: &[u8]) -> (r: Option<EventCursor>)
    ensures
        r is Some <==> sp_parse_cursor(s@) is Some,
        r is Some ==> sp_parse_cursor(s@) == Some(
            (r.unwrap().tx_digest@, r.unwrap().event_seq),
        ),
{
    let i = find_space(s, 0);
    if i >= s.len() {
        return None;
    }
    assert(s@.subrange(0, i as int) =~= s@.take(i as int));
    let digest = match parse_hex_range(s, 0, i) {
        Some(d) => d,
        None => {
            return None;
        },
    };
    let rest = copy_range(s, i + 1, s.len());
    assert(rest@ =~= s@.skip(i + 1));
    match parse_dec_u64(rest.as_slice()) {
        Some(n) => Some(EventCursor { tx_digest: digest, event_seq: n }),
        None => None,
    }
}

/// Scanning for a space over text that holds none stops at the appended
/// space.
proof fn lemma_find_space_after(s: Seq<u8>, i: int, m: int)
    requires
        0 <= i <= m < s.len(),
        forall|k: int| i <= k < m ==> #[trigger] s[k] != 0x20,
        s[m] == 0x20,
    ensures
        sp_find_space(s, i) == m,
    decreases m - i,
{
    if i < m {
        lemma_find_space_after(s, i + 1, m);
    }
}

/// The checkpoint round trip: a written cursor record reads back as the
/// cursor it was made from, for every cursor.
pub proof fn lemma_cursor_round_trip(c: EventCursor)
    ensures
        sp_parse_cursor(sp_encode_cursor(c)) == Some((c.tx_digest@, c.event_seq)),
{
    let s = sp_encode_cursor(c);
    let h = hex_seq(c.tx_digest@);
    let d = dec_seq(c.event_seq as nat);
    lemma_hex_seq_digits(c.tx_digest@);
    lemma_dec_seq_digits(c.event_seq as nat);
    lemma_dec_val_of_dec_seq(c.event_seq as nat);
    assert(s.len() == h.len() + 1 + d.len());
    assert(s[h.len() as int] == 0x20);
    assert forall|k: int| 0 <= k < h.len() implies #[trigger] s[k] != 0x20 by {
        assert(s[k] == h[k]);
        assert(is_hex_digit(h[k]));
    }
    lemma_find_space_after(s, 0, h.len() as int);
    assert(s.take(h.len() as int) =~= h);
    lemma_parse_hex_of_hex_seq(c.tx_digest@);
    assert(s.skip(h.len() as int + 1) =~= d);
}

/// Why a checkpoint could not be used.
#[derive(Clone, Copy, Debug, PartialEq, Eq, Structural)]
pub enum CursorStoreError {
    /// The store holds text that is not a cursor record.
    Malformed,
}

/// Reads the store's content: an absent store is the start of history,
/// `None`, not an error; a record that parses is the position it names;
/// anything else is refused.
pub fn read_cursor(content: Option<&Vec<u8>>) -> (r: Result<Option<EventCursor>, CursorStoreError>)
    ensures
        content is None ==> r == Ok::<Option<EventCursor>, CursorStoreError>(None),
        content matches Some(s) ==> {
            &&& r is Ok <==> sp_parse_cursor(s@) is Some
            &&& r is Ok ==> (r.unwrap() matches Some(c) && sp_parse_cursor(s@) == Some(
                (c.tx_digest@, c.event_seq),
            ))
            &&& r is Err ==> r == Err::<Option<EventCursor>, CursorStoreError>(
                CursorStoreError::Malformed,
            )
        },
{
    match content {
        None => Ok(None),
        Some(s) => match parse_cursor(s.as_slice()) {
            Some(c) => Ok(Some(c)),
            None => Err(CursorStoreError::Malformed),
        },
    }
}

} // verus!
