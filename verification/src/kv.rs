//! A flat key-value text: the form configuration sections and overrides
//! reach the library in. Each line holds `key = value`, the value a quoted
//! string, an unsigned integer, or a boolean; nothing else. The grammar is
//! deliberately the canonical rendering and no more: a text outside it is
//! refused whole.

use vstd::prelude::*;
use vstd::string::StringSliceAdditionalSpecFns;

use crate::dec::dec_val;
use crate::json::{
    copy_range, lit_false_at, lit_true_at, parse_str_body, scan_digits, sp_digits_end,
    sp_lit_false, sp_lit_true, sp_str_body,
};

verus! {

/// A value of an entry, at the specification level.
pub ghost enum KvV {
    S(Seq<u8>),
    I(u64),
    B(bool),
}

/// A value of an entry: a string's decoded bytes, an unsigned integer, or
/// a boolean.
pub enum KvValue {
    S(Vec<u8>),
    I(u64),
    B(bool),
}

impl KvValue {
    /// The specification-level value this entry holds.
    pub open spec fn v(self) -> KvV {
        match self {
            KvValue::S(b) => KvV::S(b@),
            KvValue::I(n) => KvV::I(n),
            KvValue::B(b) => KvV::B(b),
        }
    }
}

/// The views of a sequence of entries, in order.
pub open spec fn entries_v(es: Seq<(Vec<u8>, KvValue)>) -> Seq<(Seq<u8>, KvV)>
    decreases es,
{
    if es.len() == 0 {
        Seq::empty()
    } else {
        seq![(es[0].0@, es[0].1.v())] + entries_v(es.drop_first())
    }
}

/// A character a key may hold: a letter, a digit, `_` or `-`.
pub open spec fn is_key_byte(b: u8) -> bool {
    (0x30 <= b <= 0x39) || (0x41 <= b <= 0x5a) || (0x61 <= b <= 0x7a) || b == 0x5f || b == 0x2d
}

/// The first index at or after `i` that does not hold a key character.
pub open spec fn sp_key_end(s: Seq<u8>, i: int) -> int
    decreases s.len() - i when 0 <= i <= s.len()
{
    if i < s.len() && is_key_byte(s[i]) {
        sp_key_end(s, i + 1)
    } else {
        i
    }
}

/// Runs past key characters, as `sp_key_end` says.
fn scan_key(s: &[u8], i: usize) -> (r: usize)
    requires
        i <= s@.len(),
    ensures
        r as int == sp_key_end(s@, i as int),
        i <= r <= s@.len(),
    decreases s@.len() - i,
{
    if i < s.len() {
        let b = s[i];
        if (0x30 <= b && b <= 0x39) || (0x41 <= b && b <= 0x5a) || (0x61 <= b && b <= 0x7a) || b
            == 0x5f || b == 0x2d {
            return scan_key(s, i + 1);
        }
    }
    i
}

/// Parses a value at `i`: a quoted string, a run of digits naming a `u64`,
/// or a boolean literal. Returns the value and the index just after it.
pub open spec fn sp_kv_value(s: Seq<u8>, i: int) -> Option<(KvV, int)> {
    if 0 <= i < s.len() {
        if s[i] == 0x22 {
            match sp_str_body(s, i + 1) {
                Some((b, j)) => Some((KvV::S(b), j)),
                None => None,
            }
        } else if sp_lit_true(s, i) {
            Some((KvV::B(true), i + 4))
        } else if sp_lit_false(s, i) {
            Some((KvV::B(false), i + 5))
        } else {
            let j = sp_digits_end(s, i);
            if j > i && dec_val(s.subrange(i, j)) <= u64::MAX {
                Some((KvV::I(dec_val(s.subrange(i, j)) as u64), j))
            } else {
                None
            }
        }
    } else {
        None
    }
}

/// Parses a value, as `sp_kv_value` says.
fn parse_kv_value(s: &[u8], i: usize) -> (r: Option<(KvValue, usize)>)
    requires
        i <= s@.len(),
    ensures
        match r {
            Some(t) => sp_kv_value(s@, i as int) == Some((t.0.v(), t.1 as int)) && i < t.1
                <= s@.len(),
            None => sp_kv_value(s@, i as int) is None,
        },
{
    if i >= s.len() {
        return None;
    }
    if s[i] == 0x22 {
        match parse_str_body(s, i + 1) {
            Some((b, j)) => Some((KvValue::S(b), j)),
            None => None,
        }
    } else if lit_true_at(s, i) {
        Some((KvValue::B(true), i + 4))
    } else if lit_false_at(s, i) {
        Some((KvValue::B(false), i + 5))
    } else {
        let j = scan_digits(s, i);
        if j > i {
            let lex = copy_range(s, i, j);
            match crate::dec::parse_dec_u64(lex.as_slice()) {
                Some(n) => Some((KvValue::I(n), j)),
                None => {
                    proof {
                        crate::json::lemma_digits_scan(s@, i as int);
                        assert(crate::dec::all_digits(s@.subrange(i as int, j as int))) by {
                            assert(forall|m: int|
                                0 <= m < j - i ==> s@.subrange(i as int, j as int)[m] == s@[i
                                    + m]);
                        }
                    }
                    None
                },
            }
        } else {
            None
        }
    }
}

/// Parses the lines from `i` on: each a key, ` = `, a value and a line
/// break, to the end of the text.
pub open spec fn sp_kv_lines(s: Seq<u8>, i: int) -> Option<Seq<(Seq<u8>, KvV)>>
    decreases s.len() - i when 0 <= i <= s.len()
{
    if i >= s.len() {
        Some(Seq::empty())
    } else {
        let k = sp_key_end(s, i);
        if i < k && k + 3 <= s.len() && s[k] == 0x20 && s[k + 1] == 0x3d && s[k + 2] == 0x20 {
            match sp_kv_value(s, k + 3) {
                Some((v, j)) => {
                    if k + 3 < j <= s.len() && j < s.len() && s[j] == 0x0a {
                        match sp_kv_lines(s, j + 1) {
                            Some(rest) => Some(seq![(s.subrange(i, k), v)] + rest),
                            None => None,
                        }
                    } else {
                        None
                    }
                },
                None => None,
            }
        } else {
            None
        }
    }
}

/// Parses a whole text of lines, as `sp_kv_lines` says.
fn parse_kv_lines(s: &[u8], i: usize) -> (r: Option<Vec<(Vec<u8>, KvValue)>>)
    requires
        i <= s@.len(),
    ensures
        match r {
            Some(es) => sp_kv_lines(s@, i as int) == Some(entries_v(es@)),
            None => sp_kv_lines(s@, i as int) is None,
        },
    decreases s@.len() - i,
{
    if i >= s.len() {
        let es: Vec<(Vec<u8>, KvValue)> = Vec::new();
        assert(entries_v(es@) =~= Seq::<(Seq<u8>, KvV)>::empty());
        return Some(es);
    }
    let k = scan_key(s, i);
    if !(i < k && s.len() >= 3 && k <= s.len() - 3 && s[k] == 0x20 && s[k + 1] == 0x3d && s[k + 2]
        == 0x20) {
        return None;
    }
    match parse_kv_value(s, k + 3) {
        Some((v, j)) => {
            if !(j < s.len() && s[j] == 0x0a) {
                return None;
            }
            match parse_kv_lines(s, j + 1) {
                Some(mut rest) => {
                    let key = copy_range(s, i, k);
                    let ghost old_rest = rest@;
                    rest.insert(0, (key, v));
                    proof {
                        assert(rest@.drop_first() =~= old_rest);
                        assert(entries_v(rest@) =~= seq![(rest@[0].0@, rest@[0].1.v())]
                            + entries_v(old_rest));
                    }
                    Some(rest)
                },
                None => None,
            }
        },
        None => None,
    }
}

/// A parsed key-value text.
pub struct KvFile {
    /// The entries, in the text's order.
    pub entries: Vec<(Vec<u8>, KvValue)>,
}

/// Parses a key-value text into its entries.
pub fn parse_kv(s: &[u8]) -> (r: Option<KvFile>)
    ensures
        r is Some <==> sp_kv_lines(s@, 0) is Some,
        r is Some ==> sp_kv_lines(s@, 0) == Some(entries_v(r.unwrap().entries@)),
{
    match parse_kv_lines(s, 0) {
        Some(es) => Some(KvFile { entries: es }),
        None => None,
    }
}

/// The value under `key`: the first entry so named.
pub open spec fn kv_get(es: Seq<(Seq<u8>, KvV)>, key: Seq<u8>) -> Option<KvV>
    decreases es.len(),
{
    if es.len() == 0 {
        None
    } else if es[0].0 == key {
        Some(es[0].1)
    } else {
        kv_get(es.drop_first(), key)
    }
}

/// `entries_v` read element by element.
pub proof fn lemma_entries_v(es: Seq<(Vec<u8>, KvValue)>)
    ensures
        entries_v(es).len() == es.len(),
        forall|k: int|
            0 <= k < es.len() ==> #[trigger] entries_v(es)[k] == (es[k].0@, es[k].1.v()),
    decreases es.len(),
{
    if es.len() > 0 {
        lemma_entries_v(es.drop_first());
    }
}

/// Looks an entry up, as `kv_get` says.
pub fn get_entry<'a>(f: &'a KvFile, key: &str) -> (r: Option<&'a KvValue>)
    ensures
        match r {
            Some(x) => kv_get(entries_v(f.entries@), key.spec_bytes()) == Some(x.v()),
            None => kv_get(entries_v(f.entries@), key.spec_bytes()) is None,
        },
{
    assert(entries_v(f.entries@).skip(0) =~= entries_v(f.entries@));
    get_entry_from(&f.entries, key, 0)
}

/// Looks an entry up from index `k` on.
fn get_entry_from<'a>(entries: &'a Vec<(Vec<u8>, KvValue)>, key: &str, k: usize) -> (r: Option<
    &'a KvValue,
>)
    requires
        k <= entries@.len(),
    ensures
        match r {
            Some(x) => kv_get(entries_v(entries@).skip(k as int), key.spec_bytes()) == Some(
                x.v(),
            ),
            None => kv_get(entries_v(entries@).skip(k as int), key.spec_bytes()) is None,
        },
    decreases entries@.len() - k,
{
    proof {
        lemma_entries_v(entries@);
    }
    if k >= entries.len() {
        assert(entries_v(entries@).skip(k as int) =~= Seq::<(Seq<u8>, KvV)>::empty());
        return None;
    }
    let ghost ev = entries_v(entries@);
    assert(ev.skip(k as int)[0] == ev[k as int]);
    assert(ev.skip(k as int).drop_first() =~= ev.skip(k + 1));
    if crate::json::bytes_eq(entries[k].0.as_slice(), key.as_bytes()) {
        Some(&entries[k].1)
    } else {
        get_entry_from(entries, key, k + 1)
    }
}

} // verus!
