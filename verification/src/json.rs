//! A strict JSON codec on bytes.
//!
//! The model's request and response contracts, the node-directory record and
//! the event payloads all travel as JSON text. The grammar here is the JSON
//! grammar with one deliberate restriction, matching the strictness the
//! protocol asks for: numbers are integer numerals (no fraction or exponent).
//! Strings carry the single-character escapes and `\uXXXX` sequences,
//! surrogate pairs included; non-ASCII text passes through as raw UTF-8
//! bytes. Anything outside the grammar is refused whole, never partially
//! accepted.
//!
//! `sp_json` is the specification: a deterministic recursive-descent parser
//! over `Seq<u8>`. The executable parser returns exactly what `sp_json` says,
//! which the contracts state value for value.

use vstd::prelude::*;
use vstd::string::StringSliceAdditionalSpecFns;
use vstd::utf8::{encode_scalar, is_scalar};

verus! {

/// A parsed JSON value, at the specification level. Strings are held as
/// their decoded UTF-8 bytes, numbers as their numeral text.
pub ghost enum JsonV {
    Null,
    Bool(bool),
    Num(Seq<u8>),
    Str(Seq<u8>),
    Arr(Seq<JsonV>),
    Obj(Seq<(Seq<u8>, JsonV)>),
}

/// A parsed JSON value. Strings hold decoded UTF-8 bytes, numbers their
/// numeral text.
pub enum Json {
    Null,
    Bool(bool),
    Num(Vec<u8>),
    Str(Vec<u8>),
    Arr(Vec<Json>),
    Obj(Vec<(Vec<u8>, Json)>),
}

broadcast use vstd::std_specs::vec::group_vec_axioms;

/// The views of a sequence of object fields, in order.
pub open spec fn fields_v(fs: Seq<(Vec<u8>, Json)>) -> Seq<(Seq<u8>, JsonV)>
    decreases fs,
{
    if fs.len() == 0 {
        Seq::empty()
    } else {
        seq![(fs[0].0@, fs[0].1.v())] + fields_v(fs.drop_first())
    }
}

/// The views of a sequence of array elements, in order.
pub open spec fn elems_v(es: Seq<Json>) -> Seq<JsonV>
    decreases es,
{
    if es.len() == 0 {
        Seq::empty()
    } else {
        seq![es[0].v()] + elems_v(es.drop_first())
    }
}

impl Json {
    /// The specification-level value this node stands for.
    pub open spec fn v(self) -> JsonV
        decreases self,
    {
        match self {
            Json::Null => JsonV::Null,
            Json::Bool(b) => JsonV::Bool(b),
            Json::Num(l) => JsonV::Num(l@),
            Json::Str(b) => JsonV::Str(b@),
            Json::Arr(es) => JsonV::Arr(elems_v(es@)),
            Json::Obj(fs) => JsonV::Obj(fields_v(fs@)),
        }
    }
}

/// `fields_v` read element by element.
pub proof fn lemma_fields_v(fs: Seq<(Vec<u8>, Json)>)
    ensures
        fields_v(fs).len() == fs.len(),
        forall|k: int|
            0 <= k < fs.len() ==> #[trigger] fields_v(fs)[k] == (fs[k].0@, fs[k].1.v()),
    decreases fs.len(),
{
    if fs.len() > 0 {
        lemma_fields_v(fs.drop_first());
    }
}

/// `elems_v` read element by element.
pub proof fn lemma_elems_v(es: Seq<Json>)
    ensures
        elems_v(es).len() == es.len(),
        forall|k: int| 0 <= k < es.len() ==> #[trigger] elems_v(es)[k] == es[k].v(),
    decreases es.len(),
{
    if es.len() > 0 {
        lemma_elems_v(es.drop_first());
    }
}

/// JSON insignificant whitespace.
pub open spec fn is_ws(b: u8) -> bool {
    b == 0x20 || b == 0x09 || b == 0x0a || b == 0x0d
}

/// An ASCII digit.
pub open spec fn is_digit(b: u8) -> bool {
    0x30 <= b <= 0x39
}

/// The first index at or after `i` that does not hold whitespace.
pub open spec fn sp_ws(s: Seq<u8>, i: int) -> int
    decreases s.len() - i when 0 <= i <= s.len()
{
    if i < s.len() && is_ws(s[i]) {
        sp_ws(s, i + 1)
    } else {
        i
    }
}

/// What a single-character escape stands for: the characters permitted after
/// a backslash, and the byte each one denotes.
pub open spec fn esc_byte(b: u8) -> Option<u8> {
    if b == 0x22 {
        Some(0x22)
    } else if b == 0x5c {
        Some(0x5c)
    } else if b == 0x2f {
        Some(0x2f)
    } else if b == 0x62 {
        Some(0x08)
    } else if b == 0x66 {
        Some(0x0c)
    } else if b == 0x6e {
        Some(0x0a)
    } else if b == 0x72 {
        Some(0x0d)
    } else if b == 0x74 {
        Some(0x09)
    } else {
        None
    }
}

/// The value of a hex character, of either case; 16 where it is none.
pub open spec fn jhex_val(b: u8) -> u32 {
    if 0x30 <= b <= 0x39 {
        (b - 0x30) as u32
    } else if 0x61 <= b <= 0x66 {
        (b - 0x61 + 10) as u32
    } else if 0x41 <= b <= 0x46 {
        (b - 0x41 + 10) as u32
    } else {
        16
    }
}

/// The value of the four hex characters at `i`; `0x110000` where any of
/// the four is no hex character.
pub open spec fn sp_hex4(s: Seq<u8>, i: int) -> u32
    recommends
        0 <= i && i + 4 <= s.len(),
{
    if jhex_val(s[i]) < 16 && jhex_val(s[i + 1]) < 16 && jhex_val(s[i + 2]) < 16 && jhex_val(
        s[i + 3],
    ) < 16 {
        (jhex_val(s[i]) * 0x1000 + jhex_val(s[i + 1]) * 0x100 + jhex_val(s[i + 2]) * 0x10
            + jhex_val(s[i + 3])) as u32
    } else {
        0x110000
    }
}

/// Parses the body of a string, `i` standing just after the opening quote.
/// Returns the decoded bytes and the index just after the closing quote.
/// A `\u` escape names a code unit: a plain scalar becomes its UTF-8
/// bytes; a high surrogate must be followed by an escaped low surrogate,
/// the pair naming one supplementary scalar; a lone surrogate is refused.
pub open spec fn sp_str_body(s: Seq<u8>, i: int) -> Option<(Seq<u8>, int)>
    decreases s.len() - i when 0 <= i <= s.len()
{
    if i >= s.len() {
        None
    } else if s[i] == 0x22 {
        Some((Seq::empty(), i + 1))
    } else if s[i] == 0x5c {
        if i + 1 < s.len() {
            if s[i + 1] == 0x75 {  // u
                if i + 6 <= s.len() {
                    let c = sp_hex4(s, i + 2);
                    if c > 0xFFFF {
                        None
                    } else if 0xD800 <= c <= 0xDBFF {
                        if i + 12 <= s.len() && s[i + 6] == 0x5c && s[i + 7] == 0x75 {
                            let c2 = sp_hex4(s, i + 8);
                            if 0xDC00 <= c2 <= 0xDFFF {
                                let cp = (0x10000 + (c - 0xD800) * 0x400 + (c2 - 0xDC00)) as u32;
                                match sp_str_body(s, i + 12) {
                                    Some((t, j)) => Some((encode_scalar(cp) + t, j)),
                                    None => None,
                                }
                            } else {
                                None
                            }
                        } else {
                            None
                        }
                    } else if 0xDC00 <= c <= 0xDFFF {
                        None
                    } else {
                        match sp_str_body(s, i + 6) {
                            Some((t, j)) => Some((encode_scalar(c) + t, j)),
                            None => None,
                        }
                    }
                } else {
                    None
                }
            } else {
                match esc_byte(s[i + 1]) {
                    Some(c) => match sp_str_body(s, i + 2) {
                        Some((t, j)) => Some((seq![c] + t, j)),
                        None => None,
                    },
                    None => None,
                }
            }
        } else {
            None
        }
    } else if s[i] < 0x20 {
        None
    } else {
        match sp_str_body(s, i + 1) {
            Some((t, j)) => Some((seq![s[i]] + t, j)),
            None => None,
        }
    }
}

/// Parses a quoted string whose opening quote stands at `i`.
pub open spec fn sp_string(s: Seq<u8>, i: int) -> Option<(Seq<u8>, int)> {
    if 0 <= i < s.len() && s[i] == 0x22 {
        sp_str_body(s, i + 1)
    } else {
        None
    }
}

/// The first index at or after `i` that does not hold a digit.
pub open spec fn sp_digits_end(s: Seq<u8>, i: int) -> int
    decreases s.len() - i when 0 <= i <= s.len()
{
    if i < s.len() && is_digit(s[i]) {
        sp_digits_end(s, i + 1)
    } else {
        i
    }
}

/// Every byte the digit scan runs over is a digit.
pub proof fn lemma_digits_scan(s: Seq<u8>, i: int)
    requires
        0 <= i <= s.len(),
    ensures
        i <= sp_digits_end(s, i) <= s.len(),
        forall|k: int| i <= k < sp_digits_end(s, i) ==> is_digit(#[trigger] s[k]),
    decreases s.len() - i,
{
    if i < s.len() && is_digit(s[i]) {
        lemma_digits_scan(s, i + 1);
    }
}

/// Parses an integer numeral at `i`: an optional minus sign, then at least
/// one digit. Returns the numeral's text and the index just after it.
pub open spec fn sp_num(s: Seq<u8>, i: int) -> Option<(Seq<u8>, int)> {
    if 0 <= i < s.len() {
        let d = if s[i] == 0x2d {
            i + 1
        } else {
            i
        };
        let j = sp_digits_end(s, d);
        if j > d {
            Some((s.subrange(i, j), j))
        } else {
            None
        }
    } else {
        None
    }
}

/// Whether the four bytes of `true` stand at `i`.
pub open spec fn sp_lit_true(s: Seq<u8>, i: int) -> bool {
    i + 4 <= s.len() && s[i] == 0x74 && s[i + 1] == 0x72 && s[i + 2] == 0x75 && s[i + 3] == 0x65
}

/// Whether the five bytes of `false` stand at `i`.
pub open spec fn sp_lit_false(s: Seq<u8>, i: int) -> bool {
    i + 5 <= s.len() && s[i] == 0x66 && s[i + 1] == 0x61 && s[i + 2] == 0x6c && s[i + 3] == 0x73
        && s[i + 4] == 0x65
}

/// Whether the four bytes of `null` stand at `i`.
pub open spec fn sp_lit_null(s: Seq<u8>, i: int) -> bool {
    i + 4 <= s.len() && s[i] == 0x6e && s[i + 1] == 0x75 && s[i + 2] == 0x6c && s[i + 3] == 0x6c
}

/// Parses one JSON value whose first byte (after whitespace) decides its
/// kind. Returns the value and the index just after it. The guards that
/// re-check an index returned by an inner parse never fail on the indexes
/// those parses return; they keep every index within `s` by construction.
pub open spec fn sp_value(s: Seq<u8>, i: int) -> Option<(JsonV, int)>
    decreases s.len() - i, 0int when 0 <= i <= s.len()
{
    let j = sp_ws(s, i);
    if !(i <= j < s.len()) {
        None
    } else if s[j] == 0x7b {  // {
        match sp_members(s, j + 1) {
            Some((fs, k)) => Some((JsonV::Obj(fs), k)),
            None => None,
        }
    } else if s[j] == 0x5b {  // [
        match sp_elements(s, j + 1) {
            Some((es, k)) => Some((JsonV::Arr(es), k)),
            None => None,
        }
    } else if s[j] == 0x22 {  // "
        match sp_string(s, j) {
            Some((b, k)) => Some((JsonV::Str(b), k)),
            None => None,
        }
    } else if sp_lit_true(s, j) {
        Some((JsonV::Bool(true), j + 4))
    } else if sp_lit_false(s, j) {
        Some((JsonV::Bool(false), j + 5))
    } else if sp_lit_null(s, j) {
        Some((JsonV::Null, j + 4))
    } else {
        match sp_num(s, j) {
            Some((l, k)) => Some((JsonV::Num(l), k)),
            None => None,
        }
    }
}

/// Parses the members of an object, `i` standing just after the opening
/// brace. Returns the fields in order and the index just after the closing
/// brace.
pub open spec fn sp_members(s: Seq<u8>, i: int) -> Option<(Seq<(Seq<u8>, JsonV)>, int)>
    decreases s.len() - i, 0int when 0 <= i <= s.len()
{
    let j = sp_ws(s, i);
    if !(i <= j < s.len()) {
        None
    } else if s[j] == 0x7d {  // }
        Some((Seq::empty(), j + 1))
    } else {
        match sp_string(s, j) {
            Some((key, k)) => {
                if !(j < k <= s.len()) {
                    None
                } else {
                    let m = sp_ws(s, k);
                    if !(k <= m < s.len() && s[m] == 0x3a) {  // :
                        None
                    } else {
                        match sp_value(s, m + 1) {
                            Some((val, n)) => {
                                if !(m + 1 <= n <= s.len()) {
                                    None
                                } else {
                                    let p = sp_ws(s, n);
                                    if !(n <= p < s.len()) {
                                        None
                                    } else if s[p] == 0x2c {  // ,
                                        match sp_members_more(s, p + 1) {
                                            Some((rest, q)) => Some(
                                                (seq![(key, val)] + rest, q),
                                            ),
                                            None => None,
                                        }
                                    } else if s[p] == 0x7d {  // }
                                        Some((seq![(key, val)], p + 1))
                                    } else {
                                        None
                                    }
                                }
                            },
                            None => None,
                        }
                    }
                }
            },
            None => None,
        }
    }
}

/// Parses the members after a comma: like `sp_members`, but a closing brace
/// directly after the comma is refused.
pub open spec fn sp_members_more(s: Seq<u8>, i: int) -> Option<(Seq<(Seq<u8>, JsonV)>, int)>
    decreases s.len() - i, 0int when 0 <= i <= s.len()
{
    let j = sp_ws(s, i);
    if !(i <= j < s.len()) {
        None
    } else {
        match sp_string(s, j) {
            Some((key, k)) => {
                if !(j < k <= s.len()) {
                    None
                } else {
                    let m = sp_ws(s, k);
                    if !(k <= m < s.len() && s[m] == 0x3a) {  // :
                        None
                    } else {
                        match sp_value(s, m + 1) {
                            Some((val, n)) => {
                                if !(m + 1 <= n <= s.len()) {
                                    None
                                } else {
                                    let p = sp_ws(s, n);
                                    if !(n <= p < s.len()) {
                                        None
                                    } else if s[p] == 0x2c {  // ,
                                        match sp_members_more(s, p + 1) {
                                            Some((rest, q)) => Some(
                                                (seq![(key, val)] + rest, q),
                                            ),
                                            None => None,
                                        }
                                    } else if s[p] == 0x7d {  // }
                                        Some((seq![(key, val)], p + 1))
                                    } else {
                                        None
                                    }
                                }
                            },
                            None => None,
                        }
                    }
                }
            },
            None => None,
        }
    }
}

/// Parses the elements of an array, `i` standing just after the opening
/// bracket. Returns the elements in order and the index just after the
/// closing bracket.
pub open spec fn sp_elements(s: Seq<u8>, i: int) -> Option<(Seq<JsonV>, int)>
    decreases s.len() - i, 2int when 0 <= i <= s.len()
{
    let j = sp_ws(s, i);
    if !(i <= j < s.len()) {
        None
    } else if s[j] == 0x5d {  // ]
        Some((Seq::empty(), j + 1))
    } else {
        sp_elements_more(s, i)
    }
}

/// Parses at least one array element, then either a comma and more elements
/// or the closing bracket.
pub open spec fn sp_elements_more(s: Seq<u8>, i: int) -> Option<(Seq<JsonV>, int)>
    decreases s.len() - i, 1int when 0 <= i <= s.len()
{
    match sp_value(s, i) {
        Some((val, n)) => {
            if !(i < n <= s.len()) {
                None
            } else {
                let p = sp_ws(s, n);
                if !(n <= p < s.len()) {
                    None
                } else if s[p] == 0x2c {  // ,
                    match sp_elements_more(s, p + 1) {
                        Some((rest, q)) => Some((seq![val] + rest, q)),
                        None => None,
                    }
                } else if s[p] == 0x5d {  // ]
                    Some((seq![val], p + 1))
                } else {
                    None
                }
            }
        },
        None => None,
    }
}

/// Parses a whole text: one value, with nothing but whitespace after it.
pub open spec fn sp_json(s: Seq<u8>) -> Option<JsonV> {
    match sp_value(s, 0) {
        Some((v, j)) => {
            if 0 <= j <= s.len() && sp_ws(s, j) == s.len() {
                Some(v)
            } else {
                None
            }
        },
        None => None,
    }
}

/// Whether two byte strings hold the same bytes.
pub fn bytes_eq(a: &[u8], b: &[u8]) -> (r: bool)
    ensures
        r == (a@ == b@),
{
    if a.len() != b.len() {
        return false;
    }
    let mut i: usize = 0;
    while i < a.len()
        invariant
            0 <= i <= a@.len(),
            a@.len() == b@.len(),
            forall|k: int| 0 <= k < i ==> a@[k] == b@[k],
        decreases a@.len() - i,
    {
        if a[i] != b[i] {
            return false;
        }
        i = i + 1;
    }
    proof {
        assert(a@ =~= b@);
    }
    true
}

/// The bytes of `s` from `a` to `b`, as fresh storage.
pub(crate) fn copy_range(s: &[u8], a: usize, b: usize) -> (r: Vec<u8>)
    requires
        a <= b <= s@.len(),
    ensures
        r@ == s@.subrange(a as int, b as int),
{
    let mut out: Vec<u8> = Vec::new();
    let mut k: usize = a;
    while k < b
        invariant
            a <= k <= b <= s@.len(),
            out@ == s@.subrange(a as int, k as int),
        decreases b - k,
    {
        out.push(s[k]);
        assert(out@ =~= s@.subrange(a as int, k + 1));
        k = k + 1;
    }
    out
}

/// Runs past whitespace, to the index `sp_ws` names.
fn skip_ws(s: &[u8], i: usize) -> (r: usize)
    requires
        i <= s@.len(),
    ensures
        r as int == sp_ws(s@, i as int),
        i <= r <= s@.len(),
    decreases s@.len() - i,
{
    if i < s.len() {
        let b = s[i];
        if b == 0x20 || b == 0x09 || b == 0x0a || b == 0x0d {
            return skip_ws(s, i + 1);
        }
    }
    i
}

/// Runs past digits, to the index `sp_digits_end` names.
pub(crate) fn scan_digits(s: &[u8], i: usize) -> (r: usize)
    requires
        i <= s@.len(),
    ensures
        r as int == sp_digits_end(s@, i as int),
        i <= r <= s@.len(),
    decreases s@.len() - i,
{
    if i < s.len() {
        let b = s[i];
        if 0x30 <= b && b <= 0x39 {
            return scan_digits(s, i + 1);
        }
    }
    i
}

/// The byte an escape character denotes, as `esc_byte` says.
fn escape_of(b: u8) -> (r: Option<u8>)
    ensures
        r == esc_byte(b),
{
    if b == 0x22 {
        Some(0x22)
    } else if b == 0x5c {
        Some(0x5c)
    } else if b == 0x2f {
        Some(0x2f)
    } else if b == 0x62 {
        Some(0x08)
    } else if b == 0x66 {
        Some(0x0c)
    } else if b == 0x6e {
        Some(0x0a)
    } else if b == 0x72 {
        Some(0x0d)
    } else if b == 0x74 {
        Some(0x09)
    } else {
        None
    }
}

/// The value of a hex character, as `jhex_val` says.
fn jhex(b: u8) -> (r: u32)
    ensures
        r == jhex_val(b),
{
    if 0x30 <= b && b <= 0x39 {
        (b - 0x30) as u32
    } else if 0x61 <= b && b <= 0x66 {
        (b - 0x61 + 10) as u32
    } else if 0x41 <= b && b <= 0x46 {
        (b - 0x41 + 10) as u32
    } else {
        16
    }
}

/// The value of the four hex characters at `i`, as `sp_hex4` says.
fn hex4_at(s: &[u8], i: usize) -> (r: u32)
    requires
        i + 4 <= s@.len(),
    ensures
        r == sp_hex4(s@, i as int),
{
    let d0 = jhex(s[i]);
    let d1 = jhex(s[i + 1]);
    let d2 = jhex(s[i + 2]);
    let d3 = jhex(s[i + 3]);
    if d0 < 16 && d1 < 16 && d2 < 16 && d3 < 16 {
        d0 * 0x1000 + d1 * 0x100 + d2 * 0x10 + d3
    } else {
        0x110000
    }
}

/// The UTF-8 bytes of a scalar, as `encode_scalar` says.
fn encode_scalar_bytes(c: u32) -> (r: Vec<u8>)
    requires
        is_scalar(c),
    ensures
        r@ == encode_scalar(c),
{
    let mut out: Vec<u8> = Vec::new();
    if c <= 0x7F {
        proof {
            assert(c & 0x7F <= 0x7F) by (bit_vector);
        }
        out.push((c & 0x7F) as u8);
        assert(out@ =~= encode_scalar(c));
    } else if c <= 0x7FF {
        proof {
            assert((c >> 6) & 0x1F <= 0x1F) by (bit_vector);
            assert(c & 0x3F <= 0x3F) by (bit_vector);
        }
        out.push(0xC0 | (((c >> 6) & 0x1F) as u8));
        out.push(0x80 | ((c & 0x3F) as u8));
        assert(out@ =~= encode_scalar(c));
    } else if c <= 0xFFFF {
        proof {
            assert((c >> 12) & 0x0F <= 0x0F) by (bit_vector);
            assert((c >> 6) & 0x3F <= 0x3F) by (bit_vector);
            assert(c & 0x3F <= 0x3F) by (bit_vector);
        }
        out.push(0xE0 | (((c >> 12) & 0x0F) as u8));
        out.push(0x80 | (((c >> 6) & 0x3F) as u8));
        out.push(0x80 | ((c & 0x3F) as u8));
        assert(out@ =~= encode_scalar(c));
    } else {
        proof {
            assert((c >> 18) & 0x7 <= 0x7) by (bit_vector);
            assert((c >> 12) & 0x3F <= 0x3F) by (bit_vector);
            assert((c >> 6) & 0x3F <= 0x3F) by (bit_vector);
            assert(c & 0x3F <= 0x3F) by (bit_vector);
        }
        out.push(0xF0 | (((c >> 18) & 0x7) as u8));
        out.push(0x80 | (((c >> 12) & 0x3F) as u8));
        out.push(0x80 | (((c >> 6) & 0x3F) as u8));
        out.push(0x80 | ((c & 0x3F) as u8));
        assert(out@ =~= encode_scalar(c));
    }
    out
}

/// Parses a string body as `sp_str_body` says.
pub(crate) fn parse_str_body(s: &[u8], i: usize) -> (r: Option<(Vec<u8>, usize)>)
    requires
        i <= s@.len(),
    ensures
        match r {
            Some(t) => sp_str_body(s@, i as int) == Some((t.0@, t.1 as int)) && i < t.1
                <= s@.len(),
            None => sp_str_body(s@, i as int) is None,
        },
    decreases s@.len() - i,
{
    if i >= s.len() {
        return None;
    }
    let b = s[i];
    if b == 0x22 {
        let t: Vec<u8> = Vec::new();
        assert(t@ =~= Seq::<u8>::empty());
        Some((t, i + 1))
    } else if b == 0x5c {
        if i + 1 < s.len() {
            if s[i + 1] == 0x75 {
                if !(s.len() >= 6 && i <= s.len() - 6) {
                    return None;
                }
                let c = hex4_at(s, i + 2);
                if c > 0xFFFF {
                    None
                } else if 0xD800 <= c && c <= 0xDBFF {
                    if !(s.len() >= 12 && i <= s.len() - 12 && s[i + 6] == 0x5c && s[i + 7]
                        == 0x75) {
                        return None;
                    }
                    let c2 = hex4_at(s, i + 8);
                    if !(0xDC00 <= c2 && c2 <= 0xDFFF) {
                        return None;
                    }
                    let cp: u32 = 0x10000 + (c - 0xD800) * 0x400 + (c2 - 0xDC00);
                    match parse_str_body(s, i + 12) {
                        Some((mut t, j)) => {
                            let ghost told = t@;
                            let mut out = encode_scalar_bytes(cp);
                            out.append(&mut t);
                            proof {
                                assert(out@ =~= encode_scalar(cp) + told);
                            }
                            Some((out, j))
                        },
                        None => None,
                    }
                } else if 0xDC00 <= c && c <= 0xDFFF {
                    None
                } else {
                    match parse_str_body(s, i + 6) {
                        Some((mut t, j)) => {
                            let ghost told = t@;
                            let mut out = encode_scalar_bytes(c);
                            out.append(&mut t);
                            proof {
                                assert(out@ =~= encode_scalar(c) + told);
                            }
                            Some((out, j))
                        },
                        None => None,
                    }
                }
            } else {
                match escape_of(s[i + 1]) {
                    Some(c) => match parse_str_body(s, i + 2) {
                        Some((mut t, j)) => {
                            t.insert(0, c);
                            assert(t@ =~= seq![c] + sp_str_body(s@, i + 2).unwrap().0);
                            Some((t, j))
                        },
                        None => None,
                    },
                    None => None,
                }
            }
        } else {
            None
        }
    } else if b < 0x20 {
        None
    } else {
        match parse_str_body(s, i + 1) {
            Some((mut t, j)) => {
                t.insert(0, b);
                assert(t@ =~= seq![b] + sp_str_body(s@, i + 1).unwrap().0);
                Some((t, j))
            },
            None => None,
        }
    }
}

/// Parses a quoted string as `sp_string` says.
fn parse_string(s: &[u8], i: usize) -> (r: Option<(Vec<u8>, usize)>)
    requires
        i <= s@.len(),
    ensures
        match r {
            Some(t) => sp_string(s@, i as int) == Some((t.0@, t.1 as int)) && i < t.1 <= s@.len(),
            None => sp_string(s@, i as int) is None,
        },
{
    if i < s.len() && s[i] == 0x22 {
        parse_str_body(s, i + 1)
    } else {
        None
    }
}

/// Parses an integer numeral as `sp_num` says.
fn parse_num(s: &[u8], i: usize) -> (r: Option<(Vec<u8>, usize)>)
    requires
        i <= s@.len(),
    ensures
        match r {
            Some(t) => sp_num(s@, i as int) == Some((t.0@, t.1 as int)) && i < t.1 <= s@.len(),
            None => sp_num(s@, i as int) is None,
        },
{
    if i >= s.len() {
        return None;
    }
    let d: usize = if s[i] == 0x2d {
        i + 1
    } else {
        i
    };
    let j = scan_digits(s, d);
    if j > d {
        Some((copy_range(s, i, j), j))
    } else {
        None
    }
}

/// Whether the bytes of `true` stand at `i`, as `sp_lit_true` says.
pub(crate) fn lit_true_at(s: &[u8], i: usize) -> (r: bool)
    requires
        i <= s@.len(),
    ensures
        r == sp_lit_true(s@, i as int),
{
    if s.len() < 4 || i > s.len() - 4 {
        return false;
    }
    s[i] == 0x74 && s[i + 1] == 0x72 && s[i + 2] == 0x75 && s[i + 3] == 0x65
}

/// Whether the bytes of `false` stand at `i`, as `sp_lit_false` says.
pub(crate) fn lit_false_at(s: &[u8], i: usize) -> (r: bool)
    requires
        i <= s@.len(),
    ensures
        r == sp_lit_false(s@, i as int),
{
    if s.len() < 5 || i > s.len() - 5 {
        return false;
    }
    s[i] == 0x66 && s[i + 1] == 0x61 && s[i + 2] == 0x6c && s[i + 3] == 0x73 && s[i + 4] == 0x65
}

/// Whether the bytes of `null` stand at `i`, as `sp_lit_null` says.
fn lit_null_at(s: &[u8], i: usize) -> (r: bool)
    requires
        i <= s@.len(),
    ensures
        r == sp_lit_null(s@, i as int),
{
    if s.len() < 4 || i > s.len() - 4 {
        return false;
    }
    s[i] == 0x6e && s[i + 1] == 0x75 && s[i + 2] == 0x6c && s[i + 3] == 0x6c
}

/// Parses one value as `sp_value` says.
pub fn parse_value(s: &[u8], i: usize) -> (r: Option<(Json, usize)>)
    requires
        i <= s@.len(),
    ensures
        match r {
            Some(t) => sp_value(s@, i as int) == Some((t.0.v(), t.1 as int)) && i < t.1
                <= s@.len(),
            None => sp_value(s@, i as int) is None,
        },
    decreases s@.len() - i, 0int,
{
    let j = skip_ws(s, i);
    if j >= s.len() {
        return None;
    }
    let b = s[j];
    if b == 0x7b {
        match parse_members(s, j + 1) {
            Some((fs, k)) => Some((Json::Obj(fs), k)),
            None => None,
        }
    } else if b == 0x5b {
        match parse_elements(s, j + 1) {
            Some((es, k)) => Some((Json::Arr(es), k)),
            None => None,
        }
    } else if b == 0x22 {
        match parse_string(s, j) {
            Some((t, k)) => Some((Json::Str(t), k)),
            None => None,
        }
    } else if lit_true_at(s, j) {
        Some((Json::Bool(true), j + 4))
    } else if lit_false_at(s, j) {
        Some((Json::Bool(false), j + 5))
    } else if lit_null_at(s, j) {
        Some((Json::Null, j + 4))
    } else {
        match parse_num(s, j) {
            Some((l, k)) => Some((Json::Num(l), k)),
            None => None,
        }
    }
}

/// Parses object members as `sp_members` says.
fn parse_members(s: &[u8], i: usize) -> (r: Option<(Vec<(Vec<u8>, Json)>, usize)>)
    requires
        i <= s@.len(),
    ensures
        match r {
            Some(t) => sp_members(s@, i as int) == Some((fields_v(t.0@), t.1 as int)) && i < t.1
                <= s@.len(),
            None => sp_members(s@, i as int) is None,
        },
    decreases s@.len() - i, 0int,
{
    let j = skip_ws(s, i);
    if j >= s.len() {
        return None;
    }
    if s[j] == 0x7d {
        let fs: Vec<(Vec<u8>, Json)> = Vec::new();
        assert(fields_v(fs@) =~= Seq::<(Seq<u8>, JsonV)>::empty());
        return Some((fs, j + 1));
    }
    match parse_string(s, j) {
        Some((key, k)) => {
            let m = skip_ws(s, k);
            if !(m < s.len() && s[m] == 0x3a) {
                return None;
            }
            match parse_value(s, m + 1) {
                Some((val, n)) => {
                    let p = skip_ws(s, n);
                    if p >= s.len() {
                        return None;
                    }
                    if s[p] == 0x2c {
                        match parse_members_more(s, p + 1) {
                            Some((mut rest, q)) => {
                                let ghost old_rest = rest@;
                                rest.insert(0, (key, val));
                                proof {
                                    assert(rest@.drop_first() =~= old_rest);
                                    assert(fields_v(rest@) =~= seq![
                                        (rest@[0].0@, rest@[0].1.v()),
                                    ] + fields_v(old_rest));
                                }
                                Some((rest, q))
                            },
                            None => None,
                        }
                    } else if s[p] == 0x7d {
                        let mut fs: Vec<(Vec<u8>, Json)> = Vec::new();
                        fs.push((key, val));
                        proof {
                            let e: Seq<(Vec<u8>, Json)> = Seq::empty();
                            assert(fs@.drop_first() =~= e);
                            assert(fields_v(e) =~= Seq::<(Seq<u8>, JsonV)>::empty());
                            assert(fields_v(fs@) =~= seq![(fs@[0].0@, fs@[0].1.v())]);
                        }
                        Some((fs, p + 1))
                    } else {
                        None
                    }
                },
                None => None,
            }
        },
        None => None,
    }
}

/// Parses the members after a comma as `sp_members_more` says.
fn parse_members_more(s: &[u8], i: usize) -> (r: Option<(Vec<(Vec<u8>, Json)>, usize)>)
    requires
        i <= s@.len(),
    ensures
        match r {
            Some(t) => sp_members_more(s@, i as int) == Some((fields_v(t.0@), t.1 as int)) && i
                < t.1 <= s@.len(),
            None => sp_members_more(s@, i as int) is None,
        },
    decreases s@.len() - i, 0int,
{
    let j = skip_ws(s, i);
    if j >= s.len() {
        return None;
    }
    match parse_string(s, j) {
        Some((key, k)) => {
            let m = skip_ws(s, k);
            if !(m < s.len() && s[m] == 0x3a) {
                return None;
            }
            match parse_value(s, m + 1) {
                Some((val, n)) => {
                    let p = skip_ws(s, n);
                    if p >= s.len() {
                        return None;
                    }
                    if s[p] == 0x2c {
                        match parse_members_more(s, p + 1) {
                            Some((mut rest, q)) => {
                                let ghost old_rest = rest@;
                                rest.insert(0, (key, val));
                                proof {
                                    assert(rest@.drop_first() =~= old_rest);
                                    assert(fields_v(rest@) =~= seq![
                                        (rest@[0].0@, rest@[0].1.v()),
                                    ] + fields_v(old_rest));
                                }
                                Some((rest, q))
                            },
                            None => None,
                        }
                    } else if s[p] == 0x7d {
                        let mut fs: Vec<(Vec<u8>, Json)> = Vec::new();
                        fs.push((key, val));
                        proof {
                            let e: Seq<(Vec<u8>, Json)> = Seq::empty();
                            assert(fs@.drop_first() =~= e);
                            assert(fields_v(e) =~= Seq::<(Seq<u8>, JsonV)>::empty());
                            assert(fields_v(fs@) =~= seq![(fs@[0].0@, fs@[0].1.v())]);
                        }
                        Some((fs, p + 1))
                    } else {
                        None
                    }
                },
                None => None,
            }
        },
        None => None,
    }
}

/// Parses array elements as `sp_elements` says.
fn parse_elements(s: &[u8], i: usize) -> (r: Option<(Vec<Json>, usize)>)
    requires
        i <= s@.len(),
    ensures
        match r {
            Some(t) => sp_elements(s@, i as int) == Some((elems_v(t.0@), t.1 as int)) && i < t.1
                <= s@.len(),
            None => sp_elements(s@, i as int) is None,
        },
    decreases s@.len() - i, 2int,
{
    let j = skip_ws(s, i);
    if j >= s.len() {
        return None;
    }
    if s[j] == 0x5d {
        let es: Vec<Json> = Vec::new();
        assert(elems_v(es@) =~= Seq::<JsonV>::empty());
        return Some((es, j + 1));
    }
    parse_elements_more(s, i)
}

/// Parses one or more array elements as `sp_elements_more` says.
fn parse_elements_more(s: &[u8], i: usize) -> (r: Option<(Vec<Json>, usize)>)
    requires
        i <= s@.len(),
    ensures
        match r {
            Some(t) => sp_elements_more(s@, i as int) == Some((elems_v(t.0@), t.1 as int)) && i
                < t.1 <= s@.len(),
            None => sp_elements_more(s@, i as int) is None,
        },
    decreases s@.len() - i, 1int,
{
    match parse_value(s, i) {
        Some((val, n)) => {
            let p = skip_ws(s, n);
            if p >= s.len() {
                return None;
            }
            if s[p] == 0x2c {
                match parse_elements_more(s, p + 1) {
                    Some((mut rest, q)) => {
                        let ghost old_rest = rest@;
                        rest.insert(0, val);
                        proof {
                            assert(rest@.drop_first() =~= old_rest);
                            assert(elems_v(rest@) =~= seq![rest@[0].v()] + elems_v(old_rest));
                        }
                        Some((rest, q))
                    },
                    None => None,
                }
            } else if s[p] == 0x5d {
                let mut es: Vec<Json> = Vec::new();
                es.push(val);
                proof {
                    let e: Seq<Json> = Seq::empty();
                    assert(es@.drop_first() =~= e);
                    assert(elems_v(e) =~= Seq::<JsonV>::empty());
                    assert(elems_v(es@) =~= seq![es@[0].v()]);
                }
                Some((es, p + 1))
            } else {
                None
            }
        },
        None => None,
    }
}

/// Parses a whole JSON text, as `sp_json` says.
pub fn parse_json(s: &[u8]) -> (r: Option<Json>)
    ensures
        match r {
            Some(j) => sp_json(s@) == Some(j.v()),
            None => sp_json(s@) is None,
        },
{
    match parse_value(s, 0) {
        Some((v, j)) => {
            let e = skip_ws(s, j);
            if e == s.len() {
                Some(v)
            } else {
                None
            }
        },
        None => None,
    }
}

/// The value under `key` in an object's fields: the first field so named.
pub open spec fn obj_get(fs: Seq<(Seq<u8>, JsonV)>, key: Seq<u8>) -> Option<JsonV>
    decreases fs.len(),
{
    if fs.len() == 0 {
        None
    } else if fs[0].0 == key {
        Some(fs[0].1)
    } else {
        obj_get(fs.drop_first(), key)
    }
}

/// Looks a field up in an object, as `obj_get` says; `None` on any other
/// kind of value.
pub fn get_field<'a>(j: &'a Json, key: &str) -> (r: Option<&'a Json>)
    ensures
        match j.v() {
            JsonV::Obj(fs) => match r {
                Some(x) => obj_get(fs, key.spec_bytes()) == Some(x.v()),
                None => obj_get(fs, key.spec_bytes()) is None,
            },
            _ => r is None,
        },
{
    match j {
        Json::Obj(fields) => {
            assert(fields_v(fields@).skip(0) =~= fields_v(fields@));
            get_field_from(fields, key, 0)
        },
        _ => None,
    }
}

/// The boolean a value holds, if it is one.
pub fn as_bool(j: &Json) -> (r: Option<bool>)
    ensures
        match j.v() {
            JsonV::Bool(b) => r == Some(b),
            _ => r is None,
        },
{
    match j {
        Json::Bool(b) => Some(*b),
        _ => None,
    }
}

/// The decoded bytes of a string value, if it is one.
pub fn as_str_bytes<'a>(j: &'a Json) -> (r: Option<&'a Vec<u8>>)
    ensures
        match j.v() {
            JsonV::Str(b) => r is Some && r.unwrap()@ == b,
            _ => r is None,
        },
{
    match j {
        Json::Str(b) => Some(b),
        _ => None,
    }
}

/// The value of a numeral, where it is a plain digit run naming a `u64`:
/// a minus sign or a value past `u64::MAX` gives `None`.
pub fn as_u64(j: &Json) -> (r: Option<u64>)
    ensures
        match j.v() {
            JsonV::Num(lex) => {
                &&& r is Some <==> lex.len() > 0 && crate::dec::all_digits(lex)
                    && crate::dec::dec_val(lex) <= u64::MAX
                &&& r is Some ==> r.unwrap() == crate::dec::dec_val(lex)
            },
            _ => r is None,
        },
{
    match j {
        Json::Num(lex) => crate::dec::parse_dec_u64(lex.as_slice()),
        _ => None,
    }
}

/// Looks a field up from index `k` on.
fn get_field_from<'a>(fields: &'a Vec<(Vec<u8>, Json)>, key: &str, k: usize) -> (r: Option<
    &'a Json,
>)
    requires
        k <= fields@.len(),
    ensures
        match r {
            Some(x) => obj_get(fields_v(fields@).skip(k as int), key.spec_bytes()) == Some(x.v()),
            None => obj_get(fields_v(fields@).skip(k as int), key.spec_bytes()) is None,
        },
    decreases fields@.len() - k,
{
    proof {
        lemma_fields_v(fields@);
    }
    if k >= fields.len() {
        assert(fields_v(fields@).skip(k as int) =~= Seq::<(Seq<u8>, JsonV)>::empty());
        return None;
    }
    let ghost fsv = fields_v(fields@);
    assert(fsv.skip(k as int).len() > 0);
    assert(fsv.skip(k as int)[0] == fsv[k as int]);
    assert(fsv.skip(k as int).drop_first() =~= fsv.skip(k + 1));
    if bytes_eq(fields[k].0.as_slice(), key.as_bytes()) {
        Some(&fields[k].1)
    } else {
        get_field_from(fields, key, k + 1)
    }
}

} // verus!
