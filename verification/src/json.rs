//! JSON model and parser for the wire payloads.
//!
//! One record's payload is a complete JSON value.  `spec_json` defines, over
//! the raw bytes, which payloads are accepted and what tree they denote; the
//! executable parser is proved to return exactly that tree.  String leaves of
//! the executable tree stay borrowed: a leaf whose bytes carry no escape is a
//! window into the payload buffer, only a leaf with escapes is freshly
//! allocated while the escapes are resolved.

use vstd::prelude::*;

use crate::text::{char_boundary, is_utf8, lemma_utf8_step, RawText};

verus! {

/// Nesting depth cap, as the wire's reference decoder applies: deeper
/// payloads are rejected rather than recursed into.
pub const DEPTH_LIMIT: u32 = 128;

/// A parsed JSON value, in the ghost world: string and number content as
/// plain byte sequences.
pub enum JsonView {
    Null,
    Bool(bool),
    /// `val` is the number's value when it is an unsigned integer that fits
    /// in 64 bits, and nothing otherwise; `raw` is the literal token text.
    Num { val: Option<u64>, raw: Seq<u8> },
    Text(Seq<u8>),
    Arr(Seq<JsonView>),
    Obj(Seq<(Seq<u8>, JsonView)>),
}

/// A parsed JSON value as the decoder holds it: string leaves borrowed from
/// the payload buffer where possible, numbers as value plus token window.
pub enum JsonValue {
    Null,
    Bool(bool),
    Num { val: Option<u64>, start: usize, end: usize },
    Text(RawText),
    Arr(Vec<JsonValue>),
    Obj(Vec<(RawText, JsonValue)>),
}

impl JsonValue {
    /// All windows lie inside the payload buffer.
    pub open spec fn wf(self, buf: Seq<u8>) -> bool
        decreases self,
    {
        match self {
            JsonValue::Null => true,
            JsonValue::Bool(_) => true,
            JsonValue::Num { val, start, end } => start <= end <= buf.len(),
            JsonValue::Text(t) => t.wf(buf),
            JsonValue::Arr(elems) => forall|i: int|
                0 <= i < elems@.len() ==> (#[trigger] elems@[i]).wf(buf),
            JsonValue::Obj(members) => forall|i: int|
                0 <= i < members@.len() ==> (#[trigger] members@[i]).0.wf(buf)
                    && members@[i].1.wf(buf),
        }
    }

    /// Every string leaf can become an owned handle, and every number token
    /// window sits on character boundaries of the payload buffer.
    pub open spec fn texts_ok(self, buf: Seq<u8>) -> bool
        decreases self,
    {
        match self {
            JsonValue::Null => true,
            JsonValue::Bool(_) => true,
            JsonValue::Num { val, start, end } => char_boundary(buf, start as int)
                && char_boundary(buf, end as int),
            JsonValue::Text(t) => t.text_ok(buf),
            JsonValue::Arr(elems) => forall|i: int|
                0 <= i < elems@.len() ==> (#[trigger] elems@[i]).texts_ok(buf),
            JsonValue::Obj(members) => forall|i: int|
                0 <= i < members@.len() ==> (#[trigger] members@[i]).0.text_ok(buf)
                    && members@[i].1.texts_ok(buf),
        }
    }

    /// The value's content, read against the payload buffer.
    pub open spec fn resolve(self, buf: Seq<u8>) -> JsonView
        decreases self,
    {
        match self {
            JsonValue::Null => JsonView::Null,
            JsonValue::Bool(b) => JsonView::Bool(b),
            JsonValue::Num { val, start, end } => JsonView::Num {
                val,
                raw: buf.subrange(start as int, end as int),
            },
            JsonValue::Text(t) => JsonView::Text(t.resolve(buf)),
            JsonValue::Arr(elems) => JsonView::Arr(resolve_arr(elems@, buf)),
            JsonValue::Obj(members) => JsonView::Obj(resolve_obj(members@, buf)),
        }
    }
}

/// Elementwise `resolve` over an array's elements.
pub open spec fn resolve_arr(elems: Seq<JsonValue>, buf: Seq<u8>) -> Seq<JsonView>
    decreases elems,
{
    if elems.len() == 0 {
        Seq::empty()
    } else {
        resolve_arr(elems.drop_last(), buf).push(elems.last().resolve(buf))
    }
}

/// Elementwise `resolve` over an object's members.
pub open spec fn resolve_obj(members: Seq<(RawText, JsonValue)>, buf: Seq<u8>) -> Seq<
    (Seq<u8>, JsonView),
>
    decreases members,
{
    if members.len() == 0 {
        Seq::empty()
    } else {
        resolve_obj(members.drop_last(), buf).push(
            (members.last().0.resolve(buf), members.last().1.resolve(buf)),
        )
    }
}

pub broadcast proof fn lemma_resolve_arr_len(elems: Seq<JsonValue>, buf: Seq<u8>)
    ensures
        (#[trigger] resolve_arr(elems, buf)).len() == elems.len(),
    decreases elems,
{
    if elems.len() > 0 {
        lemma_resolve_arr_len(elems.drop_last(), buf);
    }
}

// ---------------------------------------------------------------------------
// Character classes
// ---------------------------------------------------------------------------

/// JSON insignificant whitespace.
pub open spec fn is_ws(b: u8) -> bool {
    b == 0x20 || b == 0x09 || b == 0x0A || b == 0x0D
}

pub open spec fn is_digit(b: u8) -> bool {
    0x30 <= b <= 0x39
}

/// The first position at or after `i` holding no whitespace.
pub open spec fn spec_skip_ws(s: Seq<u8>, i: int) -> int
    decreases s.len() - i,
{
    if 0 <= i < s.len() && is_ws(s[i]) {
        spec_skip_ws(s, i + 1)
    } else {
        i
    }
}

// ---------------------------------------------------------------------------
// Strings
// ---------------------------------------------------------------------------

/// The byte a single-character escape denotes.
pub open spec fn spec_escape(b: u8) -> Option<u8> {
    if b == 0x22 {
        Some(0x22)
    } else if b == 0x5C {
        Some(0x5C)
    } else if b == 0x2F {
        Some(0x2F)
    } else if b == 0x62 {
        Some(0x08)
    } else if b == 0x66 {
        Some(0x0C)
    } else if b == 0x6E {
        Some(0x0A)
    } else if b == 0x72 {
        Some(0x0D)
    } else if b == 0x74 {
        Some(0x09)
    } else {
        None
    }
}

/// The value of one hex digit.
pub open spec fn spec_hex_val(b: u8) -> Option<u8> {
    if 0x30 <= b <= 0x39 {
        Some((b - 0x30) as u8)
    } else if 0x41 <= b <= 0x46 {
        Some((b - 0x41 + 10) as u8)
    } else if 0x61 <= b <= 0x66 {
        Some((b - 0x61 + 10) as u8)
    } else {
        None
    }
}

/// The value of the four hex digits at `i`.
pub open spec fn spec_hex4(s: Seq<u8>, i: int) -> Option<u32> {
    if 0 <= i && i + 4 <= s.len() {
        match (spec_hex_val(s[i]), spec_hex_val(s[i + 1]), spec_hex_val(s[i + 2]), spec_hex_val(
            s[i + 3],
        )) {
            (Some(h0), Some(h1), Some(h2), Some(h3)) => Some(
                ((h0 as int) * 0x1000 + (h1 as int) * 0x100 + (h2 as int) * 0x10 + (h3 as int))
                    as u32,
            ),
            _ => None,
        }
    } else {
        None
    }
}

/// UTF-8 encoding of the scalar value `cp`.
pub open spec fn spec_utf8_enc(cp: int) -> Seq<u8> {
    if cp < 0x80 {
        seq![cp as u8]
    } else if cp < 0x800 {
        seq![(0xC0 + cp / 0x40) as u8, (0x80 + cp % 0x40) as u8]
    } else if cp < 0x10000 {
        seq![
            (0xE0 + cp / 0x1000) as u8,
            (0x80 + (cp / 0x40) % 0x40) as u8,
            (0x80 + cp % 0x40) as u8,
        ]
    } else {
        seq![
            (0xF0 + cp / 0x40000) as u8,
            (0x80 + (cp / 0x1000) % 0x40) as u8,
            (0x80 + (cp / 0x40) % 0x40) as u8,
            (0x80 + cp % 0x40) as u8,
        ]
    }
}

/// The encoding of a scalar value is itself a valid UTF-8 sequence.
pub proof fn lemma_utf8_enc_valid(cp: int)
    requires
        0 <= cp <= 0x10FFFF,
        !(0xD800 <= cp < 0xE000),
    ensures
        is_utf8(spec_utf8_enc(cp)),
{
    let e = spec_utf8_enc(cp);
    if cp < 0x80 {
        assert(e.skip(1) =~= Seq::<u8>::empty());
        lemma_utf8_step(e.skip(1));
    } else if cp < 0x800 {
        assert(cp / 0x40 >= 2 && cp / 0x40 <= 0x1F) by (nonlinear_arith)
            requires
                0x80 <= cp < 0x800,
        ;
        assert(0 <= cp % 0x40 < 0x40) by (nonlinear_arith)
            requires
                cp >= 0,
        ;
        assert(e.skip(2) =~= Seq::<u8>::empty());
        lemma_utf8_step(e.skip(2));
    } else if cp < 0x10000 {
        assert(0x20 <= cp / 0x40 <= 0x3FF && 0 <= cp % 0x40 < 0x40 && 0 <= cp / 0x1000 <= 0xF
            && 0 <= (cp / 0x40) % 0x40 < 0x40 && cp / 0x1000 * 0x40 + (cp / 0x40) % 0x40 == cp
            / 0x40) by (nonlinear_arith)
            requires
                0x800 <= cp < 0x10000,
        ;
        assert(e.skip(3) =~= Seq::<u8>::empty());
        lemma_utf8_step(e.skip(3));
    } else {
        assert(0 <= cp % 0x40 < 0x40 && 0 <= (cp / 0x40) % 0x40 < 0x40 && 0 <= (cp / 0x1000) % 0x40
            < 0x40 && 4 <= cp / 0x1000 * 0x40 + (cp / 0x40) % 0x40 && cp / 0x40000 * 0x40 + (cp
            / 0x1000) % 0x40 == cp / 0x1000 && 0 <= cp / 0x40000 <= 4) by (nonlinear_arith)
            requires
                0x10000 <= cp <= 0x10FFFF,
        ;
        assert(e.skip(4) =~= Seq::<u8>::empty());
        lemma_utf8_step(e.skip(4));
    }
}

/// Parses a string's body starting right after the opening quote: the
/// unescaped content and the position right after the closing quote.
/// Control bytes are rejected; `\u` escapes must denote scalar values, a
/// leading surrogate must be completed by a trailing one.
pub open spec fn spec_string_body(s: Seq<u8>, i: int) -> Option<(Seq<u8>, int)>
    decreases s.len() - i,
{
    if !(0 <= i < s.len()) {
        None
    } else {
        let b = s[i];
        if b == 0x22 {
            Some((Seq::empty(), i + 1))
        } else if b == 0x5C {
            if i + 1 < s.len() {
                let e = s[i + 1];
                if e == 0x75 {
                    match spec_hex4(s, i + 2) {
                        Some(cp) => if 0xD800 <= cp < 0xDC00 {
                            if i + 7 < s.len() && s[i + 6] == 0x5C && s[i + 7] == 0x75 {
                                match spec_hex4(s, i + 8) {
                                    Some(lo) => if 0xDC00 <= lo < 0xE000 {
                                        let scalar = 0x10000 + (cp - 0xD800) * 0x400 + (lo
                                            - 0xDC00);
                                        match spec_string_body(s, i + 12) {
                                            Some((rest, end)) => Some(
                                                (spec_utf8_enc(scalar as int) + rest, end),
                                            ),
                                            None => None,
                                        }
                                    } else {
                                        None
                                    },
                                    None => None,
                                }
                            } else {
                                None
                            }
                        } else if 0xDC00 <= cp < 0xE000 {
                            None
                        } else {
                            match spec_string_body(s, i + 6) {
                                Some((rest, end)) => Some((spec_utf8_enc(cp as int) + rest, end)),
                                None => None,
                            }
                        },
                        None => None,
                    }
                } else {
                    match spec_escape(e) {
                        Some(c) => match spec_string_body(s, i + 2) {
                            Some((rest, end)) => Some((seq![c] + rest, end)),
                            None => None,
                        },
                        None => None,
                    }
                }
            } else {
                None
            }
        } else if b < 0x20 {
            None
        } else {
            match spec_string_body(s, i + 1) {
                Some((rest, end)) => Some((seq![b] + rest, end)),
                None => None,
            }
        }
    }
}

// ---------------------------------------------------------------------------
// Numbers
// ---------------------------------------------------------------------------

/// The first position at or after `i` holding no decimal digit.
pub open spec fn spec_digits_end(s: Seq<u8>, i: int) -> int
    decreases s.len() - i,
{
    if 0 <= i < s.len() && is_digit(s[i]) {
        spec_digits_end(s, i + 1)
    } else {
        i
    }
}

pub proof fn lemma_digits_end_bounds(s: Seq<u8>, i: int)
    requires
        0 <= i <= s.len(),
    ensures
        i <= spec_digits_end(s, i) <= s.len(),
    decreases s.len() - i,
{
    if i < s.len() && is_digit(s[i]) {
        lemma_digits_end_bounds(s, i + 1);
    }
}

/// The value of the decimal digit run `s[i..j)`.
pub open spec fn spec_digits_val(s: Seq<u8>, i: int, j: int) -> int
    decreases j - i,
{
    if i < j {
        spec_digits_val(s, i, j - 1) * 10 + (s[j - 1] - 0x30)
    } else {
        0
    }
}

/// Parses a number token starting at `i` per the JSON grammar; yields its
/// value when it is an unsigned integer fitting in 64 bits (and nothing
/// otherwise) and the position right after the token.
pub open spec fn spec_number(s: Seq<u8>, i: int) -> Option<(Option<u64>, int)> {
    if !(0 <= i < s.len()) {
        None
    } else {
        let neg = s[i] == 0x2D;
        let i1 = if neg {
            i + 1
        } else {
            i
        };
        if !(i1 < s.len() && is_digit(s[i1])) {
            None
        } else {
            let i2 = if s[i1] == 0x30 {
                i1 + 1
            } else {
                spec_digits_end(s, i1)
            };
            if i2 < s.len() && is_digit(s[i2]) {
                None  // a leading zero may not be followed by more digits
            } else {
                let has_frac = i2 < s.len() && s[i2] == 0x2E;
                let i4 = if has_frac {
                    spec_digits_end(s, i2 + 1)
                } else {
                    i2
                };
                if has_frac && i4 == i2 + 1 {
                    None  // a decimal point needs at least one digit
                } else {
                    let has_exp = i4 < s.len() && (s[i4] == 0x65 || s[i4] == 0x45);
                    let i5 = if has_exp && i4 + 1 < s.len() && (s[i4 + 1] == 0x2B || s[i4 + 1]
                        == 0x2D) {
                        i4 + 2
                    } else {
                        i4 + 1
                    };
                    let i6 = if has_exp {
                        spec_digits_end(s, i5)
                    } else {
                        i4
                    };
                    if has_exp && i6 == i5 {
                        None  // an exponent needs at least one digit
                    } else {
                        let val = if !neg && !has_frac && !has_exp && spec_digits_val(s, i1, i2)
                            <= u64::MAX {
                            Some(spec_digits_val(s, i1, i2) as u64)
                        } else {
                            None
                        };
                        Some((val, i6))
                    }
                }
            }
        }
    }
}

// ---------------------------------------------------------------------------
// Values
// ---------------------------------------------------------------------------

/// Parses one JSON value starting at `i` (no leading whitespace), with at
/// most `depth` levels of nesting; yields the value and the position right
/// after it.
pub open spec fn spec_value(s: Seq<u8>, i: int, depth: nat) -> Option<(JsonView, int)>
    decreases depth, s.len() - i,
{
    if depth == 0 || !(0 <= i < s.len()) {
        None
    } else {
        let b = s[i];
        if b == 0x7B {  // {
            let j = spec_skip_ws(s, i + 1);
            if j < s.len() && s[j] == 0x7D {
                Some((JsonView::Obj(Seq::empty()), j + 1))
            } else if !(i < j <= s.len()) {
                None  // unreachable: skipping whitespace never moves back
            } else {
                match spec_members(s, j, depth, Seq::empty()) {
                    Some((members, end)) => Some((JsonView::Obj(members), end)),
                    None => None,
                }
            }
        } else if b == 0x5B {  // [
            let j = spec_skip_ws(s, i + 1);
            if j < s.len() && s[j] == 0x5D {
                Some((JsonView::Arr(Seq::empty()), j + 1))
            } else if !(i < j <= s.len()) {
                None  // unreachable, as above
            } else {
                match spec_elems(s, j, depth, Seq::empty()) {
                    Some((elems, end)) => Some((JsonView::Arr(elems), end)),
                    None => None,
                }
            }
        } else if b == 0x22 {  // "
            match spec_string_body(s, i + 1) {
                Some((content, end)) => Some((JsonView::Text(content), end)),
                None => None,
            }
        } else if b == 0x74 {  // t
            if i + 4 <= s.len() && s[i + 1] == 0x72 && s[i + 2] == 0x75 && s[i + 3] == 0x65 {
                Some((JsonView::Bool(true), i + 4))
            } else {
                None
            }
        } else if b == 0x66 {  // f
            if i + 5 <= s.len() && s[i + 1] == 0x61 && s[i + 2] == 0x6C && s[i + 3] == 0x73 && s[i
                + 4] == 0x65 {
                Some((JsonView::Bool(false), i + 5))
            } else {
                None
            }
        } else if b == 0x6E {  // n
            if i + 4 <= s.len() && s[i + 1] == 0x75 && s[i + 2] == 0x6C && s[i + 3] == 0x6C {
                Some((JsonView::Null, i + 4))
            } else {
                None
            }
        } else if b == 0x2D || is_digit(b) {
            match spec_number(s, i) {
                Some((val, end)) => Some((JsonView::Num { val, raw: s.subrange(i, end) }, end)),
                None => None,
            }
        } else {
            None
        }
    }
}

/// Parses an object's members from the start of a key (after `{` or a comma,
/// whitespace skipped), accumulating onto `acc`; yields all members and the
/// position right after the closing brace.
pub open spec fn spec_members(
    s: Seq<u8>,
    i: int,
    depth: nat,
    acc: Seq<(Seq<u8>, JsonView)>,
) -> Option<(Seq<(Seq<u8>, JsonView)>, int)>
    decreases depth, s.len() - i,
{
    if depth == 0 || !(0 <= i < s.len() && s[i] == 0x22) {
        None
    } else {
        match spec_string_body(s, i + 1) {
            Some((key, j1)) => {
                let j2 = spec_skip_ws(s, j1);
                if j2 < s.len() && s[j2] == 0x3A {  // :
                    let j3 = spec_skip_ws(s, j2 + 1);
                    if !(0 <= j3 <= s.len()) {
                        None  // unreachable: the positions stay inside the payload
                    } else {
                    match spec_value(s, j3, (depth - 1) as nat) {
                        Some((v, j4)) => {
                            let acc2 = acc.push((key, v));
                            let j5 = spec_skip_ws(s, j4);
                            if j5 < s.len() && s[j5] == 0x2C {  // ,
                                let j6 = spec_skip_ws(s, j5 + 1);
                                if !(i < j6 <= s.len()) {
                                    None  // unreachable: the walk only moves forward
                                } else {
                                    spec_members(s, j6, depth, acc2)
                                }
                            } else if j5 < s.len() && s[j5] == 0x7D {  // }
                                Some((acc2, j5 + 1))
                            } else {
                                None
                            }
                        },
                        None => None,
                    }
                    }
                } else {
                    None
                }
            },
            None => None,
        }
    }
}

/// Parses an array's elements from the start of a value (after `[` or a
/// comma, whitespace skipped), accumulating onto `acc`; yields all elements
/// and the position right after the closing bracket.
pub open spec fn spec_elems(s: Seq<u8>, i: int, depth: nat, acc: Seq<JsonView>) -> Option<
    (Seq<JsonView>, int),
>
    decreases depth, s.len() - i,
{
    if depth == 0 || !(0 <= i <= s.len()) {
        None
    } else {
        match spec_value(s, i, (depth - 1) as nat) {
            Some((v, j1)) => {
                let acc2 = acc.push(v);
                let j2 = spec_skip_ws(s, j1);
                if j2 < s.len() && s[j2] == 0x2C {  // ,
                    let j3 = spec_skip_ws(s, j2 + 1);
                    if !(i < j3 <= s.len()) {
                        None  // unreachable: the walk only moves forward
                    } else {
                        spec_elems(s, j3, depth, acc2)
                    }
                } else if j2 < s.len() && s[j2] == 0x5D {  // ]
                    Some((acc2, j2 + 1))
                } else {
                    None
                }
            },
            None => None,
        }
    }
}

/// The payload's JSON value: one complete value with nothing but whitespace
/// around it, nested at most `DEPTH_LIMIT` deep.
pub open spec fn spec_json(s: Seq<u8>) -> Option<JsonView> {
    let i = spec_skip_ws(s, 0);
    match spec_value(s, i, DEPTH_LIMIT as nat) {
        Some((v, j)) => if spec_skip_ws(s, j) == s.len() {
            Some(v)
        } else {
            None
        },
        None => None,
    }
}

} // verus!
