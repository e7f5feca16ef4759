//! The executable JSON parser, proved to return exactly the tree that
//! `spec_json` assigns to the payload.

use vstd::prelude::*;

use crate::json::{
    is_digit, lemma_digits_end_bounds, lemma_utf8_enc_valid, resolve_arr, resolve_obj, spec_digits_end, spec_digits_val, spec_escape, spec_hex4,
    spec_hex_val, spec_json, spec_members, spec_elems, spec_number, spec_skip_ws,
    spec_string_body, spec_utf8_enc, spec_value, JsonValue, JsonView, DEPTH_LIMIT,
};
use crate::text::{
    char_boundary, is_utf8, lemma_utf8_after_ascii, lemma_utf8_ascii_byte, lemma_utf8_concat,
    lemma_utf8_slice, RawText,
};

verus! {

/// A payload rejected by the parser, with the byte offset the failure was
/// noticed at (a diagnostic; the contract only fixes that rejection happens
/// exactly on the payloads `spec_json` rejects).
#[derive(Debug)]
pub struct ParseFault {
    pub at: usize,
}

/// Advances over insignificant whitespace.
fn skip_ws(data: &[u8], from: usize) -> (r: usize)
    requires
        from <= data@.len(),
    ensures
        r as int == spec_skip_ws(data@, from as int),
        from <= r <= data@.len(),
{
    let mut cur = from;
    loop
        invariant
            from <= cur <= data@.len(),
            spec_skip_ws(data@, from as int) == spec_skip_ws(data@, cur as int),
        decreases data@.len() - cur,
    {
        if cur < data.len() {
            let b = data[cur];
            if b == 0x20 || b == 0x09 || b == 0x0A || b == 0x0D {
                cur = cur + 1;
                continue ;
            }
        }
        return cur;
    }
}

/// Advances over decimal digits.
fn skip_digits(data: &[u8], from: usize) -> (r: usize)
    requires
        from <= data@.len(),
    ensures
        r as int == spec_digits_end(data@, from as int),
        from <= r <= data@.len(),
        forall|k: int| from <= k < r ==> is_digit(data@[k]),
    decreases data@.len() - from,
{
    let mut cur = from;
    loop
        invariant
            from <= cur <= data@.len(),
            spec_digits_end(data@, from as int) == spec_digits_end(data@, cur as int),
            forall|k: int| from <= k < cur ==> is_digit(data@[k]),
        decreases data@.len() - cur,
    {
        if cur < data.len() {
            let b = data[cur];
            if 0x30 <= b && b <= 0x39 {
                cur = cur + 1;
                continue ;
            }
        }
        return cur;
    }
}

/// The value of the digit run `data[i..j)`, when it fits in 64 bits.
fn digits_val_u64(data: &[u8], i: usize, j: usize) -> (r: Option<u64>)
    requires
        i <= j <= data@.len(),
        forall|k: int| i <= k < j ==> is_digit(data@[k]),
    ensures
        match r {
            Some(v) => v as int == spec_digits_val(data@, i as int, j as int),
            None => spec_digits_val(data@, i as int, j as int) > u64::MAX,
        },
{
    let mut cur = i;
    let mut acc: Option<u64> = Some(0);
    loop
        invariant
            i <= cur <= j <= data@.len(),
            forall|k: int| i <= k < j ==> is_digit(data@[k]),
            match acc {
                Some(v) => v as int == spec_digits_val(data@, i as int, cur as int),
                None => spec_digits_val(data@, i as int, cur as int) > u64::MAX,
            },
        decreases j - cur,
    {
        if cur == j {
            return acc;
        }
        let d = (data[cur] - 0x30) as u64;
        let ghost prev = spec_digits_val(data@, i as int, cur as int);
        proof {
            assert(spec_digits_val(data@, i as int, cur + 1 as int) == prev * 10 + (data@[cur as int]
                - 0x30));
        }
        acc = match acc {
            Some(v) => match v.checked_mul(10) {
                Some(m) => m.checked_add(d),
                None => {
                    proof {
                        assert(prev * 10 + (data@[cur as int] - 0x30) > u64::MAX);
                    }
                    None
                },
            },
            None => {
                proof {
                    assert(prev * 10 >= prev) by (nonlinear_arith)
                        requires prev >= 0;
                    assert(prev * 10 + (data@[cur as int] - 0x30) > u64::MAX);
                }
                None
            },
        };
        cur = cur + 1;
    }
}

/// One hex digit's value.
fn hex_val(b: u8) -> (r: Option<u8>)
    ensures
        r == spec_hex_val(b),
{
    if 0x30 <= b && b <= 0x39 {
        Some(b - 0x30)
    } else if 0x41 <= b && b <= 0x46 {
        Some(b - 0x41 + 10)
    } else if 0x61 <= b && b <= 0x66 {
        Some(b - 0x61 + 10)
    } else {
        None
    }
}

/// The four hex digits at `i`.
fn hex4(data: &[u8], i: usize) -> (r: Option<u32>)
    ensures
        r == spec_hex4(data@, i as int),
{
    if data.len() >= 4 && i <= data.len() - 4 {
        match (hex_val(data[i]), hex_val(data[i + 1]), hex_val(data[i + 2]), hex_val(
            data[i + 3],
        )) {
            (Some(h0), Some(h1), Some(h2), Some(h3)) => Some(
                (h0 as u32) * 0x1000 + (h1 as u32) * 0x100 + (h2 as u32) * 0x10 + (h3 as u32),
            ),
            _ => None,
        }
    } else {
        None
    }
}

/// The byte a single-character escape denotes.
fn escape_byte(b: u8) -> (r: Option<u8>)
    ensures
        r == spec_escape(b),
{
    match b {
        0x22 => Some(0x22),
        0x5C => Some(0x5C),
        0x2F => Some(0x2F),
        0x62 => Some(0x08),
        0x66 => Some(0x0C),
        0x6E => Some(0x0A),
        0x72 => Some(0x0D),
        0x74 => Some(0x09),
        _ => None,
    }
}

/// Appends the UTF-8 encoding of the scalar value `cp`.
fn utf8_push(out: &mut Vec<u8>, cp: u32)
    requires
        cp < 0x110000,
    ensures
        final(out)@ == old(out)@ + spec_utf8_enc(cp as int),
{
    if cp < 0x80 {
        out.push(cp as u8);
    } else if cp < 0x800 {
        out.push((0xC0 + cp / 0x40) as u8);
        out.push((0x80 + cp % 0x40) as u8);
    } else if cp < 0x10000 {
        out.push((0xE0 + cp / 0x1000) as u8);
        out.push((0x80 + (cp / 0x40) % 0x40) as u8);
        out.push((0x80 + cp % 0x40) as u8);
    } else {
        out.push((0xF0 + cp / 0x40000) as u8);
        out.push((0x80 + (cp / 0x1000) % 0x40) as u8);
        out.push((0x80 + (cp / 0x40) % 0x40) as u8);
        out.push((0x80 + cp % 0x40) as u8);
    }
    proof {
        assert(out@ =~= old(out)@ + spec_utf8_enc(cp as int));
    }
}

/// A run with neither quote, backslash nor control byte contributes its bytes
/// to the string's content verbatim.
proof fn lemma_string_raw(s: Seq<u8>, i: int, j: int)
    requires
        0 <= i <= j <= s.len(),
        forall|k: int| i <= k < j ==> s[k] != 0x22 && s[k] != 0x5C && s[k] >= 0x20,
    ensures
        spec_string_body(s, i) == match spec_string_body(s, j) {
            Some((c, e)) => Some((s.subrange(i, j) + c, e)),
            None => None::<(Seq<u8>, int)>,
        },
    decreases j - i,
{
    if i == j {
        match spec_string_body(s, j) {
            Some((c, e)) => {
                assert(s.subrange(i, j) + c =~= c);
            },
            None => {},
        }
    } else {
        lemma_string_raw(s, i + 1, j);
        match spec_string_body(s, j) {
            Some((c, e)) => {
                assert(s.subrange(i, j) + c =~= seq![s[i]] + (s.subrange(i + 1, j) + c));
            },
            None => {},
        }
    }
}

/// Resolves the escape starting at `pos` (a backslash), appending the bytes
/// it denotes to the content and yielding the position after the escape.
#[verifier::rlimit(60)]
fn unescape_step(data: &[u8], pos: usize, out: &mut Vec<u8>) -> (r: Result<usize, ParseFault>)
    requires
        pos < data@.len(),
        data@[pos as int] == 0x5C,
    ensures
        r matches Ok(np) ==> {
            &&& pos < np <= data@.len()
            &&& (spec_string_body(data@, pos as int) == match spec_string_body(
                data@,
                np as int,
            ) {
                Some((c, e)) => Some(
                    (final(out)@.skip(old(out)@.len() as int) + c, e),
                ),
                None => None::<(Seq<u8>, int)>,
            })
            &&& final(out)@.len() >= old(out)@.len()
            &&& final(out)@.subrange(0, old(out)@.len() as int) == old(out)@
            &&& is_utf8(final(out)@.skip(old(out)@.len() as int))
            &&& (np < data@.len() ==> data@[np as int - 1] < 0x80)
        },
        r is Err ==> spec_string_body(data@, pos as int) is None && final(out)@ == old(out)@,
{
    let ghost s = data@;
    let ghost out0 = out@;
    if pos + 1 >= data.len() {
        return Err(ParseFault { at: pos });
    }
    let e = data[pos + 1];
    if e == 0x75 {
        match hex4(data, pos + 2) {
            Some(cp) => {
                if 0xD800 <= cp && cp < 0xDC00 {
                    if data.len() - pos > 7 && data[pos + 6] == 0x5C && data[pos + 7] == 0x75 {
                        match hex4(data, pos + 8) {
                            Some(lo) => {
                                if 0xDC00 <= lo && lo < 0xE000 {
                                    let scalar = 0x10000 + (cp - 0xD800) * 0x400 + (lo - 0xDC00);
                                    utf8_push(out, scalar);
                                    proof {
                                        assert(out@.skip(out0.len() as int) =~= spec_utf8_enc(
                                            scalar as int,
                                        ));
                                        assert(out@.subrange(0, out0.len() as int) =~= out0);
                                        lemma_utf8_enc_valid(scalar as int);
                                    }
                                    Ok(pos + 12)
                                } else {
                                    return Err(ParseFault { at: pos });
                                }
                            },
                            None => {
                                return Err(ParseFault { at: pos });
                            },
                        }
                    } else {
                        return Err(ParseFault { at: pos });
                    }
                } else if 0xDC00 <= cp && cp < 0xE000 {
                    return Err(ParseFault { at: pos });
                } else {
                    utf8_push(out, cp);
                    proof {
                        assert(out@.skip(out0.len() as int) =~= spec_utf8_enc(cp as int));
                        assert(out@.subrange(0, out0.len() as int) =~= out0);
                        lemma_utf8_enc_valid(cp as int);
                    }
                    Ok(pos + 6)
                }
            },
            None => {
                return Err(ParseFault { at: pos });
            },
        }
    } else {
        match escape_byte(e) {
            Some(c) => {
                out.push(c);
                proof {
                    assert(out@.skip(out0.len() as int) =~= seq![c]);
                    assert(out@.subrange(0, out0.len() as int) =~= out0);
                    lemma_utf8_ascii_byte(c);
                }
                Ok(pos + 2)
            },
            None => {
                return Err(ParseFault { at: pos });
            },
        }
    }
}

/// Parses a string body, the opening quote already consumed: yields the leaf
/// (a window into the payload when no escape occurs, a fresh allocation
/// otherwise) and the position after the closing quote.
#[verifier::rlimit(100)]
fn parse_string_body(data: &[u8], start: usize) -> (r: Result<(RawText, usize), ParseFault>)
    requires
        start <= data@.len(),
        start == 0 || data@[start as int - 1] < 0x80,
    ensures
        r matches Ok((t, end)) ==> {
            &&& spec_string_body(data@, start as int) == Some((t.resolve(data@), end as int))
            &&& t.wf(data@)
            &&& start < end <= data@.len()
        },
        r is Err ==> spec_string_body(data@, start as int) is None,
        is_utf8(data@) ==> (r matches Ok((t, end)) ==> t.text_ok(data@)),
{
    let ghost s = data@;
    let mut pos = start;
    // Fast path: no escape seen yet, the content so far is data[start..pos].
    while pos < data.len() && data[pos] != 0x22 && data[pos] != 0x5C && data[pos] >= 0x20
        invariant
            start <= pos <= s.len(),
            s == data@,
            start == 0 || s[start as int - 1] < 0x80,
            forall|k: int| start <= k < pos ==> s[k] != 0x22 && s[k] != 0x5C && s[k] >= 0x20,
        decreases s.len() - pos,
    {
        pos = pos + 1;
    }
    proof {
        lemma_string_raw(s, start as int, pos as int);
    }
    if pos >= data.len() {
        return Err(ParseFault { at: pos });
    }
    let stop = data[pos];
    if stop == 0x22 {
        proof {
            assert(s.subrange(start as int, pos as int) + Seq::<u8>::empty() =~= s.subrange(
                start as int,
                pos as int,
            ));
            if is_utf8(s) && start > 0 {
                lemma_utf8_after_ascii(s, start as int - 1);
            }
        }
        return Ok((RawText::Window { start, end: pos }, pos + 1));
    }
    if stop < 0x20 {
        return Err(ParseFault { at: pos });
    }
    // Slow path: collect the unescaped content into a fresh allocation.
    let mut out: Vec<u8> = Vec::new();
    out.extend_from_slice(&data[start..pos]);
    proof {
        assert(out@ =~= s.subrange(start as int, pos as int));
        if is_utf8(s) {
            lemma_utf8_slice(s, start as int, pos as int);
        }
    }
    loop
        invariant
            start <= pos <= s.len(),
            s == data@,
            is_utf8(s) ==> is_utf8(out@),
            (pos < s.len() && s[pos as int] != 0x22 && s[pos as int] != 0x5C && s[pos as int]
                >= 0x20) ==> (pos == 0 || s[pos as int - 1] < 0x80),
            spec_string_body(s, start as int) == match spec_string_body(s, pos as int) {
                Some((c, e)) => Some((out@ + c, e)),
                None => None::<(Seq<u8>, int)>,
            },
        decreases s.len() - pos,
    {
        if pos >= data.len() {
            return Err(ParseFault { at: pos });
        }
        let b = data[pos];
        if b == 0x22 {
            proof {
                assert(out@ + Seq::<u8>::empty() =~= out@);
            }
            return Ok((RawText::Fresh(out), pos + 1));
        } else if b == 0x5C {
            let ghost out0 = out@;
            match unescape_step(data, pos, &mut out) {
                Ok(np) => {
                    proof {
                        let piece = out@.skip(out0.len() as int);
                        assert(out@ =~= out0 + piece);
                        match spec_string_body(s, np as int) {
                            Some((c2, e2)) => {
                                assert(out0 + (piece + c2) =~= out@ + c2);
                            },
                            None => {},
                        }
                        if is_utf8(s) {
                            lemma_utf8_concat(out0, piece);
                        }
                    }
                    pos = np;
                },
                Err(f) => {
                    return Err(f);
                },
            }
        } else if b < 0x20 {
            return Err(ParseFault { at: pos });
        } else {
            // A raw run: its bytes go into the content verbatim.
            let run_start = pos;
            while pos < data.len() && data[pos] != 0x22 && data[pos] != 0x5C && data[pos] >= 0x20
                invariant
                    run_start <= pos <= s.len(),
                    s == data@,
                    forall|k: int|
                        run_start <= k < pos ==> s[k] != 0x22 && s[k] != 0x5C && s[k] >= 0x20,
                decreases s.len() - pos,
            {
                pos = pos + 1;
            }
            proof {
                lemma_string_raw(s, run_start as int, pos as int);
            }
            if pos >= data.len() {
                return Err(ParseFault { at: pos });
            }
            if data[pos] < 0x20 {
                return Err(ParseFault { at: pos });
            }
            let ghost out0 = out@;
            out.extend_from_slice(&data[run_start..pos]);
            proof {
                let piece = s.subrange(run_start as int, pos as int);
                assert(out@ =~= out0 + piece);
                match spec_string_body(s, pos as int) {
                    Some((c2, e2)) => {
                        assert(out0 + (piece + c2) =~= out@ + c2);
                    },
                    None => {},
                }
                if is_utf8(s) {
                    lemma_utf8_slice(s, run_start as int, pos as int);
                    lemma_utf8_concat(out0, piece);
                }
            }
        }
    }
}

/// Parses a number token; yields its value when it is an unsigned 64-bit
/// integer and the position after the token.
fn parse_number(data: &[u8], start: usize) -> (r: Result<(Option<u64>, usize), ParseFault>)
    requires
        start < data@.len(),
    ensures
        r matches Ok((val, end)) ==> {
            &&& spec_number(data@, start as int) == Some((val, end as int))
            &&& start < end <= data@.len()
        },
        r is Err ==> spec_number(data@, start as int) is None,
        is_utf8(data@) ==> (r matches Ok((val, end)) ==> char_boundary(data@, start as int)
            && char_boundary(data@, end as int)),
{
    let ghost s = data@;
    let len = data.len();
    let neg = data[start] == 0x2D;
    let i1 = if neg {
        start + 1
    } else {
        start
    };
    if !(i1 < len && 0x30 <= data[i1] && data[i1] <= 0x39) {
        return Err(ParseFault { at: i1 });
    }
    let i2 = if data[i1] == 0x30 {
        i1 + 1
    } else {
        proof {
            lemma_digits_end_bounds(data@, i1 as int + 1);
        }
        skip_digits(data, i1)
    };
    if i2 < len && 0x30 <= data[i2] && data[i2] <= 0x39 {
        return Err(ParseFault { at: i2 });
    }
    let has_frac = i2 < len && data[i2] == 0x2E;
    let i4 = if has_frac {
        skip_digits(data, i2 + 1)
    } else {
        i2
    };
    if has_frac && i4 == i2 + 1 {
        return Err(ParseFault { at: i4 });
    }
    let has_exp = i4 < len && (data[i4] == 0x65 || data[i4] == 0x45);
    let i6 = if has_exp {
        let i5 = if i4 + 1 < len && (data[i4 + 1] == 0x2B || data[i4 + 1] == 0x2D) {
            i4 + 2
        } else {
            i4 + 1
        };
        let de = skip_digits(data, if i5 <= len {
            i5
        } else {
            len
        });
        if de == i5 || i5 > len {
            return Err(ParseFault { at: i4 });
        }
        de
    } else {
        i4
    };
    let val = if !neg && !has_frac && !has_exp {
        digits_val_u64(data, i1, i2)
    } else {
        None
    };
    proof {
        if is_utf8(s) && i6 < s.len() {
            assert(is_digit(s[i6 as int - 1]));
            lemma_utf8_after_ascii(s, i6 as int - 1);
        }
    }
    Ok((val, i6))
}

/// Parses one JSON value starting at `start` (no leading whitespace), with at
/// most `depth` levels of nesting.
pub fn parse_value(data: &[u8], start: usize, depth: u32) -> (r: Result<
    (JsonValue, usize),
    ParseFault,
>)
    requires
        start <= data@.len(),
    ensures
        r matches Ok((v, end)) ==> {
            &&& spec_value(data@, start as int, depth as nat) == Some(
                (v.resolve(data@), end as int),
            )
            &&& v.wf(data@)
            &&& start < end <= data@.len()
        },
        r is Err ==> spec_value(data@, start as int, depth as nat) is None,
        is_utf8(data@) ==> (r matches Ok((v, end)) ==> v.texts_ok(data@)),
    decreases depth, data@.len() - start,
{
    let ghost s = data@;
    if depth == 0 || start >= data.len() {
        return Err(ParseFault { at: start });
    }
    let b = data[start];
    if b == 0x7B {  // {
        let j = skip_ws(data, start + 1);
        if j < data.len() && data[j] == 0x7D {
            let members: Vec<(RawText, JsonValue)> = Vec::new();
            proof {
                assert(resolve_obj(members@, s) =~= Seq::<(Seq<u8>, JsonView)>::empty());
            }
            return Ok((JsonValue::Obj(members), j + 1));
        }
        let mut members: Vec<(RawText, JsonValue)> = Vec::new();
        let mut pos = j;
        proof {
            assert(resolve_obj(members@, s) =~= Seq::<(Seq<u8>, JsonView)>::empty());
        }
        loop
            invariant
                s == data@,
                start < j <= pos <= s.len(),
                depth >= 1,
                spec_value(s, start as int, depth as nat) == (match spec_members(
                    s,
                    pos as int,
                    depth as nat,
                    resolve_obj(members@, s),
                ) {
                    Some((m, end)) => Some((JsonView::Obj(m), end)),
                    None => None::<(JsonView, int)>,
                }),
                forall|k: int|
                    0 <= k < members@.len() ==> (#[trigger] members@[k]).0.wf(s)
                        && members@[k].1.wf(s),
                is_utf8(s) ==> forall|k: int|
                    0 <= k < members@.len() ==> (#[trigger] members@[k]).0.text_ok(s)
                        && members@[k].1.texts_ok(s),
            decreases s.len() - pos,
        {
            if !(pos < data.len() && data[pos] == 0x22) {
                return Err(ParseFault { at: pos });
            }
            let (key, j1) = match parse_string_body(data, pos + 1) {
                Ok(kj) => kj,
                Err(f) => {
                    return Err(f);
                },
            };
            let j2 = skip_ws(data, j1);
            if !(j2 < data.len() && data[j2] == 0x3A) {
                return Err(ParseFault { at: j2 });
            }
            let j3 = skip_ws(data, j2 + 1);
            let (v, j4) = match parse_value(data, j3, depth - 1) {
                Ok(vj) => vj,
                Err(f) => {
                    return Err(f);
                },
            };
            let ghost members0 = members@;
            let ghost keyg = key;
            let ghost vg = v;
            members.push((key, v));
            proof {
                assert(members@.drop_last() =~= members0);
                assert(resolve_obj(members@, s) =~= resolve_obj(members0, s).push(
                    (keyg.resolve(s), vg.resolve(s)),
                ));
            }
            let j5 = skip_ws(data, j4);
            if j5 < data.len() && data[j5] == 0x2C {
                let j6 = skip_ws(data, j5 + 1);
                pos = j6;
            } else if j5 < data.len() && data[j5] == 0x7D {
                return Ok((JsonValue::Obj(members), j5 + 1));
            } else {
                return Err(ParseFault { at: j5 });
            }
        }
    } else if b == 0x5B {  // [
        let j = skip_ws(data, start + 1);
        if j < data.len() && data[j] == 0x5D {
            let elems: Vec<JsonValue> = Vec::new();
            proof {
                assert(resolve_arr(elems@, s) =~= Seq::<JsonView>::empty());
            }
            return Ok((JsonValue::Arr(elems), j + 1));
        }
        let mut elems: Vec<JsonValue> = Vec::new();
        let mut pos = j;
        proof {
            assert(resolve_arr(elems@, s) =~= Seq::<JsonView>::empty());
        }
        loop
            invariant
                s == data@,
                start < j <= pos <= s.len(),
                depth >= 1,
                spec_value(s, start as int, depth as nat) == (match spec_elems(
                    s,
                    pos as int,
                    depth as nat,
                    resolve_arr(elems@, s),
                ) {
                    Some((m, end)) => Some((JsonView::Arr(m), end)),
                    None => None::<(JsonView, int)>,
                }),
                forall|k: int| 0 <= k < elems@.len() ==> (#[trigger] elems@[k]).wf(s),
                is_utf8(s) ==> forall|k: int|
                    0 <= k < elems@.len() ==> (#[trigger] elems@[k]).texts_ok(s),
            decreases s.len() - pos,
        {
            let (v, j1) = match parse_value(data, pos, depth - 1) {
                Ok(vj) => vj,
                Err(f) => {
                    return Err(f);
                },
            };
            let ghost elems0 = elems@;
            let ghost vg = v;
            elems.push(v);
            proof {
                assert(elems@.drop_last() =~= elems0);
                assert(resolve_arr(elems@, s) =~= resolve_arr(elems0, s).push(vg.resolve(s)));
            }
            let j2 = skip_ws(data, j1);
            if j2 < data.len() && data[j2] == 0x2C {
                let j3 = skip_ws(data, j2 + 1);
                pos = j3;
            } else if j2 < data.len() && data[j2] == 0x5D {
                return Ok((JsonValue::Arr(elems), j2 + 1));
            } else {
                return Err(ParseFault { at: j2 });
            }
        }
    } else if b == 0x22 {  // "
        match parse_string_body(data, start + 1) {
            Ok((t, end)) => Ok((JsonValue::Text(t), end)),
            Err(f) => Err(f),
        }
    } else if b == 0x74 {  // t
        if data.len() - start >= 4 && data[start + 1] == 0x72 && data[start + 2] == 0x75 && data[
            start + 3] == 0x65 {
            Ok((JsonValue::Bool(true), start + 4))
        } else {
            Err(ParseFault { at: start })
        }
    } else if b == 0x66 {  // f
        if data.len() - start >= 5 && data[start + 1] == 0x61 && data[start + 2] == 0x6C && data[
            start + 3] == 0x73 && data[start + 4] == 0x65 {
            Ok((JsonValue::Bool(false), start + 5))
        } else {
            Err(ParseFault { at: start })
        }
    } else if b == 0x6E {  // n
        if data.len() - start >= 4 && data[start + 1] == 0x75 && data[start + 2] == 0x6C && data[
            start + 3] == 0x6C {
            Ok((JsonValue::Null, start + 4))
        } else {
            Err(ParseFault { at: start })
        }
    } else if b == 0x2D || (0x30 <= b && b <= 0x39) {
        match parse_number(data, start) {
            Ok((val, end)) => Ok((JsonValue::Num { val, start, end }, end)),
            Err(f) => Err(f),
        }
    } else {
        Err(ParseFault { at: start })
    }
}

/// Parses a whole payload: one JSON value with nothing but whitespace around
/// it.  Returns the tree `spec_json` assigns to the payload, and rejects
/// exactly the payloads `spec_json` rejects.
pub fn parse_json(data: &[u8]) -> (r: Result<JsonValue, ParseFault>)
    ensures
        r matches Ok(v) ==> {
            &&& spec_json(data@) == Some(v.resolve(data@))
            &&& v.wf(data@)
        },
        r is Err ==> spec_json(data@) is None,
        is_utf8(data@) ==> (r matches Ok(v) ==> v.texts_ok(data@)),
{
    let i = skip_ws(data, 0);
    match parse_value(data, i, DEPTH_LIMIT) {
        Ok((v, j)) => {
            let k = skip_ws(data, j);
            if k == data.len() {
                Ok(v)
            } else {
                Err(ParseFault { at: k })
            }
        },
        Err(f) => Err(f),
    }
}

} // verus!
