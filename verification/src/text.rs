//! Byte-level text model: the shared, reference-counted string handle used
//! for the owned form of every string leaf, and the decoded (borrowed) form
//! that records a leaf either as a window into the record's backing buffer
//! or as a fresh allocation made while removing escapes.

use vstd::prelude::*;

verus! {

/// True of the bytes that may only continue a multi-byte UTF-8 sequence.
pub open spec fn is_utf8_cont(b: u8) -> bool {
    0x80 <= b < 0xC0
}

/// The positions at which a UTF-8 string may be split: the meaning of
/// `str::is_char_boundary` (the start, the end, or a non-continuation byte).
pub open spec fn char_boundary(s: Seq<u8>, i: int) -> bool {
    i == 0 || i == s.len() || (0 < i < s.len() && !is_utf8_cont(s[i]))
}

/// Validity of a byte sequence as UTF-8, by the shortest-form table of
/// RFC 3629 (surrogate code points excluded, nothing above U+10FFFF).
pub open spec fn is_utf8(s: Seq<u8>) -> bool
    decreases s.len(),
{
    if s.len() == 0 {
        true
    } else {
        let b0 = s[0];
        if b0 < 0x80 {
            is_utf8(s.skip(1))
        } else if 0xC2 <= b0 <= 0xDF {
            s.len() >= 2 && is_utf8_cont(s[1]) && is_utf8(s.skip(2))
        } else if b0 == 0xE0 {
            s.len() >= 3 && 0xA0 <= s[1] <= 0xBF && is_utf8_cont(s[2]) && is_utf8(s.skip(3))
        } else if 0xE1 <= b0 <= 0xEC || b0 == 0xEE || b0 == 0xEF {
            s.len() >= 3 && is_utf8_cont(s[1]) && is_utf8_cont(s[2]) && is_utf8(s.skip(3))
        } else if b0 == 0xED {
            s.len() >= 3 && 0x80 <= s[1] <= 0x9F && is_utf8_cont(s[2]) && is_utf8(s.skip(3))
        } else if b0 == 0xF0 {
            s.len() >= 4 && 0x90 <= s[1] <= 0xBF && is_utf8_cont(s[2]) && is_utf8_cont(s[3])
                && is_utf8(s.skip(4))
        } else if 0xF1 <= b0 <= 0xF3 {
            s.len() >= 4 && is_utf8_cont(s[1]) && is_utf8_cont(s[2]) && is_utf8_cont(s[3])
                && is_utf8(s.skip(4))
        } else if b0 == 0xF4 {
            s.len() >= 4 && 0x80 <= s[1] <= 0x8F && is_utf8_cont(s[2]) && is_utf8_cont(s[3])
                && is_utf8(s.skip(4))
        } else {
            false
        }
    }
}

/// The byte length of the first encoded character, when one validly starts
/// the sequence (the branch table of `is_utf8`, one step).
pub open spec fn utf8_step(s: Seq<u8>) -> Option<int> {
    if s.len() == 0 {
        None
    } else {
        let b0 = s[0];
        if b0 < 0x80 {
            Some(1)
        } else if 0xC2 <= b0 <= 0xDF {
            if s.len() >= 2 && is_utf8_cont(s[1]) {
                Some(2)
            } else {
                None
            }
        } else if b0 == 0xE0 {
            if s.len() >= 3 && 0xA0 <= s[1] <= 0xBF && is_utf8_cont(s[2]) {
                Some(3)
            } else {
                None
            }
        } else if 0xE1 <= b0 <= 0xEC || b0 == 0xEE || b0 == 0xEF {
            if s.len() >= 3 && is_utf8_cont(s[1]) && is_utf8_cont(s[2]) {
                Some(3)
            } else {
                None
            }
        } else if b0 == 0xED {
            if s.len() >= 3 && 0x80 <= s[1] <= 0x9F && is_utf8_cont(s[2]) {
                Some(3)
            } else {
                None
            }
        } else if b0 == 0xF0 {
            if s.len() >= 4 && 0x90 <= s[1] <= 0xBF && is_utf8_cont(s[2]) && is_utf8_cont(s[3]) {
                Some(4)
            } else {
                None
            }
        } else if 0xF1 <= b0 <= 0xF3 {
            if s.len() >= 4 && is_utf8_cont(s[1]) && is_utf8_cont(s[2]) && is_utf8_cont(s[3]) {
                Some(4)
            } else {
                None
            }
        } else if b0 == 0xF4 {
            if s.len() >= 4 && 0x80 <= s[1] <= 0x8F && is_utf8_cont(s[2]) && is_utf8_cont(s[3]) {
                Some(4)
            } else {
                None
            }
        } else {
            None
        }
    }
}

/// `is_utf8` walks the sequence one encoded character at a time.
pub proof fn lemma_utf8_step(s: Seq<u8>)
    ensures
        is_utf8(s) <==> (s.len() == 0 || (utf8_step(s) matches Some(k) && 1 <= k <= s.len()
            && is_utf8(s.skip(k)))),
{
}

/// A valid nonempty sequence never starts with a continuation byte.
pub proof fn lemma_utf8_first_not_cont(s: Seq<u8>)
    requires
        is_utf8(s),
        s.len() > 0,
    ensures
        !is_utf8_cont(s[0]),
{
}

/// In a valid sequence, the byte after an ASCII byte starts a new character.
pub proof fn lemma_utf8_after_ascii(s: Seq<u8>, p: int)
    requires
        is_utf8(s),
        0 <= p < s.len(),
        s[p] < 0x80,
        p + 1 < s.len(),
    ensures
        !is_utf8_cont(s[p + 1]),
    decreases s.len(),
{
    lemma_utf8_step(s);
    let k = utf8_step(s).unwrap();
    if p >= k {
        lemma_utf8_after_ascii(s.skip(k), p - k);
    } else {
        if k == 1 {
            lemma_utf8_first_not_cont(s.skip(1));
        }
        // k > 1 cannot happen: the first k bytes are a lead byte and
        // continuations, none of them ASCII.
    }
}

/// One ASCII byte on its own is a valid sequence.
pub proof fn lemma_utf8_ascii_byte(b: u8)
    requires
        b < 0x80,
    ensures
        is_utf8(seq![b]),
{
    assert(seq![b].skip(1) =~= Seq::<u8>::empty());
    assert(is_utf8(Seq::<u8>::empty()));
    assert(seq![b].len() == 1 && seq![b][0] == b);
}

/// Concatenating valid sequences yields a valid sequence.
pub proof fn lemma_utf8_concat(a: Seq<u8>, b: Seq<u8>)
    requires
        is_utf8(a),
        is_utf8(b),
    ensures
        is_utf8(a + b),
    decreases a.len(),
{
    if a.len() == 0 {
        assert(a + b =~= b);
    } else {
        lemma_utf8_step(a);
        lemma_utf8_step(a + b);
        let k = utf8_step(a).unwrap();
        assert(utf8_step(a + b) == Some(k));
        lemma_utf8_concat(a.skip(k), b);
        assert((a + b).skip(k) =~= a.skip(k) + b);
    }
}

/// A slice of a valid sequence whose cut points sit right after ASCII bytes
/// (or at the ends) is itself valid: both cuts land on character starts.
pub proof fn lemma_utf8_slice(s: Seq<u8>, i: int, j: int)
    requires
        is_utf8(s),
        0 <= i <= j <= s.len(),
        i == 0 || s[i - 1] < 0x80,
        j == s.len() || s[j] < 0x80,
    ensures
        is_utf8(s.subrange(i, j)),
    decreases s.len(),
{
    lemma_utf8_step(s);
    if i == j {
        assert(s.subrange(i, j) =~= Seq::<u8>::empty());
    } else {
        let k = utf8_step(s).unwrap();
        if i >= k {
            lemma_utf8_slice(s.skip(k), i - k, j - k);
            assert(s.subrange(i, j) =~= s.skip(k).subrange(i - k, j - k));
        } else {
            // i lies inside the first character; since the byte before i is
            // ASCII (or i is 0) and the character's bytes after the first
            // are continuations, i must be 0.
            assert(i == 0);
            // j != 0 here, and no position strictly inside the first
            // character holds an ASCII byte, so the slice spans it whole.
            assert(j >= k);
            lemma_utf8_slice(s.skip(k), 0, j - k);
            lemma_utf8_step(s.subrange(0, j));
            assert(s.subrange(0, j).skip(k) =~= s.skip(k).subrange(0, j - k));
            assert(utf8_step(s.subrange(0, j)) == Some(k));
        }
    }
}

#[verifier::external_type_specification]
#[verifier::external_body]
pub struct ExBytes(bytes::Bytes);

#[verifier::external_type_specification]
#[verifier::external_body]
#[verifier::reject_recursive_types(S)]
pub struct ExStrInner<S>(bytes_utils::string::StrInner<S>);

/// The bytes a `bytes_utils::Str` holds (always a valid UTF-8 sequence).
pub uninterp spec fn str_bytes(s: bytes_utils::Str) -> Seq<u8>;

/// Relies on `str::as_bytes`, reached through `StrInner`'s `Deref` to `str`:
/// the handle's bytes, which `bytes_utils::StrInner` guarantees are valid
/// UTF-8 (its constructors check or require it).
#[verifier::external_body]
fn str_content(s: &bytes_utils::Str) -> (r: &[u8])
    ensures
        r@ == str_bytes(*s),
        is_utf8(r@),
{
    s.as_bytes()
}

/// Relies on `str::get` and `bytes_utils::Str::slice_ref`: `get` returns the
/// subslice exactly when the range is in bounds and both ends are char
/// boundaries, and `slice_ref` re-wraps that subslice as a handle sharing the
/// same backing allocation (zero-copy, reference counted).
#[verifier::external_body]
fn str_share(buf: &bytes_utils::Str, start: usize, end: usize) -> (r: Option<bytes_utils::Str>)
    ensures
        r is Some <==> (start <= end <= str_bytes(*buf).len()
            && char_boundary(str_bytes(*buf), start as int)
            && char_boundary(str_bytes(*buf), end as int)),
        r matches Some(sub) ==> str_bytes(sub) == str_bytes(*buf).subrange(
            start as int,
            end as int,
        ),
{
    match buf.get(start..end) {
        Some(sub) => Some(buf.slice_ref(sub)),
        None => None,
    }
}

/// Relies on `bytes::Bytes::from(Vec<u8>)` and `bytes_utils::StrInner::from_inner`:
/// `from_inner` accepts the storage exactly when `str::from_utf8` accepts its
/// bytes, and the handle takes over the vector's allocation (no copy).
#[verifier::external_body]
fn str_adopt(v: Vec<u8>) -> (r: Option<bytes_utils::Str>)
    ensures
        r is Some <==> is_utf8(v@),
        r matches Some(s) ==> str_bytes(s) == v@,
{
    bytes_utils::Str::from_inner(bytes::Bytes::from(v)).ok()
}

/// The owned form of a string leaf: an independently-lived handle that may
/// still share its byte storage with the record buffer it was cut from.
pub struct Text {
    handle: bytes_utils::Str,
}

impl View for Text {
    type V = Seq<u8>;

    closed spec fn view(&self) -> Seq<u8> {
        str_bytes(self.handle)
    }
}

/// A string leaf whose bytes could not be turned into an owned handle: the
/// window was not splittable at its ends or a fresh allocation was not valid
/// UTF-8.  Cannot arise from leaves the decoder produced out of a well-formed
/// record buffer.
#[derive(Debug)]
pub struct TextFault;

impl Text {
    /// Wraps an existing handle (for callers that already hold one, such as
    /// the record buffer handed over by the framer).
    pub fn from_handle(handle: bytes_utils::Str) -> (t: Text)
        ensures
            t@ == str_bytes(handle),
    {
        Text { handle }
    }

    /// Hands the underlying shared handle back out.
    pub fn into_handle(self) -> (r: bytes_utils::Str)
        ensures
            str_bytes(r) == self@,
    {
        self.handle
    }

    /// The leaf's bytes; always valid UTF-8.
    pub fn as_bytes(&self) -> (r: &[u8])
        ensures
            r@ == self@,
            is_utf8(self@),
    {
        str_content(&self.handle)
    }

    /// An owned handle onto `self`'s given byte range, sharing the backing
    /// allocation; `None` exactly when the range is not in bounds on char
    /// boundaries.
    pub fn share(&self, start: usize, end: usize) -> (r: Option<Text>)
        ensures
            r is Some <==> (start <= end <= self@.len() && char_boundary(self@, start as int)
                && char_boundary(self@, end as int)),
            r matches Some(t) ==> t@ == self@.subrange(start as int, end as int),
    {
        match str_share(&self.handle, start, end) {
            Some(handle) => Some(Text { handle }),
            None => None,
        }
    }

    /// An owned handle taking over a fresh allocation; `None` exactly when
    /// the bytes are not valid UTF-8.
    pub fn adopt(v: Vec<u8>) -> (r: Option<Text>)
        ensures
            r is Some <==> is_utf8(v@),
            r matches Some(t) ==> t@ == v@,
    {
        match str_adopt(v) {
            Some(handle) => Some(Text { handle }),
            None => None,
        }
    }

    /// Relies on `StrInner`'s `Deref` to `str`; for unverified callers (the
    /// event loop, tests) that want the leaf as ordinary text.
    #[verifier::external_body]
    pub fn as_str(&self) -> &str {
        &self.handle
    }
}

/// The decoded (borrowed) form of a string leaf: either a window into the
/// record's backing buffer (the leaf's bytes appear there verbatim, no escape
/// processing was needed) or a fresh allocation the decoder made while
/// resolving escapes.
pub enum RawText {
    Window { start: usize, end: usize },
    Fresh(Vec<u8>),
}

impl RawText {
    /// Well-formed against the buffer the leaf was decoded from: a window
    /// lies inside it.
    pub open spec fn wf(self, buf: Seq<u8>) -> bool {
        match self {
            RawText::Window { start, end } => start <= end <= buf.len(),
            RawText::Fresh(_) => true,
        }
    }

    /// The leaf's byte content, read against its backing buffer.
    pub open spec fn resolve(self, buf: Seq<u8>) -> Seq<u8> {
        match self {
            RawText::Window { start, end } => buf.subrange(start as int, end as int),
            RawText::Fresh(v) => v@,
        }
    }

    /// The condition under which the leaf can become an owned handle: a
    /// window must sit on char boundaries of the buffer, a fresh allocation
    /// must itself be valid UTF-8.
    pub open spec fn text_ok(self, buf: Seq<u8>) -> bool {
        match self {
            RawText::Window { start, end } => char_boundary(buf, start as int) && char_boundary(
                buf,
                end as int,
            ),
            RawText::Fresh(v) => is_utf8(v@),
        }
    }
}

impl RawText {
    /// An equal-valued copy of the leaf: the same window, or a fresh
    /// allocation holding equal bytes.
    pub fn dup(&self) -> (r: RawText)
        ensures
            forall|b: Seq<u8>|
                #![auto]
                r.wf(b) == self.wf(b) && r.resolve(b) == self.resolve(b) && r.text_ok(b)
                    == self.text_ok(b),
    {
        match self {
            RawText::Window { start, end } => RawText::Window { start: *start, end: *end },
            RawText::Fresh(v) => {
                let mut c: Vec<u8> = Vec::new();
                c.extend_from_slice(v.as_slice());
                proof {
                    assert(c@ =~= v@);
                }
                RawText::Fresh(c)
            },
        }
    }
}

/// Converts one string leaf to its owned form: a window becomes a handle
/// sharing the record buffer's allocation, a fresh allocation is taken over
/// as it is.  Neither path copies the leaf's bytes.
pub fn own_text(t: RawText, buf: &Text) -> (r: Result<Text, TextFault>)
    requires
        t.wf(buf@),
    ensures
        r is Ok <==> t.text_ok(buf@),
        r matches Ok(o) ==> o@ == t.resolve(buf@),
{
    match t {
        RawText::Window { start, end } => match buf.share(start, end) {
            Some(o) => Ok(o),
            None => Err(TextFault),
        },
        RawText::Fresh(v) => match Text::adopt(v) {
            Some(o) => Ok(o),
            None => Err(TextFault),
        },
    }
}

} // verus!
