//! Boundary marshaller: turns raw header bytes into text that can cross a
//! boundary where strings end at the first NUL.
//!
//! Three steps: every NUL byte is removed, the rest is decoded as UTF-8 with
//! the replacement character standing in for whatever is not valid, and the
//! text is held in a [`HeaderString`], which never contains a NUL.

use vstd::prelude::*;
use vstd::utf8::*;

verus! {

/// `bytes` without its NUL bytes, the others in their order.
pub open spec fn strip_nul(bytes: Seq<u8>) -> Seq<u8> {
    bytes.filter(|b: u8| b != 0)
}

/// The text that `String::from_utf8_lossy` makes of `bytes`.
pub uninterp spec fn utf8_lossy(bytes: Seq<u8>) -> Seq<char>;

/// The text handed out for stored header bytes: NUL bytes removed first, the
/// rest decoded lossily.
pub open spec fn header_text(headers: Seq<u8>) -> Seq<char> {
    utf8_lossy(strip_nul(headers))
}

/// What a text becomes when it is made into a NUL-terminated string: itself,
/// or the empty text where it holds a NUL and so cannot be one.
pub open spec fn c_text(text: Seq<char>) -> Seq<char> {
    if text.contains('\0') {
        Seq::empty()
    } else {
        text
    }
}

/// Nothing that [`strip_nul`] keeps is a NUL byte.
pub proof fn lemma_strip_nul_has_no_nul(bytes: Seq<u8>)
    ensures
        !strip_nul(bytes).contains(0u8),
{
    let keep = |b: u8| b != 0;
    let kept = bytes.filter(keep);
    if kept.contains(0u8) {
        let i = choose|i: int| 0 <= i < kept.len() && kept[i] == 0u8;
        bytes.lemma_filter_pred(keep, i);
    }
}

/// A sequence without NUL bytes is left as it is by [`strip_nul`].
pub proof fn lemma_strip_nul_keeps_nul_free(bytes: Seq<u8>)
    requires
        !bytes.contains(0u8),
    ensures
        strip_nul(bytes) == bytes,
    decreases bytes.len(),
{
    reveal(Seq::filter);
    if bytes.len() > 0 {
        let front = bytes.drop_last();
        assert forall|i: int| 0 <= i < front.len() implies front[i] != 0u8 by {
            assert(bytes[i] == front[i]);
            assert(bytes.contains(bytes[i]));
        }
        lemma_strip_nul_keeps_nul_free(front);
        assert(bytes.contains(bytes.last()));
        assert(front.push(bytes.last()) =~= bytes);
    }
}

/// The UTF-8 encoding of one character holds a zero byte only for NUL.
proof fn lemma_encode_scalar_zero(c: char)
    ensures
        encode_scalar(c as u32).contains(0u8) <==> c == '\0',
{
    let s = c as u32;
    char_is_scalar(c);
    let enc = encode_scalar(s);
    if has_width_1_encoding(s) {
        assert((s & 0x7F) as u8 == 0 <==> s == 0) by (bit_vector)
            requires
                s <= 0x7F,
        ;
        if c == '\0' {
            assert(enc[0] == 0u8);
        }
    } else {
        assert(0xC0u8 | ((s >> 6) & 0x1F) as u8 != 0) by (bit_vector);
        assert(0xE0u8 | ((s >> 12) & 0x0F) as u8 != 0) by (bit_vector);
        assert(0xF0u8 | ((s >> 18) & 0x7) as u8 != 0) by (bit_vector);
        assert(0x80u8 | (s & 0x3F) as u8 != 0) by (bit_vector);
        assert(0x80u8 | ((s >> 6) & 0x3F) as u8 != 0) by (bit_vector);
        assert(0x80u8 | ((s >> 12) & 0x3F) as u8 != 0) by (bit_vector);
        assert(forall|i: int| 0 <= i < enc.len() ==> enc[i] != 0u8);
    }
}

/// A text's UTF-8 encoding holds a zero byte exactly where the text holds a
/// NUL character.
pub proof fn lemma_nul_byte_iff_nul_char(text: Seq<char>)
    ensures
        encode_utf8(text).contains(0u8) <==> text.contains('\0'),
    decreases text.len(),
{
    if text.len() > 0 {
        let head = encode_scalar(text[0] as u32);
        let rest = text.drop_first();
        let tail = encode_utf8(rest);
        lemma_encode_scalar_zero(text[0]);
        lemma_nul_byte_iff_nul_char(rest);
        assert(encode_utf8(text) == head + tail);
        if (head + tail).contains(0u8) {
            let i = choose|i: int| 0 <= i < (head + tail).len() && (head + tail)[i] == 0u8;
            if i < head.len() {
                assert(head[i] == 0u8);
                assert(head.contains(0u8));
                assert(text[0] == '\0');
            } else {
                assert(tail[i - head.len()] == 0u8);
                assert(tail.contains(0u8));
                let j = choose|j: int| 0 <= j < rest.len() && rest[j] == '\0';
                assert(text[j + 1] == '\0');
            }
        }
        if text.contains('\0') {
            let j = choose|j: int| 0 <= j < text.len() && text[j] == '\0';
            if j == 0 {
                let i = choose|i: int| 0 <= i < head.len() && head[i] == 0u8;
                assert((head + tail)[i] == 0u8);
            } else {
                assert(rest[j - 1] == '\0');
                assert(rest.contains('\0'));
                let i = choose|i: int| 0 <= i < tail.len() && tail[i] == 0u8;
                assert((head + tail)[head.len() + i] == 0u8);
            }
        }
    }
}

/// Removes every NUL byte from `bytes` and keeps the rest in order.
pub fn strip_nul_bytes(bytes: &[u8]) -> (kept: Vec<u8>)
    ensures
        kept@ == strip_nul(bytes@),
        !kept@.contains(0u8),
{
    let mut kept: Vec<u8> = Vec::new();
    let mut i: usize = 0;
    proof {
        reveal(Seq::filter);
        assert(bytes@.take(0) =~= Seq::<u8>::empty());
    }
    while i < bytes.len()
        invariant
            i <= bytes.len(),
            kept@ == strip_nul(bytes@.take(i as int)),
        decreases bytes.len() - i,
    {
        let b: u8 = bytes[i];
        proof {
            reveal(Seq::filter);
            let next = bytes@.take(i + 1);
            assert(next.drop_last() =~= bytes@.take(i as int));
            assert(next.last() == b);
        }
        if b != 0 {
            kept.push(b);
        }
        i += 1;
    }
    proof {
        assert(bytes@.take(i as int) =~= bytes@);
        lemma_strip_nul_has_no_nul(bytes@);
    }
    kept
}

/// Trusted wrapper of `String::from_utf8_lossy` (the result made an owned
/// `String`).
///
/// Claims what the standard library documents of it: the result is a
/// function of the bytes ([`utf8_lossy`]); bytes that are valid UTF-8 decode
/// to the text they encode; and whatever is not valid is replaced by U+FFFD,
/// so a NUL character in the result stands for a zero byte given.
#[verifier::external_body]
fn decode_utf8_lossy(bytes: &[u8]) -> (text: String)
    ensures
        text@ == utf8_lossy(bytes@),
        valid_utf8(bytes@) ==> text@ == decode_utf8(bytes@),
        text@.contains('\0') ==> bytes@.contains(0u8),
{
    String::from_utf8_lossy(bytes).to_string()
}

/// Whether `bytes` holds a zero byte.
fn has_nul_byte(bytes: &[u8]) -> (found: bool)
    ensures
        found == bytes@.contains(0u8),
{
    let mut i: usize = 0;
    while i < bytes.len()
        invariant
            i <= bytes.len(),
            forall|j: int| 0 <= j < i ==> bytes@[j] != 0u8,
        decreases bytes.len() - i,
    {
        if bytes[i] == 0 {
            return true;
        }
        i += 1;
    }
    false
}

/// Header text that is ready to be handed over as a NUL-terminated string:
/// it holds no NUL character, so the terminator is the only one there will
/// be. Ownership of the text goes to whoever takes it out with
/// [`HeaderString::into_string`].
pub struct HeaderString {
    text: String,
}

impl View for HeaderString {
    type V = Seq<char>;

    closed spec fn view(&self) -> Seq<char> {
        self.text@
    }
}

impl HeaderString {
    #[verifier::type_invariant]
    spec fn nul_free(self) -> bool {
        !self.text@.contains('\0')
    }

    /// Takes `text` as it is where it holds no NUL. A text with a NUL cannot
    /// be a NUL-terminated string: the empty text stands in for it, so that
    /// there is always a string to hand over.
    pub fn from_text(text: String) -> (held: HeaderString)
        ensures
            held@ == c_text(text@),
    {
        let has_nul = has_nul_byte(text.as_str().as_bytes());
        proof {
            lemma_nul_byte_iff_nul_char(text@);
        }
        if has_nul {
            HeaderString { text: String::new() }
        } else {
            HeaderString { text }
        }
    }

    /// Hands the text out. It holds no NUL character, and so its UTF-8
    /// bytes hold no zero byte: a terminator put behind them is the first.
    pub fn into_string(self) -> (text: String)
        ensures
            text@ == self@,
            !text@.contains('\0'),
            !encode_utf8(text@).contains(0u8),
    {
        proof {
            use_type_invariant(&self);
            lemma_nul_byte_iff_nul_char(self.text@);
        }
        self.text
    }

    /// The text, borrowed.
    pub fn as_str(&self) -> (text: &str)
        ensures
            text@ == self@,
            !text@.contains('\0'),
    {
        proof {
            use_type_invariant(self);
        }
        self.text.as_str()
    }
}

/// Marshals stored header bytes into a [`HeaderString`]: NUL bytes are
/// removed, the rest is decoded lossily as UTF-8. Never fails.
///
/// Since the NUL bytes are gone before decoding, the decoded text holds no
/// NUL and is taken whole: the empty stand-in of [`HeaderString::from_text`]
/// is never needed here.
pub fn headers_to_c_string(headers: &[u8]) -> (held: HeaderString)
    ensures
        held@ == header_text(headers@),
        !held@.contains('\0'),
        valid_utf8(strip_nul(headers@)) ==> held@ == decode_utf8(strip_nul(headers@)),
{
    let sanitized = strip_nul_bytes(headers);
    let decoded = decode_utf8_lossy(sanitized.as_slice());
    HeaderString::from_text(decoded)
}

} // verus!
