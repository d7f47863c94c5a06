//! Text on the native boundary: null-terminated byte buffers.

use vstd::prelude::*;
use vstd::slice::slice_subrange;
use vstd::utf8::*;
use crate::error::RpcError;

verus! {

/// Whether `bytes` holds a zero byte anywhere.
pub open spec fn has_nul(bytes: Seq<u8>) -> bool {
    exists|i: int| 0 <= i < bytes.len() && bytes[i] == 0u8
}

/// Whether `text` holds the character U+0000 anywhere.
pub open spec fn has_nul_char(text: Seq<char>) -> bool {
    exists|i: int| 0 <= i < text.len() && text[i] == '\0'
}

/// The null-terminated buffer that carries `text`: its UTF-8 bytes, then one
/// zero byte.
pub open spec fn wire_text(text: Seq<char>) -> Seq<u8> {
    encode_utf8(text).push(0u8)
}

/// How many bytes of `buffer` stand before its first zero byte; all of them
/// where it holds none.
pub open spec fn content_len(buffer: Seq<u8>) -> nat
    decreases buffer.len(),
{
    if buffer.len() == 0 || buffer[0] == 0u8 {
        0
    } else {
        1 + content_len(buffer.drop_first())
    }
}

/// The text bytes of a native buffer: what stands before the terminator.
pub open spec fn content(buffer: Seq<u8>) -> Seq<u8> {
    buffer.take(content_len(buffer) as int)
}

/// What a lossy UTF-8 decoder makes of `bytes`: each invalid sequence is
/// replaced by U+FFFD, everything else is decoded as it stands.
pub uninterp spec fn lossy_text(bytes: Seq<u8>) -> Seq<char>;

/// `text` is the lossy decoding of the content of `buffer`; where the content
/// is valid UTF-8, that is its exact decoding.
pub open spec fn decodes_to(buffer: Seq<u8>, text: Seq<char>) -> bool {
    &&& text == lossy_text(content(buffer))
    &&& valid_utf8(content(buffer)) ==> text == decode_utf8(content(buffer))
}

/// Whether every byte is below 128.
pub open spec fn is_ascii_bytes(bytes: Seq<u8>) -> bool {
    forall|i: int| 0 <= i < bytes.len() ==> #[trigger] bytes[i] < 128u8
}

/// The characters that ASCII bytes stand for, one for one.
pub open spec fn ascii_chars(bytes: Seq<u8>) -> Seq<char> {
    Seq::new(bytes.len(), |i: int| bytes[i] as char)
}

/// The bytes of every UTF-8 encoded scalar but zero are themselves not zero.
proof fn lemma_encoded_bytes_nonzero(s: u32)
    by (bit_vector)
    ensures
        0 < s <= 0x7F ==> (s & 0x7F) as u8 != 0u8,
        s == 0 ==> (s & 0x7F) as u8 == 0u8,
        0xC0u8 | ((s >> 6) & 0x1F) as u8 != 0u8,
        0xE0u8 | ((s >> 12) & 0x0F) as u8 != 0u8,
        0xF0u8 | ((s >> 18) & 0x7) as u8 != 0u8,
        0x80u8 | (s & 0x3F) as u8 != 0u8,
        0x80u8 | ((s >> 6) & 0x3F) as u8 != 0u8,
        0x80u8 | ((s >> 12) & 0x3F) as u8 != 0u8,
{
}

/// The encoding of one character holds a zero byte exactly when the
/// character is U+0000.
proof fn lemma_char_nul(c: char)
    ensures
        has_nul(encode_scalar(c as u32)) <==> c == '\0',
{
    let s = c as u32;
    let e = encode_scalar(s);
    char_is_scalar(c);
    lemma_encoded_bytes_nonzero(s);
    if s == 0 {
        assert(e[0] == 0u8);
    } else {
        assert forall|j: int| 0 <= j < e.len() implies e[j] != 0u8 by {}
    }
}

/// A zero byte stands in a concatenation exactly when it stands in a part.
proof fn lemma_has_nul_concat(a: Seq<u8>, b: Seq<u8>)
    ensures
        has_nul(a + b) <==> has_nul(a) || has_nul(b),
{
    if has_nul(a + b) {
        let i = choose|i: int| 0 <= i < (a + b).len() && (a + b)[i] == 0u8;
        if i < a.len() {
            assert(a[i] == 0u8);
        } else {
            assert(b[i - a.len()] == 0u8);
        }
    }
    if has_nul(a) {
        let i = choose|i: int| 0 <= i < a.len() && a[i] == 0u8;
        assert((a + b)[i] == 0u8);
    }
    if has_nul(b) {
        let i = choose|i: int| 0 <= i < b.len() && b[i] == 0u8;
        assert((a + b)[i + a.len()] == 0u8);
    }
}

/// The UTF-8 bytes of a text hold a zero byte exactly when the text holds
/// the character U+0000: no other character is encoded with one.
pub proof fn lemma_nul_byte_iff_nul_char(text: Seq<char>)
    ensures
        has_nul(encode_utf8(text)) <==> has_nul_char(text),
    decreases text.len(),
{
    if text.len() > 0 {
        let rest = text.drop_first();
        lemma_nul_byte_iff_nul_char(rest);
        lemma_char_nul(text[0]);
        lemma_has_nul_concat(encode_scalar(text[0] as u32), encode_utf8(rest));
        if has_nul_char(text) {
            let i = choose|i: int| 0 <= i < text.len() && text[i] == '\0';
            if i > 0 {
                assert(rest[i - 1] == '\0');
            }
        }
        if has_nul_char(rest) {
            let i = choose|i: int| 0 <= i < rest.len() && rest[i] == '\0';
            assert(text[i + 1] == '\0');
        }
    }
}

/// `n` is the content length of `buffer` as soon as no zero byte stands
/// before `n` and `n` is the end or the place of a zero byte.
pub proof fn lemma_content_len(buffer: Seq<u8>, n: int)
    requires
        0 <= n <= buffer.len(),
        forall|i: int| 0 <= i < n ==> buffer[i] != 0u8,
        n < buffer.len() ==> buffer[n] == 0u8,
    ensures
        content_len(buffer) == n,
    decreases n,
{
    if n > 0 {
        let rest = buffer.drop_first();
        assert forall|i: int| 0 <= i < n - 1 implies rest[i] != 0u8 by {
            assert(rest[i] == buffer[i + 1]);
        }
        lemma_content_len(rest, n - 1);
    }
}

/// The content of a wire text is the encoded text again.
pub proof fn lemma_wire_content(text: Seq<char>)
    requires
        !has_nul(encode_utf8(text)),
    ensures
        content(wire_text(text)) == encode_utf8(text),
{
    let bytes = encode_utf8(text);
    let buffer = wire_text(text);
    assert forall|i: int| 0 <= i < bytes.len() implies buffer[i] != 0u8 by {
        assert(buffer[i] == bytes[i]);
    }
    lemma_content_len(buffer, bytes.len() as int);
    assert(buffer.take(bytes.len() as int) =~= bytes);
}

/// Round trip: a text without a zero byte, carried as a null-terminated
/// buffer and decoded again, is the text itself.
pub proof fn lemma_wire_round_trip(text: Seq<char>, decoded: Seq<char>)
    requires
        !has_nul(encode_utf8(text)),
        decodes_to(wire_text(text), decoded),
    ensures
        decoded == text,
{
    lemma_wire_content(text);
    encode_utf8_valid_utf8(text);
    encode_utf8_decode_utf8(text);
}

/// ASCII content decodes exactly: each byte gives the character of the same
/// number, and nothing is replaced.
pub proof fn lemma_ascii_decodes_exactly(buffer: Seq<u8>, text: Seq<char>)
    requires
        is_ascii_bytes(content(buffer)),
        decodes_to(buffer, text),
    ensures
        text == ascii_chars(content(buffer)),
{
    let bytes = content(buffer);
    let chars = ascii_chars(bytes);
    assert(is_ascii_chars(chars)) by {
        assert forall|i: int| 0 <= i < chars.len() implies '\0' <= #[trigger] chars[i]
            <= '\u{7f}' by {
            assert(bytes[i] < 128u8);
        }
    }
    is_ascii_chars_encode_utf8(chars);
    assert(encode_utf8(chars) =~= bytes) by {
        assert forall|i: int| 0 <= i < bytes.len() implies encode_utf8(chars)[i] == bytes[i] by {
            assert(bytes[i] < 128u8);
            assert(chars[i] as u8 == encode_utf8(chars)[i]);
        }
    }
    encode_utf8_valid_utf8(chars);
    encode_utf8_decode_utf8(chars);
}

/// Turns a text into the null-terminated buffer that carries it, or turns it
/// down because it holds a zero byte.
pub fn to_wire(text: &str) -> (r: Result<Vec<u8>, RpcError>)
    ensures
        has_nul(encode_utf8(text@)) ==> r == Err::<Vec<u8>, RpcError>(RpcError::InvalidText),
        !has_nul(encode_utf8(text@)) ==> r is Ok && r->Ok_0@ == wire_text(text@),
        r is Err <==> has_nul_char(text@),
{
    let bytes = text.as_bytes();
    let mut buffer: Vec<u8> = Vec::new();
    let mut i: usize = 0;
    while i < bytes.len()
        invariant
            bytes@ == encode_utf8(text@),
            0 <= i <= bytes.len(),
            buffer@ == bytes@.take(i as int),
            forall|k: int| 0 <= k < i ==> bytes@[k] != 0u8,
        decreases bytes.len() - i,
    {
        let b: u8 = bytes[i];
        if b == 0 {
            proof {
                lemma_nul_byte_iff_nul_char(text@);
            }
            return Err(RpcError::InvalidText);
        }
        buffer.push(b);
        assert(buffer@ =~= bytes@.take(i + 1));
        i += 1;
    }
    proof {
        lemma_nul_byte_iff_nul_char(text@);
    }
    assert(bytes@.take(i as int) =~= bytes@);
    buffer.push(0);
    Ok(buffer)
}

/// Where the content of `buffer` ends: the place of its first zero byte, or
/// its length.
pub fn terminator(buffer: &[u8]) -> (n: usize)
    ensures
        n == content_len(buffer@),
        n <= buffer@.len(),
{
    let mut i: usize = 0;
    while i < buffer.len() && buffer[i] != 0
        invariant
            0 <= i <= buffer.len(),
            forall|k: int| 0 <= k < i ==> buffer@[k] != 0u8,
        decreases buffer.len() - i,
    {
        i += 1;
    }
    proof {
        lemma_content_len(buffer@, i as int);
    }
    i
}

/// Decodes bytes with `String::from_utf8_lossy`, which replaces each invalid
/// sequence by U+FFFD and never fails. The contract names the result, and
/// claims what the documentation promises of valid UTF-8: it is decoded as it
/// stands.
#[verifier::external_body]
fn decode_lossy(bytes: &[u8]) -> (text: String)
    ensures
        text@ == lossy_text(bytes@),
        valid_utf8(bytes@) ==> text@ == decode_utf8(bytes@),
{
    String::from_utf8_lossy(bytes).into_owned()
}

/// Copies the text out of a native buffer: the bytes before the terminator,
/// decoded lossily into owned storage. Total on every buffer.
pub fn from_wire(buffer: &[u8]) -> (text: String)
    ensures
        decodes_to(buffer@, text@),
{
    let n = terminator(buffer);
    let bytes = slice_subrange(buffer, 0, n);
    assert(bytes@ =~= content(buffer@));
    decode_lossy(bytes)
}

} // verus!
