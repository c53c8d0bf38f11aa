//! HTTP header values, as the HTTP client accepts them.
use vstd::prelude::*;
use vstd::utf8::*;

verus! {

/// Whether one byte may stand in a header value: anything from the space
/// upwards but DEL, and the horizontal tab.
pub open spec fn header_byte_ok(b: u8) -> bool {
    (b >= 32 && b != 127) || b == 9
}

/// Whether every byte of `bytes` may stand in a header value.
pub open spec fn header_bytes_ok(bytes: Seq<u8>) -> bool {
    forall|i: int| 0 <= i < bytes.len() ==> header_byte_ok(#[trigger] bytes[i])
}

/// Whether `text`, in its UTF-8 encoding, is accepted as a header value.
pub open spec fn header_value_ok(text: Seq<char>) -> bool {
    header_bytes_ok(encode_utf8(text))
}

/// Calls `reqwest::header::HeaderValue::from_str` and says whether it accepted
/// `value`. Trusted: the crate accepts a string exactly when each byte of it is
/// 32 or above and not 127, or is the tab.
#[verifier::external_body]
pub(crate) fn header_value_accepted(value: &str) -> (ok: bool)
    ensures
        ok == header_value_ok(value@),
{
    reqwest::header::HeaderValue::from_str(value).is_ok()
}

/// Whether one character may stand in a header value: none of the ASCII
/// control characters but the horizontal tab.
pub open spec fn header_char_ok(c: char) -> bool {
    let n = c as u32;
    (n >= 32 && n != 127) || n == 9
}

proof fn one_byte_scalar(n: u32)
    by (bit_vector)
    requires
        n <= 0x7F,
    ensures
        (n & 0x7F) as u8 == n,
{
}

proof fn marked_bytes_are_high(n: u32)
    by (bit_vector)
    ensures
        0xC0u8 | ((n >> 6) & 0x1F) as u8 >= 0x80,
        0xE0u8 | ((n >> 12) & 0x0F) as u8 >= 0x80,
        0xF0u8 | ((n >> 18) & 0x7) as u8 >= 0x80,
        0x80u8 | (n & 0x3F) as u8 >= 0x80,
        0x80u8 | ((n >> 6) & 0x3F) as u8 >= 0x80,
        0x80u8 | ((n >> 12) & 0x3F) as u8 >= 0x80,
{
}

proof fn scalar_bytes_ok(c: char)
    ensures
        header_bytes_ok(encode_scalar(c as u32)) <==> header_char_ok(c),
{
    let n = c as u32;
    let bytes = encode_scalar(n);
    if has_width_1_encoding(n) {
        one_byte_scalar(n);
        assert(bytes[0] == n);
    } else {
        marked_bytes_are_high(n);
    }
}

/// A text is accepted as a header value exactly when each of its characters
/// is: a character beyond ASCII is encoded in bytes of 128 and above.
pub proof fn header_value_by_chars(text: Seq<char>)
    ensures
        header_value_ok(text) <==> forall|i: int|
            0 <= i < text.len() ==> header_char_ok(#[trigger] text[i]),
    decreases text.len(),
{
    if text.len() > 0 {
        let head = encode_scalar(text[0] as u32);
        let rest = text.drop_first();
        let tail = encode_utf8(rest);
        header_value_by_chars(rest);
        scalar_bytes_ok(text[0]);
        assert(encode_utf8(text) == head + tail);
        if header_bytes_ok(head) && header_bytes_ok(tail) {
            assert forall|i: int| 0 <= i < (head + tail).len() implies header_byte_ok(
                #[trigger] (head + tail)[i],
            ) by {
                if i >= head.len() {
                    assert((head + tail)[i] == tail[i - head.len()]);
                }
            }
        }
        if header_bytes_ok(head + tail) {
            assert forall|i: int| 0 <= i < head.len() implies header_byte_ok(#[trigger] head[i]) by {
                assert((head + tail)[i] == head[i]);
            }
            assert forall|i: int| 0 <= i < tail.len() implies header_byte_ok(#[trigger] tail[i]) by {
                assert((head + tail)[i + head.len()] == tail[i]);
            }
        }
        if forall|i: int| 0 <= i < text.len() ==> header_char_ok(#[trigger] text[i]) {
            assert forall|i: int| 0 <= i < rest.len() implies header_char_ok(#[trigger] rest[i]) by {
                assert(rest[i] == text[i + 1]);
            }
        }
        if header_char_ok(text[0]) && forall|i: int|
            0 <= i < rest.len() ==> header_char_ok(#[trigger] rest[i]) {
            assert forall|i: int| 0 <= i < text.len() implies header_char_ok(#[trigger] text[i]) by {
                if i > 0 {
                    assert(text[i] == rest[i - 1]);
                }
            }
        }
    }
}

} // verus!
