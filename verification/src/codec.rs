//! Bounded text in fixed-size byte buffers: zero-padded when short, cut when
//! long, and read back up to the first zero byte.

use vstd::prelude::*;
use vstd::slice::slice_subrange;
use vstd::utf8::{decode_utf8, encode_utf8, valid_utf8};

verus! {

/// The `width` bytes that hold `text`: its first `width` bytes, then zeros.
pub open spec fn fixed_width(text: Seq<u8>, width: nat) -> Seq<u8> {
    Seq::new(
        width,
        |i: int|
            if i < text.len() {
                text[i]
            } else {
                0u8
            },
    )
}

/// Where the text held in `buffer` ends: at the first zero byte, or at the end
/// of the buffer if it holds none.
pub open spec fn text_end(buffer: Seq<u8>) -> int {
    match buffer.index_of_first(0u8) {
        Some(i) => i,
        None => buffer.len() as int,
    }
}

/// The bytes of the text held in `buffer`.
pub open spec fn stored_bytes(buffer: Seq<u8>) -> Seq<u8> {
    buffer.subrange(0, text_end(buffer))
}

/// The text that `String::from_utf8_lossy` makes of bytes that are not valid
/// UTF-8, in which it replaces each invalid sequence.
pub uninterp spec fn utf8_lossy(bytes: Seq<u8>) -> Seq<char>;

/// The text that `bytes` decode to: the text they encode where they are valid
/// UTF-8, and the text with replacements otherwise.
pub open spec fn lossy_text(bytes: Seq<u8>) -> Seq<char> {
    if valid_utf8(bytes) {
        decode_utf8(bytes)
    } else {
        utf8_lossy(bytes)
    }
}

/// The text read back from `buffer`.
pub open spec fn stored_text(buffer: Seq<u8>) -> Seq<char> {
    lossy_text(stored_bytes(buffer))
}

/// `end` is the end of the text in `buffer` exactly when no byte before it is
/// zero and it is the buffer's end or the place of a zero byte.
pub proof fn lemma_text_end(buffer: Seq<u8>, end: int)
    requires
        0 <= end <= buffer.len(),
        forall|i: int| 0 <= i < end ==> buffer[i] != 0,
        end < buffer.len() ==> buffer[end] == 0,
    ensures
        text_end(buffer) == end,
{
    buffer.index_of_first_ensures(0u8);
    if end < buffer.len() {
        assert(buffer.contains(0u8));
    }
}

/// What is left of `text` after it went through a buffer of `width` bytes: it
/// is cut at `width` bytes, or before its first zero byte if that comes sooner.
pub proof fn lemma_stored_prefix(text: Seq<u8>, width: nat)
    ensures
        stored_bytes(fixed_width(text, width)) == text.subrange(
            0,
            if text_end(text) <= width {
                text_end(text)
            } else {
                width as int
            },
        ),
{
    let buffer = fixed_width(text, width);
    text.index_of_first_ensures(0u8);
    let end = if text_end(text) <= width {
        text_end(text)
    } else {
        width as int
    };
    lemma_text_end(buffer, end);
    assert(buffer.subrange(0, end) =~= text.subrange(0, end));
}

/// Writing a text into a buffer and reading it back gives the same text,
/// whenever the text fits in the buffer and holds no zero byte.
pub proof fn lemma_round_trip(text: Seq<char>, width: nat)
    requires
        encode_utf8(text).len() <= width,
        !encode_utf8(text).contains(0u8),
    ensures
        stored_bytes(fixed_width(encode_utf8(text), width)) == encode_utf8(text),
        stored_text(fixed_width(encode_utf8(text), width)) == text,
{
    let bytes = encode_utf8(text);
    bytes.index_of_first_ensures(0u8);
    lemma_stored_prefix(bytes, width);
    assert(bytes.subrange(0, bytes.len() as int) =~= bytes);
    vstd::utf8::encode_utf8_valid_utf8(text);
    vstd::utf8::encode_utf8_decode_utf8(text);
}

/// Calls `String::from_utf8_lossy` and takes the result as an owned `String`.
/// The result is a function of the bytes alone: on valid UTF-8 it is the text
/// that the bytes encode, with nothing replaced; on other bytes it is the text
/// that the standard library makes of them, which is named and not spelled out.
#[verifier::external_body]
fn from_utf8_lossy(bytes: &[u8]) -> (text: String)
    ensures
        valid_utf8(bytes@) ==> text@ == decode_utf8(bytes@),
        !valid_utf8(bytes@) ==> text@ == utf8_lossy(bytes@),
{
    String::from_utf8_lossy(bytes).into_owned()
}

/// The place of the first zero byte in `bytes`, or `N` if there is none.
pub fn find_text_end<const N: usize>(bytes: &[u8; N]) -> (end: usize)
    ensures
        end == text_end(bytes@),
        end <= N,
{
    let mut end: usize = 0;
    while end < N && bytes[end] != 0
        invariant
            end <= N,
            forall|i: int| 0 <= i < end ==> bytes@[i] != 0,
        decreases N - end,
    {
        end += 1;
    }
    proof {
        lemma_text_end(bytes@, end as int);
    }
    end
}

/// Text in fixed-size buffers, for every type that stores or reads records.
pub trait NftUtils {
    /// Writes `s` into `N` bytes: the first `N` bytes of its UTF-8 form, and
    /// zeros after them. A longer text is cut without notice.
    fn string_to_bytes<const N: usize>(&self, s: &str) -> (bytes: [u8; N])
        ensures
            bytes@ == fixed_width(encode_utf8(s@), N as nat),
    {
        let mut bytes: [u8; N] = [0u8; N];
        let s_bytes = s.as_bytes();
        let mut i: usize = 0;
        while i < N
            invariant
                i <= N,
                s_bytes@ == encode_utf8(s@),
                forall|j: int| 0 <= j < i ==> bytes@[j] == fixed_width(s_bytes@, N as nat)[j],
            decreases N - i,
        {
            bytes[i] = if i < s_bytes.len() {
                s_bytes[i]
            } else {
                0u8
            };
            i += 1;
        }
        assert(bytes@ =~= fixed_width(encode_utf8(s@), N as nat));
        bytes
    }

    /// Reads the text back: the bytes before the first zero byte (all of them
    /// if there is none), decoded as UTF-8 with each invalid sequence replaced.
    fn bytes_to_string<const N: usize>(&self, bytes: &[u8; N]) -> (text: String)
        ensures
            text@ == stored_text(bytes@),
    {
        let end = find_text_end(bytes);
        from_utf8_lossy(slice_subrange(bytes.as_slice(), 0, end))
    }
}

} // verus!
