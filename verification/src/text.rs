//! Bounded text: strings cut to a byte limit without splitting a character.
use vstd::prelude::*;
use vstd::string::StringSliceAdditionalSpecFns;
use vstd::utf8::{encode_utf8, encode_utf8_decode_utf8, encode_utf8_valid_utf8, is_char_boundary};

verus! {

/// The last character boundary of `bytes` at or before `index`.
pub open spec fn floor_char_boundary(bytes: Seq<u8>, index: int) -> int
    decreases index,
{
    if index <= 0 || is_char_boundary(bytes, index) {
        index
    } else {
        floor_char_boundary(bytes, index - 1)
    }
}

/// The encoding `bytes` cut to at most `max` bytes: unchanged when it fits,
/// else its longest prefix of whole characters within the limit.
pub open spec fn truncated_bytes(bytes: Seq<u8>, max: nat) -> Seq<u8> {
    if bytes.len() <= max {
        bytes
    } else {
        bytes.subrange(0, floor_char_boundary(bytes, max as int))
    }
}

/// The text `chars` cut to at most `max` bytes of UTF-8 is `cut`.
pub open spec fn is_truncation(chars: Seq<char>, max: nat, cut: Seq<char>) -> bool {
    encode_utf8(cut) == truncated_bytes(encode_utf8(chars), max)
}

/// A boundary search from `index` downwards ends between zero and `index`.
pub proof fn lemma_floor_char_boundary_bounds(bytes: Seq<u8>, index: int)
    requires
        0 <= index,
    ensures
        0 <= floor_char_boundary(bytes, index) <= index,
    decreases index,
{
    if index > 0 && !is_char_boundary(bytes, index) {
        lemma_floor_char_boundary_bounds(bytes, index - 1);
    }
}

/// A cut text never holds more than `max` bytes, and is the whole text when
/// that fits.
pub proof fn lemma_truncated_bytes_len(bytes: Seq<u8>, max: nat)
    ensures
        truncated_bytes(bytes, max).len() <= max,
        bytes.len() <= max ==> truncated_bytes(bytes, max) == bytes,
{
    if bytes.len() > max {
        lemma_floor_char_boundary_bounds(bytes, max as int);
    }
}

/// A text that fits within `max` bytes is its own cut, and no other text
/// is.
pub proof fn lemma_fitting_text_is_kept(chars: Seq<char>, max: nat, cut: Seq<char>)
    requires
        is_truncation(chars, max, cut),
        encode_utf8(chars).len() <= max,
    ensures
        cut == chars,
{
    encode_utf8_decode_utf8(chars);
    encode_utf8_decode_utf8(cut);
}

/// Copies `s`, cut to at most `max` bytes on a character boundary: the
/// whole of `s` where it fits, else its longest prefix of whole characters
/// that does.
pub fn truncate_str(s: &str, max: usize) -> (cut: String)
    ensures
        is_truncation(s@, max as nat, cut@),
        encode_utf8(cut@).len() <= max,
        encode_utf8(s@).len() <= max ==> cut@ == s@,
{
    broadcast use encode_utf8_valid_utf8;

    proof {
        lemma_truncated_bytes_len(encode_utf8(s@), max as nat);
    }

    let ghost bytes = s.spec_bytes();
    if s.as_bytes().len() <= max {
        return s.to_owned();
    }
    let mut k: usize = max;
    while !s.is_char_boundary(k)
        invariant
            k <= max < bytes.len(),
            bytes == s.spec_bytes(),
            vstd::utf8::valid_utf8(bytes),
            floor_char_boundary(bytes, max as int) == floor_char_boundary(bytes, k as int),
        decreases k,
    {
        assert(k > 0);
        k -= 1;
    }
    let (head, _) = s.split_at(k);
    let cut = head.to_owned();
    assert(encode_utf8(cut@) =~= truncated_bytes(encode_utf8(s@), max as nat));
    cut
}

} // verus!
