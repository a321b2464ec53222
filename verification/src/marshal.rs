//! Encodings of host values for the native boundary, and back.
//!
//! Names cross the boundary as zero-terminated byte sequences, integers as
//! 32-bit signed integers, and an index only after it was held against the
//! count that the engine reported.

use vstd::prelude::*;
use vstd::string::StringSliceAdditionalSpecFns;
use vstd::utf8::{encode_scalar, encode_utf8, is_scalar};
use crate::violation::Violation;

verus! {

/// The largest value of the engine's integer type.
pub const NATIVE_INT_MAX: usize = 0x7fff_ffff;

/// The zero-terminated encoding of `bytes`.
pub open spec fn terminated(bytes: Seq<u8>) -> Seq<u8> {
    bytes.push(0u8)
}

/// Whether `bytes` can be zero-terminated without ambiguity: no zero byte
/// inside.
pub open spec fn nul_free(bytes: Seq<u8>) -> bool {
    forall|i: int| 0 <= i < bytes.len() ==> bytes[i] != 0u8
}

/// The encoding of each of `texts`, in order.
pub open spec fn terminated_all(texts: Seq<Seq<u8>>) -> Seq<Seq<u8>> {
    Seq::new(texts.len(), |i: int| terminated(texts[i]))
}

/// Whether each of `texts` is free of zero bytes.
pub open spec fn nul_free_all(texts: Seq<Seq<u8>>) -> bool {
    forall|i: int| 0 <= i < texts.len() ==> nul_free(#[trigger] texts[i])
}

/// The UTF-8 bytes of each of `texts`, in order.
pub open spec fn bytes_of_all(texts: Seq<&str>) -> Seq<Seq<u8>> {
    Seq::new(texts.len(), |i: int| texts[i].spec_bytes())
}

/// What the bounds check gives for `index` against the reported `count`: the
/// index as the engine takes it, or the violation.
pub open spec fn index_checked(index: usize, count: i32) -> Result<i32, Violation> {
    if count < 0 {
        Err(Violation::NegativeCount)
    } else if index >= count {
        Err(Violation::IndexOutOfBounds)
    } else {
        Ok(index as i32)
    }
}

/// The name that the host reports for the name that the engine gave: none
/// for the empty one.
pub open spec fn reported_name(name: Seq<char>) -> Option<Seq<char>> {
    if name.len() == 0 {
        None
    } else {
        Some(name)
    }
}

/// Whether none of `chars` is the character with the code 0.
pub open spec fn without_code_zero(chars: Seq<char>) -> bool {
    forall|i: int| 0 <= i < chars.len() ==> chars[i] as u32 != 0
}

/// The UTF-8 encoding of a scalar value holds a zero byte only if the value
/// is 0, and then it is that byte alone.
proof fn lemma_scalar_bytes(scalar: u32)
    requires
        is_scalar(scalar),
    ensures
        scalar != 0 ==> nul_free(encode_scalar(scalar)),
        scalar == 0 ==> encode_scalar(scalar) == seq![0u8],
{
    assert(scalar <= 0x7f ==> (scalar & 0x7f) as u8 == scalar) by (bit_vector);
    assert((0xc0u8 | ((scalar >> 6) & 0x1f) as u8) != 0) by (bit_vector);
    assert((0xe0u8 | ((scalar >> 12) & 0x0f) as u8) != 0) by (bit_vector);
    assert((0xf0u8 | ((scalar >> 18) & 0x7) as u8) != 0) by (bit_vector);
    assert((0x80u8 | (scalar & 0x3f) as u8) != 0) by (bit_vector);
    assert((0x80u8 | ((scalar >> 6) & 0x3f) as u8) != 0) by (bit_vector);
    assert((0x80u8 | ((scalar >> 12) & 0x3f) as u8) != 0) by (bit_vector);
}

/// A text has a zero-terminated encoding exactly if none of its characters
/// is the one with the code 0: no other character has a zero byte in its
/// UTF-8 encoding.
pub proof fn law_nul_free_text(chars: Seq<char>)
    ensures
        nul_free(encode_utf8(chars)) <==> without_code_zero(chars),
    decreases chars.len(),
{
    if chars.len() > 0 {
        let head = encode_scalar(chars[0] as u32);
        let tail = encode_utf8(chars.drop_first());
        vstd::utf8::char_is_scalar(chars[0]);
        lemma_scalar_bytes(chars[0] as u32);
        law_nul_free_text(chars.drop_first());
        if nul_free(head + tail) {
            // The first byte belongs to the first character, every byte of
            // the tail to a later one.
            assert((head + tail)[0] == head[0]);
            assert forall|i: int| 0 <= i < tail.len() implies tail[i] != 0u8 by {
                assert((head + tail)[head.len() + i] == tail[i]);
            }
            assert forall|i: int| 0 < i < chars.len() implies chars[i] as u32 != 0 by {
                assert(chars.drop_first()[i - 1] == chars[i]);
            }
        }
    }
}

/// Encodes `text` as a zero-terminated byte sequence: its UTF-8 bytes and one
/// zero byte. There is no encoding for a text with a zero byte inside.
pub fn c_string(text: &str) -> (encoded: Option<Vec<u8>>)
    ensures
        nul_free(text.spec_bytes()) <==> encoded is Some,
        encoded matches Some(bytes) ==> bytes@ == terminated(text.spec_bytes()),
{
    let source = text.as_bytes();
    let mut bytes: Vec<u8> = Vec::new();
    let mut at: usize = 0;
    while at < source.len()
        invariant
            at <= source.len(),
            source@ == text.spec_bytes(),
            bytes@ == source@.subrange(0, at as int),
            nul_free(bytes@),
        decreases source.len() - at,
    {
        let byte: u8 = source[at];
        if byte == 0 {
            return None;
        }
        bytes.push(byte);
        at += 1;
        assert(bytes@ == source@.subrange(0, at as int));
    }
    assert(bytes@ == source@);
    bytes.push(0u8);
    Some(bytes)
}

/// Encodes each of `texts` as `c_string` does, in order. There is no encoding
/// if one of them has none.
pub fn c_string_array(texts: &[&str]) -> (encoded: Option<Vec<Vec<u8>>>)
    ensures
        nul_free_all(bytes_of_all(texts@)) <==> encoded is Some,
        encoded matches Some(all) ==> all.deep_view() == terminated_all(bytes_of_all(texts@)),
{
    let mut all: Vec<Vec<u8>> = Vec::new();
    let mut at: usize = 0;
    while at < texts.len()
        invariant
            at <= texts.len(),
            all.len() == at,
            forall|i: int| 0 <= i < at ==> nul_free(#[trigger] bytes_of_all(texts@)[i]),
            forall|i: int| 0 <= i < at ==> (#[trigger] all[i])@ == terminated(texts@[i].spec_bytes()),
        decreases texts.len() - at,
    {
        match c_string(texts[at]) {
            Some(bytes) => {
                all.push(bytes);
            },
            None => {
                assert(!nul_free(bytes_of_all(texts@)[at as int]));
                return None;
            },
        }
        at += 1;
    }
    assert forall|i: int| 0 <= i < all.len() implies #[trigger] all.deep_view()[i]
        == terminated_all(bytes_of_all(texts@))[i] by {
        assert(all[i].deep_view() =~= all[i]@);
    }
    assert(all.deep_view() =~= terminated_all(bytes_of_all(texts@)));
    Some(all)
}

/// Converts a host integer to the engine's integer type, if it fits.
pub fn native_int(value: usize) -> (converted: Option<i32>)
    ensures
        converted == if value <= NATIVE_INT_MAX { Some(value as i32) } else { None },
{
    if value <= NATIVE_INT_MAX {
        Some(value as i32)
    } else {
        None
    }
}

/// Converts a count that the engine reported to a host count. A negative
/// count has none.
pub fn host_count(raw: i32) -> (count: Option<usize>)
    ensures
        count == if raw >= 0 { Some(raw as usize) } else { None },
{
    if raw >= 0 {
        Some(raw as usize)
    } else {
        None
    }
}

/// Holds `index` against the count that the engine just reported and, if it is
/// below, gives it as the engine takes it.
pub fn checked_index(index: usize, count: i32) -> (checked: Result<i32, Violation>)
    ensures
        checked == index_checked(index, count),
        checked matches Ok(native) ==> 0 <= native < count && native == index,
{
    if count < 0 {
        Err(Violation::NegativeCount)
    } else if index >= count as usize {
        Err(Violation::IndexOutOfBounds)
    } else {
        Ok(index as i32)
    }
}

/// The name as the host reports it: an engine that has no name for a style
/// reports the empty text, which the host reports as no name.
pub fn optional_name(name: String) -> (reported: Option<String>)
    ensures
        match reported {
            Some(text) => reported_name(name@) == Some(text@),
            None => reported_name(name@) is None,
        },
{
    if name.as_str().is_empty() {
        None
    } else {
        Some(name)
    }
}

} // verus!
