//! The pieces of the fixed binary layout in which the ledger keeps records
//! and takes instruction arguments.
//!
//! Every value is laid out without padding: an address as its 32 bytes, a
//! flag as one byte that is 0 or 1, a text as the length of its UTF-8 form in
//! four little-endian bytes followed by that form. A reader walks the bytes
//! from a position and either yields a value with the position behind it or
//! says why the bytes hold none.

use crate::address::Address;
use vstd::bytes::*;
use vstd::prelude::*;
use vstd::slice::*;
use vstd::utf8::*;

verus! {

/// Why a byte string is not the layout of the expected record.
#[derive(Clone, Copy, Debug, PartialEq, Eq, Structural)]
pub enum DecodeError {
    /// The bytes end before the layout does.
    Truncated,
    /// The leading tag is not that of the expected record type.
    WrongRecordType,
    /// A field holds bytes that stand for no value of its type.
    InvalidField,
}

/// The address at position `at`, with the position behind it.
pub open spec fn parse_address(data: Seq<u8>, at: int) -> Result<(Seq<u8>, int), DecodeError> {
    if at + 32 <= data.len() {
        Ok((data.subrange(at, at + 32), at + 32))
    } else {
        Err(DecodeError::Truncated)
    }
}

/// The byte that stands for a flag.
pub open spec fn flag_byte(flag: bool) -> u8 {
    if flag {
        1
    } else {
        0
    }
}

/// The flag at position `at`, with the position behind it.
pub open spec fn parse_flag(data: Seq<u8>, at: int) -> Result<(bool, int), DecodeError> {
    if at + 1 > data.len() {
        Err(DecodeError::Truncated)
    } else if data[at] == 0 {
        Ok((false, at + 1))
    } else if data[at] == 1 {
        Ok((true, at + 1))
    } else {
        Err(DecodeError::InvalidField)
    }
}

/// Whether the UTF-8 form of a text is short enough for its length to be
/// written in four bytes.
pub open spec fn text_fits(text: Seq<char>) -> bool {
    encode_utf8(text).len() <= u32::MAX
}

/// The layout of a text: the length of its UTF-8 form, then that form.
pub open spec fn text_bytes(text: Seq<char>) -> Seq<u8> {
    spec_u32_to_le_bytes(encode_utf8(text).len() as u32) + encode_utf8(text)
}

/// The text at position `at`, with the position behind it.
pub open spec fn parse_text(data: Seq<u8>, at: int) -> Result<(Seq<char>, int), DecodeError> {
    if at + 4 > data.len() {
        Err(DecodeError::Truncated)
    } else {
        let length = spec_u32_from_le_bytes(data.subrange(at, at + 4)) as int;
        let end = at + 4 + length;
        if end > data.len() {
            Err(DecodeError::Truncated)
        } else if !valid_utf8(data.subrange(at + 4, end)) {
            Err(DecodeError::InvalidField)
        } else {
            Ok((decode_utf8(data.subrange(at + 4, end)), end))
        }
    }
}

/// An outcome with its value taken by its view.
pub open spec fn outcome_view<T: View, E>(outcome: Result<T, E>) -> Result<T::V, E> {
    match outcome {
        Ok(value) => Ok(value@),
        Err(e) => Err(e),
    }
}

/// A reader's outcome agrees with what the layout says: the same value by
/// its view and the same position, or the same error.
pub open spec fn read_agrees<T: View>(
    got: Result<(T, usize), DecodeError>,
    expected: Result<(T::V, int), DecodeError>,
) -> bool {
    match (got, expected) {
        (Ok((value, next)), Ok((view, position))) => value@ == view && next == position,
        (Err(e), Err(f)) => e == f,
        _ => false,
    }
}

/// A text laid out at the very start of `data` is read back, whatever follows.
pub proof fn lemma_text_roundtrip(text: Seq<char>, rest: Seq<u8>)
    requires
        text_fits(text),
    ensures
        parse_text(text_bytes(text) + rest, 0) == Ok::<(Seq<char>, int), DecodeError>(
            (text, text_bytes(text).len() as int),
        ),
        text_bytes(text).len() == 4 + encode_utf8(text).len(),
{
    let form = encode_utf8(text);
    let prefix = spec_u32_to_le_bytes(form.len() as u32);
    let data = text_bytes(text) + rest;
    lemma_auto_spec_u32_to_from_le_bytes();
    assert(prefix.len() == 4);
    assert(data.subrange(0, 4) =~= prefix);
    assert(spec_u32_from_le_bytes(prefix) == form.len() as u32);
    assert(data.subrange(4, 4 + form.len() as int) =~= form);
    encode_utf8_valid_utf8(text);
    encode_utf8_decode_utf8(text);
}

/// Reading a text depends on the bytes from `at` on alone: the same bytes
/// behind another prefix give the same text, at the shifted position.
pub proof fn lemma_parse_text_at(head: Seq<u8>, tail: Seq<u8>)
    ensures
        parse_text(head + tail, head.len() as int) == match parse_text(tail, 0) {
            Ok((text, end)) => Ok((text, head.len() + end)),
            Err(e) => Err(e),
        },
{
    let data = head + tail;
    let at = head.len() as int;
    if 4 <= tail.len() {
        assert(data.subrange(at, at + 4) =~= tail.subrange(0, 4));
        let length = spec_u32_from_le_bytes(tail.subrange(0, 4)) as int;
        if 4 + length <= tail.len() {
            assert(data.subrange(at + 4, at + 4 + length) =~= tail.subrange(4, 4 + length));
        }
    }
}

/// `String::from_utf8` of std: the text whose UTF-8 form the bytes are, and
/// nothing where they are not valid UTF-8.
#[verifier::external_body]
fn text_from_utf8(bytes: Vec<u8>) -> (text: Option<String>)
    ensures
        text is Some <==> valid_utf8(bytes@),
        text matches Some(t) ==> t@ == decode_utf8(bytes@),
{
    match String::from_utf8(bytes) {
        Ok(text) => Some(text),
        Err(_) => None,
    }
}

/// Reads the address at position `at`.
pub fn read_address(data: &[u8], at: usize) -> (r: Result<(Address, usize), DecodeError>)
    ensures
        read_agrees(r, parse_address(data@, at as int)),
{
    if at > data.len() || data.len() - at < 32 {
        return Err(DecodeError::Truncated);
    }
    let mut bytes = [0u8; 32];
    let mut i: usize = 0;
    while i < 32
        invariant
            i <= 32,
            at + 32 <= data@.len() <= usize::MAX,
            forall|j: int| 0 <= j < i ==> bytes@[j] == data@[at + j],
        decreases 32 - i,
    {
        bytes[i] = data[at + i];
        i += 1;
    }
    assert(bytes@ =~= data@.subrange(at as int, at + 32));
    Ok((Address { bytes }, at + 32))
}

/// Reads the flag at position `at`.
pub fn read_flag(data: &[u8], at: usize) -> (r: Result<(bool, usize), DecodeError>)
    ensures
        read_agrees(r, parse_flag(data@, at as int)),
{
    if at > data.len() || data.len() - at < 1 {
        return Err(DecodeError::Truncated);
    }
    let byte = data[at];
    if byte == 0 {
        Ok((false, at + 1))
    } else if byte == 1 {
        Ok((true, at + 1))
    } else {
        Err(DecodeError::InvalidField)
    }
}

/// Reads the text at position `at`.
pub fn read_text(data: &[u8], at: usize) -> (r: Result<(String, usize), DecodeError>)
    ensures
        read_agrees(r, parse_text(data@, at as int)),
{
    if at > data.len() || data.len() - at < 4 {
        return Err(DecodeError::Truncated);
    }
    let length = u32_from_le_bytes(slice_subrange(data, at, at + 4));
    let start = at + 4;
    if data.len() - start < length as usize {
        return Err(DecodeError::Truncated);
    }
    let end = start + length as usize;
    match text_from_utf8(slice_to_vec(slice_subrange(data, start, end))) {
        Some(text) => Ok((text, end)),
        None => Err(DecodeError::InvalidField),
    }
}

/// Appends the layout of an address.
pub fn write_address(out: &mut Vec<u8>, address: &Address)
    ensures
        final(out)@ == old(out)@ + address@,
{
    out.extend_from_slice(address.bytes.as_slice());
}

/// Appends the layout of a flag.
pub fn write_flag(out: &mut Vec<u8>, flag: bool)
    ensures
        final(out)@ == old(out)@ + seq![flag_byte(flag)],
{
    out.push(if flag { 1u8 } else { 0u8 });
    assert(out@ =~= old(out)@ + seq![flag_byte(flag)]);
}

/// Appends the layout of a text. A text whose UTF-8 form is longer than four
/// bytes can count has no layout: then nothing is appended.
pub fn write_text(out: &mut Vec<u8>, text: &str) -> (written: bool)
    ensures
        written == text_fits(text@),
        written ==> final(out)@ == old(out)@ + text_bytes(text@),
        !written ==> final(out)@ == old(out)@,
{
    let form = text.as_bytes();
    if form.len() > u32::MAX as usize {
        return false;
    }
    let prefix = u32_to_le_bytes(form.len() as u32);
    out.extend_from_slice(prefix.as_slice());
    out.extend_from_slice(form);
    assert(out@ =~= old(out)@ + text_bytes(text@));
    true
}

} // verus!
