//! The text of a text hint on the wire: its length in bytes, then its UTF-8
//! bytes.
use crate::common::{
    lemma_varint_round_trip, read_number, spec_read_varint, varint_bytes,
    write_variable_sized_unsigned_number,
};
use crate::cursor::ByteCursor;
use crate::wire::{holds_at, lemma_holds_at_concat, reads_view, writes};
use crate::TinyVgParseError;
use vstd::prelude::*;
use vstd::slice::slice_to_vec;
use vstd::utf8::{
    decode_utf8, encode_utf8, encode_utf8_decode_utf8, encode_utf8_valid_utf8, valid_utf8,
};

verus! {

/// Calls `String::from_utf8`, which makes a string of the bytes where they are
/// valid UTF-8, keeping them as they are, and fails where they are not.
#[verifier::external_body]
fn string_from_utf8(bytes: Vec<u8>) -> (r: Option<String>)
    ensures
        match r {
            Some(text) => valid_utf8(bytes@) && encode_utf8(text@) == bytes@,
            None => !valid_utf8(bytes@),
        },
{
    String::from_utf8(bytes).ok()
}

/// The text at `pos` and the position behind it: a variable-length number of
/// bytes, then that many bytes, which must be valid UTF-8.
pub open spec fn spec_read_text(data: Seq<u8>, pos: int) -> Option<(Seq<char>, int)> {
    match spec_read_varint(data, pos) {
        Some((length, start)) => {
            let end = start + length;
            if 0 <= start && end <= data.len() && valid_utf8(data.subrange(start, end)) {
                Some((decode_utf8(data.subrange(start, end)), end))
            } else {
                None
            }
        },
        None => None,
    }
}

/// The bytes of a text: the length of its UTF-8 form, then that form.
pub open spec fn text_bytes(text: Seq<char>) -> Seq<u8> {
    varint_bytes(encode_utf8(text).len()) + encode_utf8(text)
}

/// Whether the length of the UTF-8 form of the text fits 64 bits.
pub open spec fn text_fits(text: Seq<char>) -> bool {
    encode_utf8(text).len() <= u64::MAX
}

/// Reads a text. Fails where the data ends inside it or its bytes are not
/// valid UTF-8.
pub fn read_text(cursor: &mut ByteCursor) -> (r: Result<String, TinyVgParseError>)
    ensures
        reads_view(
            *old(cursor),
            *final(cursor),
            r,
            spec_read_text(old(cursor).data@, old(cursor).position as int),
            TinyVgParseError::InvalidCommand,
        ),
        r matches Ok(text) ==> text_fits(text@),
{
    let mut c = *cursor;
    let length = read_number(&mut c)?;
    if length > c.remaining() as u64 {
        return Err(TinyVgParseError::InvalidCommand);
    }
    let bytes = match c.read_bytes(length as usize) {
        Some(bytes) => bytes,
        None => {
            return Err(TinyVgParseError::InvalidCommand);
        },
    };
    match string_from_utf8(slice_to_vec(bytes)) {
        Some(text) => {
            proof {
                encode_utf8_decode_utf8(text@);
            }
            *cursor = c;
            Ok(text)
        },
        None => Err(TinyVgParseError::InvalidCommand),
    }
}

/// Writes a text: the length of its UTF-8 form, then that form. This cannot
/// fail.
pub fn write_text(out: &mut Vec<u8>, text: &String) -> (r: Result<(), TinyVgParseError>)
    ensures
        writes(
            old(out)@,
            final(out)@,
            r,
            text_fits(text@),
            text_bytes(text@),
            TinyVgParseError::InvalidCommand,
        ),
        r is Ok,
{
    let bytes = text.as_str().as_bytes();
    let _ = write_variable_sized_unsigned_number(out, bytes.len() as u64);
    out.extend_from_slice(bytes);
    Ok(())
}

/// A text that was written is read back as it was.
pub proof fn lemma_text_round_trip(data: Seq<u8>, pos: int, text: Seq<char>)
    requires
        text_fits(text),
        holds_at(data, pos, text_bytes(text)),
    ensures
        spec_read_text(data, pos) == Some((text, pos + text_bytes(text).len())),
{
    let utf8 = encode_utf8(text);
    let length = varint_bytes(utf8.len());
    lemma_holds_at_concat(data, pos, length, utf8);
    lemma_varint_round_trip(data, pos, utf8.len() as u64);
    encode_utf8_valid_utf8(text);
    encode_utf8_decode_utf8(text);
}

} // verus!
