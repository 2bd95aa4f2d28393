//! The primitives of the wire format: variable-length unsigned numbers, sizes
//! and coordinates.
use crate::cursor::ByteCursor;
use crate::endian::{
    as_signed, as_unsigned, i16_le, i32_le, le_u16_bytes, le_u16_value, le_u32_bytes,
    le_u32_value, lemma_le_u16_round_trip, lemma_le_u32_round_trip, lemma_signed_round_trip,
    read_i16_le, read_i32_le, read_u16_le, read_u32_le, u16_le, u32_le,
};
use crate::header::CoordinateRange;
use crate::wire::{holds_at, lemma_holds_at_concat, lemma_holds_at_index, reads, writes};
use crate::TinyVgParseError;
use vstd::prelude::*;

verus! {

/// A coordinate or length, kept as the signed integer that stands on the wire.
/// Its value in design space is that integer divided by 2 to the power of the
/// header's scale.
#[derive(Debug, Clone, Copy, PartialEq, Eq, Structural)]
pub struct Unit(pub i64);

/// The most bytes that a variable-length number may take.
pub const MAX_VARINT_BYTES: usize = 10;

/// 128 to the power of `n`.
pub open spec fn pow128(n: nat) -> nat
    decreases n,
{
    if n == 0 {
        1
    } else {
        128 * pow128((n - 1) as nat)
    }
}

/// The number spelt by the bytes from `pos` on, seven bits to a byte, least
/// significant group first, where a byte below 0x80 is the last one; and the
/// position behind it. There is none where the data ends first or the number
/// takes more than `budget` bytes.
pub open spec fn spec_varint_groups(data: Seq<u8>, pos: int, budget: nat) -> Option<(nat, int)>
    decreases budget,
{
    if budget == 0 || pos < 0 || pos >= data.len() {
        None
    } else if data[pos] < 0x80 {
        Some((data[pos] as nat, pos + 1))
    } else {
        match spec_varint_groups(data, pos + 1, (budget - 1) as nat) {
            Some((rest, end)) => Some((((data[pos] - 0x80) + 128 * rest) as nat, end)),
            None => None,
        }
    }
}

/// The variable-length number at `pos`, reduced to 64 bits, and the position
/// behind it. A number of more than ten bytes is refused.
#[verifier::opaque]
pub open spec fn spec_read_varint(data: Seq<u8>, pos: int) -> Option<(u64, int)> {
    match spec_varint_groups(data, pos, MAX_VARINT_BYTES as nat) {
        Some((value, end)) => Some(((value % 0x1_0000_0000_0000_0000) as u64, end)),
        None => None,
    }
}

/// The bytes of `value` as a variable-length number: seven bits to a byte,
/// least significant group first, every byte but the last with its top bit set.
#[verifier::opaque]
pub open spec fn varint_bytes(value: nat) -> Seq<u8>
    decreases value,
{
    if value < 0x80 {
        seq![value as u8]
    } else {
        seq![(value % 0x80 + 0x80) as u8] + varint_bytes(value / 0x80)
    }
}

/// `prefix + weight * rest`, where `rest` is the number read from some later position.
pub open spec fn varint_weighted(prefix: nat, weight: nat, rest: Option<(nat, int)>) -> Option<
    (nat, int),
> {
    match rest {
        Some((value, end)) => Some((prefix + weight * value, end)),
        None => None,
    }
}

/// A larger power of 128 is no smaller, and none is below one.
proof fn lemma_pow128_monotonic(a: nat, b: nat)
    requires
        a <= b,
    ensures
        pow128(a) <= pow128(b),
        pow128(a) >= 1,
    decreases b,
{
    if a < b {
        lemma_pow128_monotonic(a, (b - 1) as nat);
    } else if a > 0 {
        lemma_pow128_monotonic((a - 1) as nat, (b - 1) as nat);
    }
}

/// The tenth power of 128 is 2 to the 70th.
proof fn lemma_pow128_ten()
    ensures
        pow128(10) == 0x40_0000_0000_0000_0000,
{
    reveal_with_fuel(pow128, 11);
}

/// Reads a variable-length unsigned number.
///
/// Each byte gives its low seven bits, the first byte the least significant
/// ones; a byte with its top bit clear ends the number. Bits above the 64th are
/// dropped. The read fails where the data ends inside the number or the number
/// has more than ten bytes.
pub fn read_variable_sized_unsigned_number(cursor: &mut ByteCursor) -> (r: Result<
    u64,
    TinyVgParseError,
>)
    ensures
        reads(
            *old(cursor),
            *final(cursor),
            r,
            spec_read_varint(old(cursor).data@, old(cursor).position as int),
            TinyVgParseError::InvalidHeader,
        ),
{
    proof {
        reveal(spec_read_varint);
    }
    let mut c = *cursor;
    let mut total: u128 = 0;
    let mut weight: u128 = 1;
    let mut count: usize = 0;
    let ghost data = cursor.data@;
    let ghost start = cursor.position as int;
    while count < MAX_VARINT_BYTES
        invariant
            count <= MAX_VARINT_BYTES,
            weight == pow128(count as nat),
            total < weight,
            c.data@ == data,
            old(cursor).position <= c.position,
            *cursor == *old(cursor),
            data == old(cursor).data@,
            start == old(cursor).position,
            spec_varint_groups(data, start, MAX_VARINT_BYTES as nat) == varint_weighted(
                total as nat,
                weight as nat,
                spec_varint_groups(data, c.position as int, (MAX_VARINT_BYTES - count) as nat),
            ),
        decreases MAX_VARINT_BYTES - count,
    {
        proof {
            reveal(spec_read_varint);
        }
        let byte = match c.read_u8() {
            Some(byte) => byte,
            None => {
                return Err(TinyVgParseError::InvalidHeader);
            },
        };
        let group = byte & 0x7F;
        let last = byte & 0x80 == 0;
        proof {
            assert(byte & 0x7F == byte % 0x80) by (bit_vector);
            assert((byte & 0x80 == 0) == (byte < 0x80)) by (bit_vector);
            lemma_pow128_monotonic(count as nat, 9);
            lemma_pow128_monotonic((count + 1) as nat, 10);
            lemma_pow128_ten();
            assert(group as int * weight as int <= 127 * weight as int) by (nonlinear_arith)
                requires
                    0 <= group <= 127,
                    0 <= weight,
            ;
        }
        let ghost before = total;
        total = total + group as u128 * weight;
        proof {
            assert(group as int * weight as int == weight as int * group as int)
                by (nonlinear_arith);
        }
        if last {
            *cursor = c;
            return Ok((total % 0x1_0000_0000_0000_0000u128) as u64);
        }
        proof {
            let rest = spec_varint_groups(
                data,
                c.position as int,
                (MAX_VARINT_BYTES - count - 1) as nat,
            );
            if let Some((value, end)) = rest {
                assert(before + weight * ((byte - 0x80) + 128 * value) == (before + (byte - 0x80)
                    * weight) + (weight * 128) * value) by (nonlinear_arith);
            }
        }
        weight = weight * 128;
        count = count + 1;
    }
    Err(TinyVgParseError::InvalidHeader)
}

/// Writes `value` as a variable-length unsigned number; this cannot fail.
pub fn write_variable_sized_unsigned_number(out: &mut Vec<u8>, value: u64) -> (r: Result<
    (),
    TinyVgParseError,
>)
    ensures
        r is Ok,
        final(out)@ == old(out)@ + varint_bytes(value as nat),
{
    let mut left = value;
    loop
        invariant
            old(out)@ + varint_bytes(value as nat) == out@ + varint_bytes(left as nat),
        decreases left,
    {
        proof {
            reveal(varint_bytes);
            assert(left & 0x7F == left % 0x80) by (bit_vector);
            assert(left >> 7 == left / 0x80) by (bit_vector);
        }
        let low = (left & 0x7F) as u8;
        let rest = left >> 7;
        if rest == 0 {
            out.push(low);
            return Ok(());
        }
        let byte = low | 0x80;
        proof {
            assert(low < 0x80 ==> low | 0x80 == low + 0x80) by (bit_vector);
        }
        out.push(byte);
        left = rest;
    }
}

/// The length of a variable-length number is between one and ten bytes.
pub proof fn lemma_varint_bytes_len(value: nat, budget: nat)
    requires
        budget >= 1,
        value < pow128(budget),
    ensures
        1 <= varint_bytes(value).len() <= budget,
    decreases budget,
{
    reveal(varint_bytes);
    if value >= 0x80 {
        assert(budget >= 2) by {
            reveal_with_fuel(pow128, 2);
        }
        lemma_varint_bytes_len(value / 0x80, (budget - 1) as nat);
    }
}

/// Reading what was written: where the bytes of `value` stand at `pos`, the
/// groups read from there spell `value` and end behind them.
pub proof fn lemma_varint_groups_round_trip(data: Seq<u8>, pos: int, value: nat, budget: nat)
    requires
        budget >= 1,
        value < pow128(budget),
        holds_at(data, pos, varint_bytes(value)),
    ensures
        spec_varint_groups(data, pos, budget) == Some(
            (value, pos + varint_bytes(value).len()),
        ),
    decreases budget,
{
    reveal(varint_bytes);
    let w = varint_bytes(value);
    lemma_holds_at_index(data, pos, w, 0);
    if value >= 0x80 {
        assert(budget >= 2) by {
            reveal_with_fuel(pow128, 2);
        }
        let first = seq![(value % 0x80 + 0x80) as u8];
        lemma_holds_at_concat(data, pos, first, varint_bytes(value / 0x80));
        lemma_varint_groups_round_trip(data, pos + 1, value / 0x80, (budget - 1) as nat);
    }
}

/// A variable-length number that was written is read back as it was: where the
/// bytes of a 64-bit `value` stand at `pos`, whatever follows them, reading at
/// `pos` gives `value` and the position behind those bytes.
pub proof fn lemma_varint_round_trip(data: Seq<u8>, pos: int, value: u64)
    requires
        holds_at(data, pos, varint_bytes(value as nat)),
    ensures
        spec_read_varint(data, pos) == Some(
            (value, pos + varint_bytes(value as nat).len()),
        ),
        1 <= varint_bytes(value as nat).len() <= MAX_VARINT_BYTES,
{
    reveal(spec_read_varint);
    lemma_pow128_ten();
    lemma_varint_groups_round_trip(data, pos, value as nat, 10);
    lemma_varint_bytes_len(value as nat, 10);
}

/// The unsigned number that the bytes of one size spell.
pub open spec fn size_value(bytes: Seq<u8>, range: CoordinateRange) -> int
    recommends
        bytes.len() == range.spec_width(),
{
    match range {
        CoordinateRange::Reduced => bytes[0] as int,
        CoordinateRange::Default => le_u16_value(bytes),
        CoordinateRange::Enhanced => le_u32_value(bytes),
    }
}

/// The bytes of the unsigned number `value` in the width of `range`, least
/// significant first.
#[verifier::opaque]
pub open spec fn size_bytes(value: int, range: CoordinateRange) -> Seq<u8>
    recommends
        range.fits_unsigned(value),
{
    match range {
        CoordinateRange::Reduced => seq![value as u8],
        CoordinateRange::Default => le_u16_bytes(value),
        CoordinateRange::Enhanced => le_u32_bytes(value),
    }
}

/// The size at `pos`: an unsigned little-endian number in the width of `range`,
/// and the position behind it.
#[verifier::opaque]
pub open spec fn spec_read_size(data: Seq<u8>, pos: int, range: CoordinateRange) -> Option<
    (u32, int),
> {
    let end = pos + range.spec_width();
    if 0 <= pos && end <= data.len() {
        Some((size_value(data.subrange(pos, end), range) as u32, end))
    } else {
        None
    }
}

/// The bytes of the signed number `raw` in the width of `range`, in two's
/// complement, least significant first.
#[verifier::opaque]
pub open spec fn unit_bytes(raw: int, range: CoordinateRange) -> Seq<u8>
    recommends
        range.fits_signed(raw),
{
    size_bytes(as_unsigned(raw, range.modulus()), range)
}

/// The coordinate at `pos`: a signed little-endian number in the width of
/// `range`, and the position behind it.
#[verifier::opaque]
pub open spec fn spec_read_unit(data: Seq<u8>, pos: int, range: CoordinateRange) -> Option<
    (Unit, int),
> {
    let end = pos + range.spec_width();
    if 0 <= pos && end <= data.len() {
        Some(
            (
                Unit(as_signed(size_value(data.subrange(pos, end), range), range.modulus()) as i64),
                end,
            ),
        )
    } else {
        None
    }
}

/// Reads a width or height: an unsigned number of 8, 16 or 32 bits, as the
/// coordinate range says. Fails where fewer bytes are left.
pub fn read_size(coordinate_range: &CoordinateRange, cursor: &mut ByteCursor) -> (r: Result<
    u32,
    TinyVgParseError,
>)
    ensures
        reads(
            *old(cursor),
            *final(cursor),
            r,
            spec_read_size(old(cursor).data@, old(cursor).position as int, *coordinate_range),
            TinyVgParseError::InvalidHeader,
        ),
        r matches Ok(value) ==> coordinate_range.fits_unsigned(value as int),
{
    proof {
        reveal(spec_read_size);
    }
    match coordinate_range {
        CoordinateRange::Reduced => match cursor.read_u8() {
            Some(byte) => {
                assert(old(cursor).data@.subrange(
                    old(cursor).position as int,
                    old(cursor).position + 1,
                )[0] == byte);
                Ok(byte as u32)
            },
            None => Err(TinyVgParseError::InvalidHeader),
        },
        CoordinateRange::Default => match cursor.read_bytes(2) {
            Some(bytes) => Ok(read_u16_le(bytes) as u32),
            None => Err(TinyVgParseError::InvalidHeader),
        },
        CoordinateRange::Enhanced => match cursor.read_bytes(4) {
            Some(bytes) => Ok(read_u32_le(bytes)),
            None => Err(TinyVgParseError::InvalidHeader),
        },
    }
}

/// Writes a width or height in the width of the coordinate range. Fails, and
/// writes nothing, where the value does not fit that width.
pub fn write_size(range: &CoordinateRange, out: &mut Vec<u8>, value: u32) -> (r: Result<
    (),
    TinyVgParseError,
>)
    ensures
        writes(
            old(out)@,
            final(out)@,
            r,
            range.fits_unsigned(value as int),
            size_bytes(value as int, *range),
            TinyVgParseError::InvalidHeader,
        ),
{
    proof {
        reveal(size_bytes);
    }
    match range {
        CoordinateRange::Reduced => {
            if value > 0xFF {
                return Err(TinyVgParseError::InvalidHeader);
            }
            out.push(value as u8);
        },
        CoordinateRange::Default => {
            if value > 0xFFFF {
                return Err(TinyVgParseError::InvalidHeader);
            }
            let bytes = u16_le(value as u16);
            out.push(bytes[0]);
            out.push(bytes[1]);
        },
        CoordinateRange::Enhanced => {
            let bytes = u32_le(value);
            out.push(bytes[0]);
            out.push(bytes[1]);
            out.push(bytes[2]);
            out.push(bytes[3]);
        },
    }
    Ok(())
}

/// Reads one coordinate: a signed number of 8, 16 or 32 bits, as the
/// coordinate range says. Fails where fewer bytes are left.
pub fn read_unit(cursor: &mut ByteCursor, coordinate_range: &CoordinateRange) -> (r: Result<
    Unit,
    TinyVgParseError,
>)
    ensures
        reads(
            *old(cursor),
            *final(cursor),
            r,
            spec_read_unit(old(cursor).data@, old(cursor).position as int, *coordinate_range),
            TinyVgParseError::InvalidCommand,
        ),
        r matches Ok(value) ==> coordinate_range.fits_signed(value.0 as int),
{
    proof {
        reveal(spec_read_unit);
    }
    match coordinate_range {
        CoordinateRange::Reduced => match cursor.read_u8() {
            Some(byte) => {
                assert(old(cursor).data@.subrange(
                    old(cursor).position as int,
                    old(cursor).position + 1,
                )[0] == byte);
                if byte < 0x80 {
                    Ok(Unit(byte as i64))
                } else {
                    Ok(Unit(byte as i64 - 0x100))
                }
            },
            None => Err(TinyVgParseError::InvalidCommand),
        },
        CoordinateRange::Default => match cursor.read_bytes(2) {
            Some(bytes) => Ok(Unit(read_i16_le(bytes) as i64)),
            None => Err(TinyVgParseError::InvalidCommand),
        },
        CoordinateRange::Enhanced => match cursor.read_bytes(4) {
            Some(bytes) => Ok(Unit(read_i32_le(bytes) as i64)),
            None => Err(TinyVgParseError::InvalidCommand),
        },
    }
}

/// Writes one coordinate in the width of the coordinate range, in two's
/// complement.
///
/// A value outside the signed range of that width is never wrapped or clipped:
/// the write fails with `InvalidCommand` and appends nothing.
pub fn write_unit(out: &mut Vec<u8>, coordinate_range: &CoordinateRange, value: Unit) -> (r:
    Result<(), TinyVgParseError>)
    ensures
        writes(
            old(out)@,
            final(out)@,
            r,
            coordinate_range.fits_signed(value.0 as int),
            unit_bytes(value.0 as int, *coordinate_range),
            TinyVgParseError::InvalidCommand,
        ),
{
    proof {
        reveal(unit_bytes);
        reveal(size_bytes);
    }
    let raw = value.0;
    match coordinate_range {
        CoordinateRange::Reduced => {
            if raw < -0x80 || raw > 0x7F {
                return Err(TinyVgParseError::InvalidCommand);
            }
            let byte = if raw < 0 {
                (raw + 0x100) as u8
            } else {
                raw as u8
            };
            out.push(byte);
        },
        CoordinateRange::Default => {
            if raw < -0x8000 || raw > 0x7FFF {
                return Err(TinyVgParseError::InvalidCommand);
            }
            let bytes = i16_le(raw as i16);
            out.push(bytes[0]);
            out.push(bytes[1]);
        },
        CoordinateRange::Enhanced => {
            if raw < -0x8000_0000 || raw > 0x7FFF_FFFF {
                return Err(TinyVgParseError::InvalidCommand);
            }
            let bytes = i32_le(raw as i32);
            out.push(bytes[0]);
            out.push(bytes[1]);
            out.push(bytes[2]);
            out.push(bytes[3]);
        },
    }
    Ok(())
}

/// A size that was written is read back as it was.
pub proof fn lemma_size_round_trip(data: Seq<u8>, pos: int, range: CoordinateRange, value: u32)
    requires
        range.fits_unsigned(value as int),
        holds_at(data, pos, size_bytes(value as int, range)),
    ensures
        size_bytes(value as int, range).len() == range.spec_width(),
        spec_read_size(data, pos, range) == Some((value, pos + range.spec_width())),
{
    reveal(size_bytes);
    reveal(spec_read_size);
    match range {
        CoordinateRange::Reduced => {},
        CoordinateRange::Default => lemma_le_u16_round_trip(value as int),
        CoordinateRange::Enhanced => lemma_le_u32_round_trip(value as int),
    }
}

/// A coordinate that was written is read back as it was.
pub proof fn lemma_unit_round_trip(data: Seq<u8>, pos: int, range: CoordinateRange, value: Unit)
    requires
        range.fits_signed(value.0 as int),
        holds_at(data, pos, unit_bytes(value.0 as int, range)),
    ensures
        unit_bytes(value.0 as int, range).len() == range.spec_width(),
        spec_read_unit(data, pos, range) == Some((value, pos + range.spec_width())),
{
    reveal(unit_bytes);
    reveal(size_bytes);
    reveal(spec_read_unit);
    lemma_signed_round_trip(value.0 as int, range.modulus());
    let unsigned = as_unsigned(value.0 as int, range.modulus());
    match range {
        CoordinateRange::Reduced => {},
        CoordinateRange::Default => lemma_le_u16_round_trip(unsigned),
        CoordinateRange::Enhanced => lemma_le_u32_round_trip(unsigned),
    }
}

/// The count at `pos`, which the wire holds less one, and the position behind
/// it. A stored value of 2 to the 64th less one stands for no count.
pub open spec fn spec_read_count(data: Seq<u8>, pos: int) -> Option<(u64, int)> {
    match spec_read_varint(data, pos) {
        Some((stored, end)) => if stored < u64::MAX {
            Some(((stored + 1) as u64, end))
        } else {
            None
        },
        None => None,
    }
}

/// The bytes of a count of at least one: the count less one as a
/// variable-length number.
pub open spec fn count_bytes(count: nat) -> Seq<u8>
    recommends
        count >= 1,
{
    varint_bytes((count - 1) as nat)
}

/// Reads a variable-length number inside a command.
pub fn read_number(cursor: &mut ByteCursor) -> (r: Result<u64, TinyVgParseError>)
    ensures
        reads(
            *old(cursor),
            *final(cursor),
            r,
            spec_read_varint(old(cursor).data@, old(cursor).position as int),
            TinyVgParseError::InvalidCommand,
        ),
{
    match read_variable_sized_unsigned_number(cursor) {
        Ok(value) => Ok(value),
        Err(_) => Err(TinyVgParseError::InvalidCommand),
    }
}

/// Reads a count: the stored number plus one.
pub fn read_count(cursor: &mut ByteCursor) -> (r: Result<u64, TinyVgParseError>)
    ensures
        reads(
            *old(cursor),
            *final(cursor),
            r,
            spec_read_count(old(cursor).data@, old(cursor).position as int),
            TinyVgParseError::InvalidCommand,
        ),
        r matches Ok(count) ==> count >= 1,
{
    let mut c = *cursor;
    let stored = read_number(&mut c)?;
    if stored == u64::MAX {
        return Err(TinyVgParseError::InvalidCommand);
    }
    *cursor = c;
    Ok(stored + 1)
}

/// Writes the number of items of a list, less one. Fails, and writes
/// nothing, where the list is empty.
pub fn write_count(out: &mut Vec<u8>, count: usize) -> (r: Result<(), TinyVgParseError>)
    ensures
        writes(
            old(out)@,
            final(out)@,
            r,
            count >= 1,
            count_bytes(count as nat),
            TinyVgParseError::InvalidCommand,
        ),
{
    if count == 0 {
        return Err(TinyVgParseError::InvalidCommand);
    }
    write_variable_sized_unsigned_number(out, (count - 1) as u64)
}

/// A count that was written is read back as it was.
pub proof fn lemma_count_round_trip(data: Seq<u8>, pos: int, count: u64)
    requires
        count >= 1,
        holds_at(data, pos, count_bytes(count as nat)),
    ensures
        spec_read_count(data, pos) == Some((count, pos + count_bytes(count as nat).len())),
{
    lemma_varint_round_trip(data, pos, (count - 1) as u64);
}

} // verus!
