//! The document header: format marker, version, numeric precision and size.
use crate::common::{
    lemma_size_round_trip, lemma_varint_round_trip, read_size,
    read_variable_sized_unsigned_number, size_bytes, spec_read_size, spec_read_varint,
    varint_bytes, write_size, write_variable_sized_unsigned_number,
};
use crate::cursor::ByteCursor;
use crate::wire::{
    holds_at, lemma_holds_at_concat, lemma_holds_at_index, reads, undo, writes,
};
use crate::TinyVgParseError;
use vstd::arithmetic::power2::{lemma2_to64, lemma_pow2_unfold, pow2};
use vstd::prelude::*;

verus! {

/// How the colours of the colour table stand on the wire.
#[derive(Debug, Clone, Copy, PartialEq, Eq, Structural)]
pub enum ColorEncoding {
    /// Four bytes: red, green, blue, alpha.
    Rgba8888,
    /// One 16-bit word: red in bits 0 to 4, green in bits 5 to 10, blue in bits 11 to 15.
    Rgb565,
    /// Four 32-bit IEEE 754 numbers: red, green, blue, alpha.
    RgbaF32,
    /// Defined outside the format; this codec cannot read or write it.
    Custom,
}

impl ColorEncoding {
    /// The encoding that the 2-bit field `value` names.
    pub open spec fn spec_from_u8(value: u8) -> Option<ColorEncoding> {
        if value == 0 {
            Some(ColorEncoding::Rgba8888)
        } else if value == 1 {
            Some(ColorEncoding::Rgb565)
        } else if value == 2 {
            Some(ColorEncoding::RgbaF32)
        } else if value == 3 {
            Some(ColorEncoding::Custom)
        } else {
            None
        }
    }

    /// The 2-bit field that names this encoding.
    pub open spec fn spec_to_u8(self) -> u8 {
        match self {
            ColorEncoding::Rgba8888 => 0,
            ColorEncoding::Rgb565 => 1,
            ColorEncoding::RgbaF32 => 2,
            ColorEncoding::Custom => 3,
        }
    }

    /// The encoding that `value` names; a value above 3 names none.
    pub fn from_u8(value: u8) -> (r: Result<ColorEncoding, TinyVgParseError>)
        ensures
            r == match ColorEncoding::spec_from_u8(value) {
                Some(encoding) => Ok::<ColorEncoding, TinyVgParseError>(encoding),
                None => Err(TinyVgParseError::InvalidHeader),
            },
    {
        match value {
            0 => Ok(ColorEncoding::Rgba8888),
            1 => Ok(ColorEncoding::Rgb565),
            2 => Ok(ColorEncoding::RgbaF32),
            3 => Ok(ColorEncoding::Custom),
            _ => Err(TinyVgParseError::InvalidHeader),
        }
    }

    /// The 2-bit field that names this encoding.
    pub fn to_u8(self) -> (value: u8)
        ensures
            value == self.spec_to_u8(),
            value <= 3,
            ColorEncoding::spec_from_u8(value) == Some(self),
    {
        match self {
            ColorEncoding::Rgba8888 => 0,
            ColorEncoding::Rgb565 => 1,
            ColorEncoding::RgbaF32 => 2,
            ColorEncoding::Custom => 3,
        }
    }
}

/// The width of every coordinate and size of the document on the wire.
#[derive(Debug, Clone, Copy, PartialEq, Eq, Structural)]
pub enum CoordinateRange {
    /// 16 bits.
    Default,
    /// 8 bits.
    Reduced,
    /// 32 bits.
    Enhanced,
}

impl CoordinateRange {
    /// The range that the 2-bit field `value` names.
    pub open spec fn spec_from_u8(value: u8) -> Option<CoordinateRange> {
        if value == 0 {
            Some(CoordinateRange::Default)
        } else if value == 1 {
            Some(CoordinateRange::Reduced)
        } else if value == 2 {
            Some(CoordinateRange::Enhanced)
        } else {
            None
        }
    }

    /// The 2-bit field that names this range.
    pub open spec fn spec_to_u8(self) -> u8 {
        match self {
            CoordinateRange::Default => 0,
            CoordinateRange::Reduced => 1,
            CoordinateRange::Enhanced => 2,
        }
    }

    /// The number of bytes of one coordinate.
    pub open spec fn spec_width(self) -> int {
        match self {
            CoordinateRange::Default => 2,
            CoordinateRange::Reduced => 1,
            CoordinateRange::Enhanced => 4,
        }
    }

    /// The number of values that fit the width: 2 to the power of its bits.
    pub open spec fn modulus(self) -> int {
        match self {
            CoordinateRange::Default => 0x1_0000,
            CoordinateRange::Reduced => 0x100,
            CoordinateRange::Enhanced => 0x1_0000_0000,
        }
    }

    /// Whether the signed integer `raw` fits a coordinate of this width.
    pub open spec fn fits_signed(self, raw: int) -> bool {
        -(self.modulus() / 2) <= raw < self.modulus() / 2
    }

    /// Whether the unsigned integer `value` fits a size of this width.
    pub open spec fn fits_unsigned(self, value: int) -> bool {
        0 <= value < self.modulus()
    }

    /// The range that `value` names; 3 and above name none.
    pub fn from_u8(value: u8) -> (r: Result<CoordinateRange, TinyVgParseError>)
        ensures
            r == match CoordinateRange::spec_from_u8(value) {
                Some(range) => Ok::<CoordinateRange, TinyVgParseError>(range),
                None => Err(TinyVgParseError::InvalidHeader),
            },
    {
        match value {
            0 => Ok(CoordinateRange::Default),
            1 => Ok(CoordinateRange::Reduced),
            2 => Ok(CoordinateRange::Enhanced),
            _ => Err(TinyVgParseError::InvalidHeader),
        }
    }

    /// The 2-bit field that names this range.
    pub fn to_u8(self) -> (value: u8)
        ensures
            value == self.spec_to_u8(),
            value <= 2,
            CoordinateRange::spec_from_u8(value) == Some(self),
    {
        match self {
            CoordinateRange::Default => 0,
            CoordinateRange::Reduced => 1,
            CoordinateRange::Enhanced => 2,
        }
    }
}

/// The first byte of every document.
pub const MAGIC_0: u8 = 0x72;

/// The second byte of every document.
pub const MAGIC_1: u8 = 0x56;

/// The header of a document.
#[derive(Debug, Clone, Copy, PartialEq, Eq)]
pub struct TinyVgHeader {
    /// The two bytes that mark the format: 0x72, 0x56.
    pub magic: [u8; 2],
    /// The version of the format.
    pub version: u8,
    /// The number of fraction bits of every coordinate: 0 to 15.
    pub scale: u8,
    /// How the colours of the colour table stand on the wire.
    pub color_encoding: ColorEncoding,
    /// The width of every coordinate and of the two sizes below.
    pub coordinate_range: CoordinateRange,
    /// The width of the image in display units; 0 for the largest possible.
    pub width: u32,
    /// The height of the image in display units; 0 for the largest possible.
    pub height: u32,
    /// The number of colours in the colour table.
    pub color_count: u64,
}

/// The byte that packs the scale in bits 0 to 3, the colour encoding in bits 4
/// and 5 and the coordinate range in bits 6 and 7.
pub open spec fn packed_precision(scale: u8, encoding: ColorEncoding, range: CoordinateRange) -> u8
    recommends
        scale <= 15,
{
    (scale + 16 * encoding.spec_to_u8() + 64 * range.spec_to_u8()) as u8
}

/// The header at `pos` and the position behind it: the two marker bytes, the
/// version, the packed precision byte, width and height in the width that the
/// coordinate range gives, and the colour count as a variable-length number.
pub open spec fn spec_parse_header(data: Seq<u8>, pos: int) -> Option<(TinyVgHeader, int)> {
    if pos < 0 || pos + 4 > data.len() || data[pos] != MAGIC_0 || data[pos + 1] != MAGIC_1 {
        None
    } else {
        let packed = data[pos + 3];
        match (
            ColorEncoding::spec_from_u8((packed / 16 % 4) as u8),
            CoordinateRange::spec_from_u8((packed / 64) as u8),
        ) {
            (Some(color_encoding), Some(coordinate_range)) => match spec_read_size(
                data,
                pos + 4,
                coordinate_range,
            ) {
                Some((width, after_width)) => match spec_read_size(
                    data,
                    after_width,
                    coordinate_range,
                ) {
                    Some((height, after_height)) => match spec_read_varint(data, after_height) {
                        Some((color_count, end)) => Some(
                            (
                                TinyVgHeader {
                                    magic: [MAGIC_0, MAGIC_1],
                                    version: data[pos + 2],
                                    scale: (packed % 16) as u8,
                                    color_encoding,
                                    coordinate_range,
                                    width,
                                    height,
                                    color_count,
                                },
                                end,
                            ),
                        ),
                        None => None,
                    },
                    None => None,
                },
                None => None,
            },
            _ => None,
        }
    }
}

impl TinyVgHeader {
    /// Whether the header is one of the format: it carries the marker of the
    /// format, the scale takes four bits, and width and height fit the width
    /// that the coordinate range gives.
    pub open spec fn well_formed(&self) -> bool {
        &&& self.magic@ == seq![MAGIC_0, MAGIC_1]
        &&& self.scale <= 15
        &&& self.coordinate_range.fits_unsigned(self.width as int)
        &&& self.coordinate_range.fits_unsigned(self.height as int)
    }

    /// The bytes of the header on the wire.
    pub open spec fn bytes(&self) -> Seq<u8> {
        self.magic@ + seq![
            self.version,
            packed_precision(self.scale, self.color_encoding, self.coordinate_range),
        ] + size_bytes(self.width as int, self.coordinate_range) + size_bytes(
            self.height as int,
            self.coordinate_range,
        ) + varint_bytes(self.color_count as nat)
    }

    /// Reads the header of a document.
    ///
    /// Fails with `InvalidHeader`, leaving the cursor where it was, where the
    /// first two bytes are not the marker of the format, where the coordinate
    /// range is the unassigned value 3, or where the data ends inside the header.
    pub fn parse(cursor: &mut ByteCursor) -> (r: Result<TinyVgHeader, TinyVgParseError>)
        ensures
            reads(
                *old(cursor),
                *final(cursor),
                r,
                spec_parse_header(old(cursor).data@, old(cursor).position as int),
                TinyVgParseError::InvalidHeader,
            ),
            r matches Ok(header) ==> header.well_formed(),
            old(cursor).position + 2 <= old(cursor).data@.len() && (old(cursor).data@[old(
                cursor,
            ).position as int] != MAGIC_0 || old(cursor).data@[old(cursor).position + 1]
                != MAGIC_1) ==> r == Err::<TinyVgHeader, TinyVgParseError>(
                TinyVgParseError::InvalidHeader,
            ) && final(cursor).position == old(cursor).position,
    {
        let mut c = *cursor;
        let first = match c.read_u8() {
            Some(byte) => byte,
            None => {
                return Err(TinyVgParseError::InvalidHeader);
            },
        };
        let second = match c.read_u8() {
            Some(byte) => byte,
            None => {
                return Err(TinyVgParseError::InvalidHeader);
            },
        };
        if first != MAGIC_0 || second != MAGIC_1 {
            return Err(TinyVgParseError::InvalidHeader);
        }
        let version = match c.read_u8() {
            Some(byte) => byte,
            None => {
                return Err(TinyVgParseError::InvalidHeader);
            },
        };
        let packed = match c.read_u8() {
            Some(byte) => byte,
            None => {
                return Err(TinyVgParseError::InvalidHeader);
            },
        };
        proof {
            assert(packed & 0x0F == packed % 16) by (bit_vector);
            assert((packed & 0x30) >> 4 == packed / 16 % 4) by (bit_vector);
            assert((packed & 0xC0) >> 6 == packed / 64) by (bit_vector);
        }
        let scale = packed & 0x0F;
        let color_encoding = ColorEncoding::from_u8((packed & 0x30) >> 4)?;
        let coordinate_range = CoordinateRange::from_u8((packed & 0xC0) >> 6)?;
        let width = read_size(&coordinate_range, &mut c)?;
        let height = read_size(&coordinate_range, &mut c)?;
        let color_count = read_variable_sized_unsigned_number(&mut c)?;
        *cursor = c;
        let header = TinyVgHeader {
            magic: [MAGIC_0, MAGIC_1],
            version,
            scale,
            color_encoding,
            coordinate_range,
            width,
            height,
            color_count,
        };
        Ok(header)
    }
}

/// Writes the header of a document: the marker bytes, the version, the packed
/// precision byte, width, height and the colour count.
///
/// Fails with `InvalidHeader` where the header does not carry the marker of
/// the format, where the scale is above 15 or where a size does not fit the
/// width that the coordinate range gives.
pub fn write_header(header: &TinyVgHeader, out: &mut Vec<u8>) -> (r: Result<(), TinyVgParseError>)
    ensures
        writes(
            old(out)@,
            final(out)@,
            r,
            header.well_formed(),
            header.bytes(),
            TinyVgParseError::InvalidHeader,
        ),
{
    let mark = out.len();
    if header.magic[0] != MAGIC_0 || header.magic[1] != MAGIC_1 || header.scale > 15 {
        return Err(TinyVgParseError::InvalidHeader);
    }
    assert(header.magic@ =~= seq![MAGIC_0, MAGIC_1]);
    out.push(header.magic[0]);
    out.push(header.magic[1]);
    out.push(header.version);
    let encoding = header.color_encoding.to_u8();
    let range = header.coordinate_range.to_u8();
    let scale = header.scale;
    proof {
        assert(scale <= 15 && encoding <= 3 && range <= 3 ==> (scale & 0x0F) | (encoding << 4) | (
        range << 6) == scale + 16 * encoding + 64 * range) by (bit_vector);
    }
    let packed = (scale & 0x0F) | (encoding << 4) | (range << 6);
    out.push(packed);
    if let Err(e) = write_size(&header.coordinate_range, out, header.width) {
        return undo(out, mark, e);
    }
    if let Err(e) = write_size(&header.coordinate_range, out, header.height) {
        return undo(out, mark, e);
    }
    let _ = write_variable_sized_unsigned_number(out, header.color_count);
    assert(out@ =~= old(out)@ + header.bytes());
    Ok(())
}

/// A header that was written is read back as it was: where the bytes of a
/// well-formed header stand at `pos`, whatever follows them, reading at `pos`
/// gives that header and the position behind those bytes.
pub proof fn lemma_header_round_trip(data: Seq<u8>, pos: int, header: TinyVgHeader)
    requires
        header.well_formed(),
        holds_at(data, pos, header.bytes()),
    ensures
        spec_parse_header(data, pos) == Some((header, pos + header.bytes().len())),
{
    let range = header.coordinate_range;
    let head = header.magic@ + seq![
        header.version,
        packed_precision(header.scale, header.color_encoding, header.coordinate_range),
    ];
    let width = size_bytes(header.width as int, range);
    let height = size_bytes(header.height as int, range);
    let count = varint_bytes(header.color_count as nat);
    lemma_holds_at_concat(data, pos, head + width + height, count);
    lemma_holds_at_concat(data, pos, head + width, height);
    lemma_holds_at_concat(data, pos, head, width);
    lemma_holds_at_index(data, pos, head, 0);
    lemma_holds_at_index(data, pos, head, 1);
    lemma_holds_at_index(data, pos, head, 2);
    lemma_holds_at_index(data, pos, head, 3);
    lemma_size_round_trip(data, pos + 4, range, header.width);
    lemma_size_round_trip(data, pos + 4 + range.spec_width(), range, header.height);
    lemma_varint_round_trip(data, pos + 4 + 2 * range.spec_width(), header.color_count);
    let (parsed, _) = spec_parse_header(data, pos).unwrap();
    assert(parsed.magic == header.magic);
}

/// The largest coordinate of the 16-bit range.
pub const MAX_DEFAULT_COORDINATE: u32 = 0x7FFF;

/// Whether an image of the size `limit` still fits the 16-bit coordinate range
/// with `scale` fraction bits.
pub open spec fn scale_fits(limit: u32, scale: nat) -> bool {
    limit * pow2(scale) <= MAX_DEFAULT_COORDINATE
}

/// Chooses the scale for an image of the given size in the 16-bit coordinate
/// range: the most fraction bits, up to 15, with which the larger of width and
/// height still fits. Where it does not fit even without fraction bits, the
/// scale is 0.
pub fn choose_scale(width: u32, height: u32) -> (scale: u8)
    ensures
        scale <= 15,
        scale > 0 ==> scale_fits(if width >= height { width } else { height }, scale as nat),
        scale < 15 ==> !scale_fits(
            if width >= height { width } else { height },
            (scale + 1) as nat,
        ),
        width > MAX_DEFAULT_COORDINATE || height > MAX_DEFAULT_COORDINATE ==> scale == 0,
{
    let limit = if width >= height {
        width
    } else {
        height
    };
    let mut scale: u8 = 0;
    let mut scaled: u64 = limit as u64;
    proof {
        lemma2_to64();
    }
    while scale < 15 && scaled * 2 <= MAX_DEFAULT_COORDINATE as u64
        invariant
            scale <= 15,
            limit == if width >= height { width } else { height },
            scaled == limit * pow2(scale as nat),
            limit <= scaled,
            scale > 0 ==> scaled <= MAX_DEFAULT_COORDINATE,
            scaled <= u32::MAX,
        decreases 15 - scale,
    {
        proof {
            lemma_pow2_unfold((scale + 1) as nat);
            assert(limit * (2 * pow2(scale as nat)) == 2 * (limit * pow2(scale as nat)))
                by (nonlinear_arith);
        }
        scaled = scaled * 2;
        scale = scale + 1;
    }
    proof {
        if scale < 15 {
            lemma_pow2_unfold((scale + 1) as nat);
            assert(limit * (2 * pow2(scale as nat)) == 2 * (limit * pow2(scale as nat)))
                by (nonlinear_arith);
        }
    }
    scale
}

} // verus!
