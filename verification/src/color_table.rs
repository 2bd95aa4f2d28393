//! The colour table: the palette that styles index into.
use crate::cursor::ByteCursor;
use crate::endian::{
    le_u16_value, le_u32_bytes, le_u32_value, lemma_le_u32_round_trip, read_u16_le, read_u32_le,
    u32_le,
};
use crate::header::{ColorEncoding, TinyVgHeader};
use crate::wire::{
    all_of, concat_all, holds_at, lemma_concat_all_push, lemma_holds_at_concat,
    lemma_parse_n_none, lemma_parse_n_round_trip, lemma_parse_n_step, parse_n, reads,
    reads_back, reads_view, undo, writes,
};
use crate::TinyVgParseError;
use vstd::prelude::*;

verus! {

/// One colour of the table, with the channels as they stand on the wire.
///
/// The intensity of a channel is its number divided by the largest number of
/// its width: 255 for the channels of `Rgba8888`, 31 for red and blue and 63
/// for green of `Rgb565`, which is always opaque. The channels of `RgbaF32` are
/// the bit patterns of IEEE 754 binary32 numbers, intensities as they are.
#[derive(Debug, Clone, Copy, PartialEq, Eq, Structural)]
pub enum Color {
    Rgba8888 { red: u8, green: u8, blue: u8, alpha: u8 },
    Rgb565 { red: u8, green: u8, blue: u8 },
    RgbaF32 { red_bits: u32, green_bits: u32, blue_bits: u32, alpha_bits: u32 },
}

/// The palette of a document, in the order of the indices.
pub type ColorTable = Vec<Color>;

impl Color {
    /// Whether the colour can be written: only the binary32 form can.
    pub open spec fn writable(self) -> bool {
        self is RgbaF32
    }

    /// The bytes of a writable colour: red, green, blue and alpha, each as
    /// four bytes, least significant first.
    pub open spec fn bytes(self) -> Seq<u8>
        recommends
            self.writable(),
    {
        match self {
            Color::RgbaF32 { red_bits, green_bits, blue_bits, alpha_bits } => le_u32_bytes(
                red_bits as int,
            ) + le_u32_bytes(green_bits as int) + le_u32_bytes(blue_bits as int) + le_u32_bytes(
                alpha_bits as int,
            ),
            _ => Seq::empty(),
        }
    }

    /// The colour at `pos` in the encoding `encoding`, and the position behind
    /// it. The custom encoding has no colours that could be read.
    pub open spec fn spec_read(data: Seq<u8>, pos: int, encoding: ColorEncoding) -> Option<
        (Color, int),
    > {
        match encoding {
            ColorEncoding::Rgba8888 => if 0 <= pos && pos + 4 <= data.len() {
                Some(
                    (
                        Color::Rgba8888 {
                            red: data[pos],
                            green: data[pos + 1],
                            blue: data[pos + 2],
                            alpha: data[pos + 3],
                        },
                        pos + 4,
                    ),
                )
            } else {
                None
            },
            ColorEncoding::Rgb565 => if 0 <= pos && pos + 2 <= data.len() {
                let word = le_u16_value(data.subrange(pos, pos + 2));
                Some(
                    (
                        Color::Rgb565 {
                            red: (word % 32) as u8,
                            green: (word / 32 % 64) as u8,
                            blue: (word / 2048 % 32) as u8,
                        },
                        pos + 2,
                    ),
                )
            } else {
                None
            },
            ColorEncoding::RgbaF32 => if 0 <= pos && pos + 16 <= data.len() {
                Some(
                    (
                        Color::RgbaF32 {
                            red_bits: le_u32_value(data.subrange(pos, pos + 4)) as u32,
                            green_bits: le_u32_value(data.subrange(pos + 4, pos + 8)) as u32,
                            blue_bits: le_u32_value(data.subrange(pos + 8, pos + 12)) as u32,
                            alpha_bits: le_u32_value(data.subrange(pos + 12, pos + 16)) as u32,
                        },
                        pos + 16,
                    ),
                )
            } else {
                None
            },
            ColorEncoding::Custom => None,
        }
    }

    /// Reads one colour in the encoding `encoding`. Fails where the data ends
    /// inside the colour, and for the custom encoding.
    pub fn read(cursor: &mut ByteCursor, encoding: &ColorEncoding) -> (r: Result<
        Color,
        TinyVgParseError,
    >)
        ensures
            reads(
                *old(cursor),
                *final(cursor),
                r,
                Color::spec_read(old(cursor).data@, old(cursor).position as int, *encoding),
                TinyVgParseError::InvalidColorTable,
            ),
    {
        let mut c = *cursor;
        match encoding {
            ColorEncoding::Rgba8888 => {
                let bytes = match c.read_bytes(4) {
                    Some(bytes) => bytes,
                    None => {
                        return Err(TinyVgParseError::InvalidColorTable);
                    },
                };
                *cursor = c;
                Ok(
                    Color::Rgba8888 {
                        red: bytes[0],
                        green: bytes[1],
                        blue: bytes[2],
                        alpha: bytes[3],
                    },
                )
            },
            ColorEncoding::Rgb565 => {
                let bytes = match c.read_bytes(2) {
                    Some(bytes) => bytes,
                    None => {
                        return Err(TinyVgParseError::InvalidColorTable);
                    },
                };
                let word = read_u16_le(bytes);
                proof {
                    assert(word & 31 == word % 32) by (bit_vector);
                    assert((word >> 5) & 63 == word / 32 % 64) by (bit_vector);
                    assert((word >> 11) & 31 == word / 2048 % 32) by (bit_vector);
                }
                let red = (word & 31) as u8;
                let green = ((word >> 5) & 63) as u8;
                let blue = ((word >> 11) & 31) as u8;
                *cursor = c;
                Ok(Color::Rgb565 { red, green, blue })
            },
            ColorEncoding::RgbaF32 => {
                if c.remaining() < 16 {
                    return Err(TinyVgParseError::InvalidColorTable);
                }
                let red_bits = match c.read_bytes(4) {
                    Some(bytes) => read_u32_le(bytes),
                    None => {
                        return Err(TinyVgParseError::InvalidColorTable);
                    },
                };
                let green_bits = match c.read_bytes(4) {
                    Some(bytes) => read_u32_le(bytes),
                    None => {
                        return Err(TinyVgParseError::InvalidColorTable);
                    },
                };
                let blue_bits = match c.read_bytes(4) {
                    Some(bytes) => read_u32_le(bytes),
                    None => {
                        return Err(TinyVgParseError::InvalidColorTable);
                    },
                };
                let alpha_bits = match c.read_bytes(4) {
                    Some(bytes) => read_u32_le(bytes),
                    None => {
                        return Err(TinyVgParseError::InvalidColorTable);
                    },
                };
                *cursor = c;
                Ok(Color::RgbaF32 { red_bits, green_bits, blue_bits, alpha_bits })
            },
            ColorEncoding::Custom => Err(TinyVgParseError::InvalidColorTable),
        }
    }

    /// Writes one colour in the binary32 encoding. Fails, and writes nothing,
    /// where the colour is of another form.
    pub fn write(&self, out: &mut Vec<u8>) -> (r: Result<(), TinyVgParseError>)
        ensures
            writes(
                old(out)@,
                final(out)@,
                r,
                self.writable(),
                self.bytes(),
                TinyVgParseError::InvalidColorTable,
            ),
    {
        match self {
            Color::RgbaF32 { red_bits, green_bits, blue_bits, alpha_bits } => {
                push_u32(out, *red_bits);
                push_u32(out, *green_bits);
                push_u32(out, *blue_bits);
                push_u32(out, *alpha_bits);
                assert(out@ =~= old(out)@ + self.bytes());
                Ok(())
            },
            _ => Err(TinyVgParseError::InvalidColorTable),
        }
    }

    /// A colour that was written is read back as it was.
    pub proof fn lemma_round_trip(self, data: Seq<u8>, pos: int)
        requires
            self.writable(),
            holds_at(data, pos, self.bytes()),
        ensures
            self.bytes().len() == 16,
            Color::spec_read(data, pos, ColorEncoding::RgbaF32) == Some((self, pos + 16)),
    {
        match self {
            Color::RgbaF32 { red_bits, green_bits, blue_bits, alpha_bits } => {
                let r = le_u32_bytes(red_bits as int);
                let g = le_u32_bytes(green_bits as int);
                let b = le_u32_bytes(blue_bits as int);
                let a = le_u32_bytes(alpha_bits as int);
                lemma_le_u32_round_trip(red_bits as int);
                lemma_le_u32_round_trip(green_bits as int);
                lemma_le_u32_round_trip(blue_bits as int);
                lemma_le_u32_round_trip(alpha_bits as int);
                lemma_holds_at_concat(data, pos, r + g + b, a);
                lemma_holds_at_concat(data, pos, r + g, b);
                lemma_holds_at_concat(data, pos, r, g);
            },
            _ => {},
        }
    }
}

/// Appends the four bytes of `value`, least significant first.
fn push_u32(out: &mut Vec<u8>, value: u32)
    ensures
        final(out)@ == old(out)@ + le_u32_bytes(value as int),
{
    let bytes = u32_le(value);
    out.push(bytes[0]);
    out.push(bytes[1]);
    out.push(bytes[2]);
    out.push(bytes[3]);
}

/// How one colour is read in the encoding `encoding`.
pub open spec fn color_reader(encoding: ColorEncoding) -> spec_fn(Seq<u8>, int) -> Option<
    (Color, int),
> {
    |data: Seq<u8>, pos: int| Color::spec_read(data, pos, encoding)
}

/// How one colour is written.
pub open spec fn color_writer() -> spec_fn(Color) -> Seq<u8> {
    |color: Color| color.bytes()
}

/// Which colours can be written.
pub open spec fn color_writable() -> spec_fn(Color) -> bool {
    |color: Color| color.writable()
}

/// The colour table of `count` colours at `pos` in the encoding `encoding`,
/// and the position behind it.
pub open spec fn spec_parse_color_table(
    data: Seq<u8>,
    pos: int,
    encoding: ColorEncoding,
    count: nat,
) -> Option<(Seq<Color>, int)> {
    parse_n(color_reader(encoding), data, pos, count)
}

/// The bytes of the colours, one behind the other.
pub open spec fn color_table_bytes(colors: Seq<Color>) -> Seq<u8> {
    concat_all(color_writer(), colors)
}

/// Whether a colour table can be written under a header with the encoding
/// `encoding`: the encoding is binary32 and so is every colour.
pub open spec fn color_table_writable(encoding: ColorEncoding, colors: Seq<Color>) -> bool {
    encoding == ColorEncoding::RgbaF32 && all_of(color_writable(), colors)
}

/// Reads the colour table: as many colours as the header counts, in the
/// encoding that the header names.
///
/// Fails with `InvalidColorTable` where the data ends inside the table, or
/// where the table has a colour and the encoding is the custom one.
pub fn parse_color_table(cursor: &mut ByteCursor, header: &TinyVgHeader) -> (r: Result<
    ColorTable,
    TinyVgParseError,
>)
    ensures
        reads_view(
            *old(cursor),
            *final(cursor),
            r,
            spec_parse_color_table(
                old(cursor).data@,
                old(cursor).position as int,
                header.color_encoding,
                header.color_count as nat,
            ),
            TinyVgParseError::InvalidColorTable,
        ),
        r matches Ok(colors) ==> colors@.len() == header.color_count,
{
    let mut c = *cursor;
    let mut colors: Vec<Color> = Vec::new();
    let mut i: u64 = 0;
    let ghost one = color_reader(header.color_encoding);
    let ghost data = cursor.data@;
    let ghost start = cursor.position as int;
    while i < header.color_count
        invariant
            i <= header.color_count,
            *cursor == *old(cursor),
            data == old(cursor).data@,
            start == old(cursor).position,
            one == color_reader(header.color_encoding),
            c.data@ == data,
            old(cursor).position <= c.position,
            colors@.len() == i,
            parse_n(one, data, start, i as nat) == Some((colors@, c.position as int)),
        decreases header.color_count - i,
    {
        proof {
            lemma_parse_n_step(one, data, start, i as nat);
        }
        match Color::read(&mut c, &header.color_encoding) {
            Ok(color) => colors.push(color),
            Err(e) => {
                proof {
                    lemma_parse_n_none(
                        one,
                        data,
                        start,
                        (i + 1) as nat,
                        header.color_count as nat,
                    );
                }
                return Err(e);
            },
        }
        i = i + 1;
    }
    *cursor = c;
    Ok(colors)
}

/// Writes the colours of a table one behind the other.
///
/// Only the binary32 encoding can be written: the write fails with
/// `InvalidColorTable` where the header names another encoding or a colour is
/// of another form.
pub fn write_color_table(out: &mut Vec<u8>, header: &TinyVgHeader, colors: &[Color]) -> (r: Result<
    (),
    TinyVgParseError,
>)
    ensures
        writes(
            old(out)@,
            final(out)@,
            r,
            color_table_writable(header.color_encoding, colors@),
            color_table_bytes(colors@),
            TinyVgParseError::InvalidColorTable,
        ),
{
    match header.color_encoding {
        ColorEncoding::RgbaF32 => {},
        _ => {
            return Err(TinyVgParseError::InvalidColorTable);
        },
    }
    let mark = out.len();
    let mut i: usize = 0;
    while i < colors.len()
        invariant
            i <= colors.len(),
            mark == old(out)@.len(),
            all_of(color_writable(), colors@.take(i as int)),
            out@ == old(out)@ + color_table_bytes(colors@.take(i as int)),
        decreases colors.len() - i,
    {
        if let Err(e) = colors[i].write(out) {
            return undo(out, mark, e);
        }
        proof {
            assert(colors@.take(i + 1) =~= colors@.take(i as int).push(colors@[i as int]));
            lemma_concat_all_push(color_writer(), colors@.take(i as int), colors@[i as int]);
        }
        i = i + 1;
    }
    assert(colors@.take(colors.len() as int) =~= colors@);
    Ok(())
}

/// A colour table that was written is read back as it was.
pub proof fn lemma_color_table_round_trip(data: Seq<u8>, pos: int, colors: Seq<Color>)
    requires
        all_of(color_writable(), colors),
        holds_at(data, pos, color_table_bytes(colors)),
    ensures
        spec_parse_color_table(data, pos, ColorEncoding::RgbaF32, colors.len()) == Some(
            (colors, pos + color_table_bytes(colors).len()),
        ),
{
    let one = color_reader(ColorEncoding::RgbaF32);
    assert(reads_back(one, color_writer(), color_writable())) by {
        assert forall|item: Color, d: Seq<u8>, p: int|
            color_writable()(item) && #[trigger] holds_at(d, p, color_writer()(item)) implies one(
            d,
            p,
        ) == Some((item, p + color_writer()(item).len())) by {
            item.lemma_round_trip(d, p);
        }
    }
    lemma_parse_n_round_trip(one, color_writer(), color_writable(), data, pos, colors);
}

/// Finds `color` in the table, and adds it at the end where it is not there.
///
/// Returns the index of the first entry that equals `color`. A table that
/// holds the colour already is left as it was, so that equal colours share one
/// index.
pub fn set_color(color_table: &mut ColorTable, color: Color) -> (index: u64)
    ensures
        index < final(color_table)@.len(),
        final(color_table)@[index as int] == color,
        forall|i: int| 0 <= i < index ==> old(color_table)@[i] != color,
        old(color_table)@.contains(color) ==> final(color_table)@ == old(color_table)@,
        !old(color_table)@.contains(color) ==> final(color_table)@ == old(color_table)@.push(
            color,
        ),
{
    let mut i: usize = 0;
    while i < color_table.len()
        invariant
            i <= color_table.len(),
            color_table@ == old(color_table)@,
            forall|j: int| 0 <= j < i ==> color_table@[j] != color,
        decreases color_table.len() - i,
    {
        if color_table[i] == color {
            return i as u64;
        }
        i = i + 1;
    }
    color_table.push(color);
    (color_table.len() - 1) as u64
}

} // verus!
