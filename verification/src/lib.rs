//! A codec for the TinyVG binary vector-graphics format.
//!
//! A document is a header, a colour table and a list of draw commands.
//! [`TinyVg::from_bytes`] reads one from untrusted bytes and
//! [`TinyVg::to_bytes`] writes one; the readers and writers of the parts are
//! public too. Reading never panics: a fault gives an error that names the part
//! in which it lies. Writing refuses what the format cannot hold.
//!
//! Every geometric quantity is kept as the signed integer that stands on the
//! wire; the header's scale says how many of its low bits are fraction bits.
//! Every colour is kept as its wire channels. No floating-point number occurs.
//!
//! Each part of the format has a reading and a writing as mathematical
//! functions on byte sequences, next to the code that is proved to compute
//! them; `lemma_document_round_trip` states that reading undoes writing.
//!
//! - `cursor`, `endian`, `wire`: reading positions, byte order, and what it
//!   means to read and write in agreement with the format.
//! - `common`: variable-length numbers, sizes and coordinates.
//! - `header`, `color_table`: the two parts in front of the commands.
//! - `commands`: the document model.
//! - `geometry`, `style`, `curves`, `path`, `text`: the parts of a command.
//! - `draw`, `stream`: commands, and the stream of them that ends a document.
use crate::color_table::{
    color_table_bytes, color_table_writable, lemma_color_table_round_trip, parse_color_table,
    spec_parse_color_table, write_color_table, Color, ColorTable,
};
use crate::commands::{command_views, DrawCommand, DrawCommandView};
use crate::cursor::ByteCursor;
use crate::header::{lemma_header_round_trip, spec_parse_header, write_header, TinyVgHeader};
use crate::stream::{
    commands_bytes, commands_fit, lemma_commands_round_trip, parse_draw_commands,
    spec_parse_commands, write_draw_commands, write_end, END_OF_DOCUMENT,
};
use crate::wire::{holds_at, lemma_holds_at_concat};
use vstd::prelude::*;

pub mod color_table;
pub mod commands;
pub mod common;
pub mod cursor;
pub mod curves;
pub mod draw;
pub mod endian;
pub mod geometry;
pub mod header;
pub mod path;
pub mod stream;
pub mod style;
pub mod text;
pub mod wire;

verus! {

/// Why a document could not be read or written: the part of it that is at fault.
#[derive(Debug, Clone, Copy, PartialEq, Eq, Structural)]
pub enum TinyVgParseError {
    InvalidHeader,
    InvalidColorTable,
    InvalidCommand,
}

/// A document: its header, its colour table and its commands in drawing order.
#[derive(Debug, Clone, PartialEq, Eq)]
pub struct TinyVg {
    pub header: TinyVgHeader,
    pub color_table: ColorTable,
    pub draw_commands: Vec<DrawCommand>,
}

/// A document as a mathematical value.
pub struct TinyVgView {
    pub header: TinyVgHeader,
    pub color_table: Seq<Color>,
    pub draw_commands: Seq<DrawCommandView>,
}

impl View for TinyVg {
    type V = TinyVgView;

    open spec fn view(&self) -> TinyVgView {
        TinyVgView {
            header: self.header,
            color_table: self.color_table@,
            draw_commands: command_views(self.draw_commands@),
        }
    }
}

impl TinyVgView {
    /// Whether the document is one that the format can hold: its header is
    /// well formed and counts the colours of the table, the lists of its
    /// commands are not empty, those of an outlined shape have at most 64 items,
    /// every coordinate fits the coordinate range, and a text hint counts as
    /// many glyphs as it has offsets.
    pub open spec fn well_formed(self) -> bool {
        &&& self.header.well_formed()
        &&& self.header.color_count == self.color_table.len()
        &&& commands_fit(self.draw_commands, self.header.coordinate_range)
    }
}

/// The document that `data` holds, or the part of it that is at fault: the
/// header, then as many colours as the header counts, then the commands up to
/// the end of the document. What follows the end of the document is not
/// looked at.
pub open spec fn spec_decode(data: Seq<u8>) -> Result<TinyVgView, TinyVgParseError> {
    match spec_parse_header(data, 0) {
        None => Err(TinyVgParseError::InvalidHeader),
        Some((header, after_header)) => match spec_parse_color_table(
            data,
            after_header,
            header.color_encoding,
            header.color_count as nat,
        ) {
            None => Err(TinyVgParseError::InvalidColorTable),
            Some((color_table, after_colors)) => match spec_parse_commands(
                data,
                after_colors,
                header.coordinate_range,
            ) {
                None => Err(TinyVgParseError::InvalidCommand),
                Some((draw_commands, _)) => Ok(TinyVgView { header, color_table, draw_commands }),
            },
        },
    }
}

/// The bytes of a document, or the part of it that cannot be written: the
/// header, where it is not well formed; the colour table, where it has another
/// number of colours than the header counts or cannot be written; a command,
/// where one cannot be written.
pub open spec fn spec_encode(document: TinyVgView) -> Result<Seq<u8>, TinyVgParseError> {
    if !document.header.well_formed() {
        Err(TinyVgParseError::InvalidHeader)
    } else if document.header.color_count != document.color_table.len()
        || !color_table_writable(document.header.color_encoding, document.color_table) {
        Err(TinyVgParseError::InvalidColorTable)
    } else if !commands_fit(document.draw_commands, document.header.coordinate_range) {
        Err(TinyVgParseError::InvalidCommand)
    } else {
        Ok(
            document.header.bytes() + color_table_bytes(document.color_table) + commands_bytes(
                document.draw_commands,
                document.header.coordinate_range,
            ) + seq![END_OF_DOCUMENT],
        )
    }
}

impl TinyVg {
    /// Reads a document from its bytes.
    ///
    /// The first fault ends the reading, and the error names the part in which
    /// it lies; no part of a faulty document is returned. A document that was
    /// read is well formed.
    pub fn from_bytes(data: &[u8]) -> (r: Result<TinyVg, TinyVgParseError>)
        ensures
            match r {
                Ok(document) => spec_decode(data@) == Ok::<TinyVgView, TinyVgParseError>(
                    document@,
                ),
                Err(e) => spec_decode(data@) == Err::<TinyVgView, TinyVgParseError>(e),
            },
            r matches Ok(document) ==> document@.well_formed(),
    {
        let mut cursor = ByteCursor::new(data);
        let header = TinyVgHeader::parse(&mut cursor)?;
        let color_table = parse_color_table(&mut cursor, &header)?;
        let draw_commands = parse_draw_commands(&mut cursor, &header)?;
        Ok(TinyVg { header, color_table, draw_commands })
    }

    /// Writes the document: header, colour table, commands and the end of the
    /// document.
    ///
    /// The first part that cannot be written ends the writing, and the error
    /// names it; no bytes are returned then.
    pub fn to_bytes(&self) -> (r: Result<Vec<u8>, TinyVgParseError>)
        ensures
            match r {
                Ok(bytes) => spec_encode(self@) == Ok::<Seq<u8>, TinyVgParseError>(bytes@),
                Err(e) => spec_encode(self@) == Err::<Seq<u8>, TinyVgParseError>(e),
            },
    {
        let mut out: Vec<u8> = Vec::new();
        write_header(&self.header, &mut out)?;
        if self.color_table.len() as u64 != self.header.color_count {
            return Err(TinyVgParseError::InvalidColorTable);
        }
        write_color_table(&mut out, &self.header, self.color_table.as_slice())?;
        write_draw_commands(&mut out, &self.header, &self.draw_commands)?;
        let _ = write_end(&mut out);
        Ok(out)
    }
}

/// The documents that can be written are the well-formed ones whose colours
/// can be written. So a document that was read can be written again where its
/// colour table is in the binary32 encoding.
pub proof fn lemma_well_formed_can_be_written(document: TinyVgView)
    ensures
        spec_encode(document) is Ok <==> document.well_formed() && color_table_writable(
            document.header.color_encoding,
            document.color_table,
        ),
{
}

/// Reading undoes writing: the bytes of a document that can be written,
/// whatever follows them, are read back as that document.
pub proof fn lemma_document_round_trip(document: TinyVgView, rest: Seq<u8>)
    requires
        spec_encode(document) is Ok,
    ensures
        spec_decode(spec_encode(document).unwrap() + rest) == Ok::<TinyVgView, TinyVgParseError>(
            document,
        ),
{
    let range = document.header.coordinate_range;
    let header = document.header.bytes();
    let colors = color_table_bytes(document.color_table);
    let commands = commands_bytes(document.draw_commands, range) + seq![END_OF_DOCUMENT];
    let bytes = spec_encode(document).unwrap();
    let data = bytes + rest;
    assert(bytes =~= header + colors + commands);
    assert(holds_at(data, 0, header + colors + commands)) by {
        assert(data.subrange(0, bytes.len() as int) =~= bytes);
    }
    lemma_holds_at_concat(data, 0, header + colors, commands);
    lemma_holds_at_concat(data, 0, header, colors);
    lemma_header_round_trip(data, 0, document.header);
    lemma_color_table_round_trip(data, header.len() as int, document.color_table);
    lemma_commands_round_trip(
        data,
        (header.len() + colors.len()) as int,
        range,
        document.draw_commands,
    );
}

} // verus!
