//! The command stream: draw commands one behind the other, ended by a tag
//! byte that names the end of the document.
use crate::commands::{command_views, DrawCommand, DrawCommandView};
use crate::cursor::ByteCursor;
use crate::header::{CoordinateRange, TinyVgHeader};
use crate::wire::{
    all_of, concat_all, holds_at, lemma_concat_all_first, lemma_concat_all_push,
    lemma_holds_at_concat, lemma_holds_at_index, undo, writes,
};
use crate::TinyVgParseError;
use vstd::prelude::*;

verus! {

/// The byte that ends a document.
pub const END_OF_DOCUMENT: u8 = 0;

/// The commands from `pos` up to the end of the document, and the position
/// behind the tag byte that ends it. A tag byte whose bits 0 to 5 are zero
/// ends the document, whatever its bits 6 and 7 hold.
pub open spec fn spec_parse_commands(data: Seq<u8>, pos: int, range: CoordinateRange) -> Option<
    (Seq<DrawCommandView>, int),
>
    decreases (if pos < data.len() {
            data.len() - pos
        } else {
            0
        }),
{
    if 0 <= pos < data.len() {
        if data[pos] % 64 == 0 {
            Some((Seq::empty(), pos + 1))
        } else {
            match DrawCommandView::spec_read(data, pos, range) {
                Some((command, next)) => if next > pos {
                    match spec_parse_commands(data, next, range) {
                        Some((rest, end)) => Some((seq![command] + rest, end)),
                        None => None,
                    }
                } else {
                    None
                },
                None => None,
            }
        }
    } else {
        None
    }
}

/// The commands `head`, then those that are read from some later position.
pub open spec fn commands_then(
    head: Seq<DrawCommandView>,
    rest: Option<(Seq<DrawCommandView>, int)>,
) -> Option<(Seq<DrawCommandView>, int)> {
    match rest {
        Some((commands, end)) => Some((head + commands, end)),
        None => None,
    }
}

/// How one command is written in the width of `range`.
pub open spec fn draw_writer(range: CoordinateRange) -> spec_fn(DrawCommandView) -> Seq<u8> {
    |command: DrawCommandView| command.bytes(range)
}

/// Which commands can be written in the width of `range`.
pub open spec fn draw_fits(range: CoordinateRange) -> spec_fn(DrawCommandView) -> bool {
    |command: DrawCommandView| command.fits(range)
}

/// The bytes of the commands, one behind the other, without the end of the
/// document.
pub open spec fn commands_bytes(commands: Seq<DrawCommandView>, range: CoordinateRange) -> Seq<
    u8,
> {
    concat_all(draw_writer(range), commands)
}

/// Whether every command can be written in the width of `range`.
pub open spec fn commands_fit(commands: Seq<DrawCommandView>, range: CoordinateRange) -> bool {
    all_of(draw_fits(range), commands)
}

/// Reads the commands of a document up to and with the tag byte that ends it.
///
/// The result holds the commands in the order of the stream; the end of the
/// document is not among them. A stream that holds only the end of the document
/// gives an empty list. Fails with `InvalidCommand`, and gives no part of the
/// list, where a tag byte names no command or no style, where a command cannot
/// be read, or where the data ends before the end of the document.
pub fn parse_draw_commands(cursor: &mut ByteCursor, header: &TinyVgHeader) -> (r: Result<
    Vec<DrawCommand>,
    TinyVgParseError,
>)
    ensures
        final(cursor).data@ == old(cursor).data@,
        match r {
            Ok(commands) => {
                &&& spec_parse_commands(
                    old(cursor).data@,
                    old(cursor).position as int,
                    header.coordinate_range,
                ) == Some((command_views(commands@), final(cursor).position as int))
                &&& old(cursor).position < final(cursor).position
                &&& commands_fit(command_views(commands@), header.coordinate_range)
            },
            Err(e) => {
                &&& spec_parse_commands(
                    old(cursor).data@,
                    old(cursor).position as int,
                    header.coordinate_range,
                ) is None
                &&& e == TinyVgParseError::InvalidCommand
                &&& final(cursor).position == old(cursor).position
            },
        },
        old(cursor).position < old(cursor).data@.len() && old(cursor).data@[old(
            cursor,
        ).position as int] == END_OF_DOCUMENT ==> r is Ok && r.unwrap()@.len() == 0,
{
    let mut c = *cursor;
    let mut commands: Vec<DrawCommand> = Vec::new();
    let ghost data = cursor.data@;
    let ghost start = cursor.position as int;
    let ghost range = header.coordinate_range;
    loop
        invariant
            *cursor == *old(cursor),
            data == old(cursor).data@,
            start == old(cursor).position,
            range == header.coordinate_range,
            c.data@ == data,
            start <= c.position,
            start == c.position ==> commands@.len() == 0,
            commands_fit(command_views(commands@), range),
            spec_parse_commands(data, start, range) == commands_then(
                command_views(commands@),
                spec_parse_commands(data, c.position as int, range),
            ),
        decreases (if c.position < data.len() {
                data.len() - c.position
            } else {
                0
            }),
    {
        let mut peek = c;
        let tag = match peek.read_u8() {
            Some(byte) => byte,
            None => {
                return Err(TinyVgParseError::InvalidCommand);
            },
        };
        proof {
            assert(tag & 0x3F == tag % 64) by (bit_vector);
        }
        if tag & 0x3F == 0 {
            *cursor = peek;
            return Ok(commands);
        }
        let ghost before = command_views(commands@);
        match DrawCommand::read(header, &mut c) {
            Ok(command) => {
                commands.push(command);
                assert(command_views(commands@) =~= before.push(command@));
            },
            Err(e) => {
                return Err(e);
            },
        }
    }
}

/// Writes the commands in their order, each with its tag byte, without the
/// end of the document.
///
/// Fails with `InvalidCommand` where a command cannot be written: see
/// `DrawCommand::write`.
pub fn write_draw_commands(out: &mut Vec<u8>, header: &TinyVgHeader, commands: &Vec<DrawCommand>)
    -> (r: Result<(), TinyVgParseError>)
    ensures
        writes(
            old(out)@,
            final(out)@,
            r,
            commands_fit(command_views(commands@), header.coordinate_range),
            commands_bytes(command_views(commands@), header.coordinate_range),
            TinyVgParseError::InvalidCommand,
        ),
{
    let ghost range = header.coordinate_range;
    let ghost views = command_views(commands@);
    let mark = out.len();
    let mut i: usize = 0;
    while i < commands.len()
        invariant
            i <= commands.len(),
            mark == old(out)@.len(),
            range == header.coordinate_range,
            views == command_views(commands@),
            commands_fit(views.take(i as int), range),
            out@ == old(out)@ + commands_bytes(views.take(i as int), range),
        decreases commands.len() - i,
    {
        if let Err(e) = commands[i].write(header, out) {
            return undo(out, mark, e);
        }
        proof {
            assert(views.take(i + 1) =~= views.take(i as int).push(views[i as int]));
            lemma_concat_all_push(draw_writer(range), views.take(i as int), views[i as int]);
        }
        i = i + 1;
    }
    assert(views.take(commands.len() as int) =~= views);
    Ok(())
}

/// Writes the byte that ends a document. This cannot fail.
pub fn write_end(out: &mut Vec<u8>) -> (r: Result<(), TinyVgParseError>)
    ensures
        r is Ok,
        final(out)@ == old(out)@ + seq![END_OF_DOCUMENT],
{
    out.push(END_OF_DOCUMENT);
    Ok(())
}

/// A command stream that was written is read back as it was: where the bytes
/// of the commands and, behind them, the end of the document stand at `pos`,
/// reading at `pos` gives the commands and the position behind the end of the
/// document.
pub proof fn lemma_commands_round_trip(
    data: Seq<u8>,
    pos: int,
    range: CoordinateRange,
    commands: Seq<DrawCommandView>,
)
    requires
        commands_fit(commands, range),
        holds_at(data, pos, commands_bytes(commands, range) + seq![END_OF_DOCUMENT]),
    ensures
        spec_parse_commands(data, pos, range) == Some(
            (commands, pos + commands_bytes(commands, range).len() + 1),
        ),
    decreases commands.len(),
{
    let body = commands_bytes(commands, range);
    let end = seq![END_OF_DOCUMENT];
    lemma_holds_at_concat(data, pos, body, end);
    if commands.len() == 0 {
        lemma_holds_at_index(data, pos, end, 0);
    } else {
        let first = commands[0];
        let rest = commands.drop_first();
        lemma_concat_all_first(draw_writer(range), commands);
        let first_bytes = first.bytes(range);
        let rest_bytes = commands_bytes(rest, range);
        assert(body + end =~= first_bytes + (rest_bytes + end));
        lemma_holds_at_concat(data, pos, first_bytes, rest_bytes + end);
        first.lemma_round_trip(data, pos, range);
        lemma_holds_at_index(data, pos, first_bytes, 0);
        assert forall|i: int| 0 <= i < rest.len() implies draw_fits(range)(
            #[trigger] rest[i],
        ) by {}
        lemma_commands_round_trip(data, pos + first_bytes.len(), range, rest);
    }
}

} // verus!
