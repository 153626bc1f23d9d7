//! The box in which a configuration is shown before it is written: its
//! lines, wrapped to the width of the terminal, inside a frame.
use crate::text::{chars_of, lines_of, piece, split_lines};
use vstd::prelude::*;
use vstd::string::*;

verus! {

/// The width assumed where the terminal does not tell its own.
pub const DEFAULT_TERMINAL_WIDTH: usize = 80;

/// The least width that the contents of the box are given.
pub const MIN_CONTENT_WIDTH: usize = 20;

/// How many columns the frame and its margins take.
pub const FRAME_WIDTH: usize = 4;

/// `line` cut into pieces of `width` characters; the last piece may be
/// shorter. A line that fits is its own single piece, an empty line too,
/// and a width of zero cuts nothing.
pub open spec fn chunks_of(line: Seq<char>, width: nat) -> Seq<Seq<char>>
    decreases line.len(),
{
    if line.len() <= width || width == 0 {
        seq![line]
    } else {
        seq![line.take(width as int)] + chunks_of(line.skip(width as int), width)
    }
}

/// The pieces of all of `lines`, in their order.
pub open spec fn wrapped(lines: Seq<Seq<char>>, width: nat) -> Seq<Seq<char>>
    decreases lines.len(),
{
    if lines.len() == 0 {
        seq![]
    } else {
        wrapped(lines.drop_last(), width) + chunks_of(lines.last(), width)
    }
}

/// The width of the contents of the box in a terminal of the width given:
/// four columns less than the terminal, and never less than 20.
pub open spec fn content_width_of(terminal_width: Option<u16>) -> nat {
    let terminal: int = match terminal_width {
        Some(width) => width as int,
        None => DEFAULT_TERMINAL_WIDTH as int,
    };
    if terminal - FRAME_WIDTH >= MIN_CONTENT_WIDTH {
        (terminal - FRAME_WIDTH) as nat
    } else {
        MIN_CONTENT_WIDTH as nat
    }
}

/// `count` times `c`.
pub open spec fn repeated(c: char, count: nat) -> Seq<char> {
    Seq::new(count, |i: int| c)
}

/// One row of the box: a piece of a line between the sides of the frame,
/// filled up with blanks to `width`.
pub open spec fn row_of(piece: Seq<char>, width: nat) -> Seq<char> {
    "│ "@ + piece + repeated(' ', (width - piece.len()) as nat) + " │"@
}

/// The top of the frame.
pub open spec fn top_of(width: nat) -> Seq<char> {
    "┌"@ + repeated('─', width + 2) + "┐"@
}

/// The bottom of the frame.
pub open spec fn bottom_of(width: nat) -> Seq<char> {
    "└"@ + repeated('─', width + 2) + "┘"@
}

/// The box around `text`, line by line: the top of the frame, a row for
/// each piece of each line, the bottom of the frame.
pub open spec fn box_of(text: Seq<char>, width: nat) -> Seq<Seq<char>> {
    let pieces = wrapped(lines_of(text), width);
    seq![top_of(width)] + Seq::new(pieces.len(), |i: int| row_of(pieces[i], width)) + seq![
        bottom_of(width),
    ]
}

/// The pieces of a line put together again are the line, and none of them
/// is wider than `width`.
pub proof fn lemma_chunks_fit(line: Seq<char>, width: nat)
    requires
        width > 0,
    ensures
        chunks_of(line, width).flatten() == line,
        forall|i: int|
            0 <= i < chunks_of(line, width).len() ==> (#[trigger] chunks_of(line, width)[i]).len()
                <= width,
    decreases line.len(),
{
    let chunks = chunks_of(line, width);
    if line.len() <= width {
        assert(chunks =~= seq![line]);
        assert(seq![line].drop_first() =~= Seq::<Seq<char>>::empty());
        assert(chunks.flatten() =~= line) by {
            reveal_with_fuel(Seq::flatten, 2);
        }
    } else {
        let rest = chunks_of(line.skip(width as int), width);
        lemma_chunks_fit(line.skip(width as int), width);
        assert(chunks.drop_first() =~= rest);
        assert(chunks.flatten() =~= line.take(width as int) + rest.flatten());
        assert(line.take(width as int) + line.skip(width as int) =~= line);
        assert forall|i: int| 0 <= i < chunks.len() implies (#[trigger] chunks[i]).len()
            <= width by {
            if i > 0 {
                assert(chunks[i] == rest[i - 1]);
            }
        }
    }
}

/// None of the pieces of `lines` is wider than `width`.
pub proof fn lemma_wrapped_fit(lines: Seq<Seq<char>>, width: nat)
    requires
        width > 0,
    ensures
        forall|i: int|
            0 <= i < wrapped(lines, width).len() ==> (#[trigger] wrapped(lines, width)[i]).len()
                <= width,
    decreases lines.len(),
{
    if lines.len() > 0 {
        lemma_wrapped_fit(lines.drop_last(), width);
        lemma_chunks_fit(lines.last(), width);
        let head = wrapped(lines.drop_last(), width);
        let tail = chunks_of(lines.last(), width);
        assert forall|i: int| 0 <= i < wrapped(lines, width).len() implies (#[trigger] wrapped(
            lines,
            width,
        )[i]).len() <= width by {
            if i < head.len() {
                assert(wrapped(lines, width)[i] == head[i]);
            } else {
                assert(wrapped(lines, width)[i] == tail[i - head.len()]);
            }
        }
    }
}

/// The width of the contents of the box in a terminal of the width given.
pub fn content_width(terminal_width: Option<u16>) -> (r: usize)
    ensures
        r == content_width_of(terminal_width),
        r >= MIN_CONTENT_WIDTH,
{
    let terminal: usize = match terminal_width {
        Some(width) => width as usize,
        None => DEFAULT_TERMINAL_WIDTH,
    };
    if terminal >= FRAME_WIDTH + MIN_CONTENT_WIDTH {
        terminal - FRAME_WIDTH
    } else {
        MIN_CONTENT_WIDTH
    }
}

/// `line` cut into pieces of `width` characters; a width of zero leaves it
/// whole.
pub fn chunk_line(line: &str, width: usize) -> (r: Vec<String>)
    ensures
        r.deep_view() == chunks_of(line@, width as nat),
{
    let chars = chars_of(line);
    let len: usize = chars.len();
    let mut chunks: Vec<String> = Vec::new();
    let mut pos: usize = 0;
    assert(line@.skip(0) =~= line@);
    while width > 0 && len - pos > width
        invariant
            chars@ == line@,
            len == chars@.len(),
            pos <= len,
            chunks_of(line@, width as nat) == chunks.deep_view() + chunks_of(
                line@.skip(pos as int),
                width as nat,
            ),
        decreases len - pos,
    {
        let ghost before = chunks.deep_view();
        let ghost rest = line@.skip(pos as int);
        chunks.push(piece(line, pos, pos + width));
        proof {
            assert(rest.take(width as int) =~= line@.subrange(pos as int, pos + width));
            assert(chunks.deep_view() =~= before.push(rest.take(width as int)));
            assert(rest.skip(width as int) =~= line@.skip(pos + width));
        }
        pos += width;
    }
    let ghost before = chunks.deep_view();
    chunks.push(piece(line, pos, len));
    proof {
        let rest = line@.skip(pos as int);
        assert(rest =~= line@.subrange(pos as int, len as int));
        assert(chunks.deep_view() =~= before + seq![rest]);
    }
    chunks
}

/// The pieces of the lines of `text`, in their order.
pub fn wrap_text(text: &str, width: usize) -> (r: Vec<String>)
    ensures
        r.deep_view() == wrapped(lines_of(text@), width as nat),
{
    let lines = split_lines(text);
    let mut pieces: Vec<String> = Vec::new();
    let mut i: usize = 0;
    assert(lines.deep_view().take(0) =~= Seq::<Seq<char>>::empty());
    while i < lines.len()
        invariant
            i <= lines@.len(),
            pieces.deep_view() == wrapped(lines.deep_view().take(i as int), width as nat),
        decreases lines@.len() - i,
    {
        let ghost before = pieces.deep_view();
        let mut chunks = chunk_line(lines[i].as_str(), width);
        let ghost added = chunks.deep_view();
        pieces.append(&mut chunks);
        proof {
            let upto = lines.deep_view().take(i + 1);
            assert(upto.drop_last() =~= lines.deep_view().take(i as int));
            assert(upto.last() == lines@[i as int]@);
            assert(pieces.deep_view() =~= before + added);
        }
        i += 1;
    }
    assert(lines.deep_view().take(i as int) =~= lines.deep_view());
    pieces
}

/// `count` times the character that is all of `unit`, added to `text`.
fn push_repeated(text: &mut String, unit: &str, count: usize, Ghost(c): Ghost<char>)
    requires
        unit@ == seq![c],
    ensures
        final(text)@ == old(text)@ + repeated(c, count as nat),
{
    let ghost start = text@;
    let mut i: usize = 0;
    assert(start + repeated(c, 0) =~= start);
    while i < count
        invariant
            i <= count,
            unit@ == seq![c],
            text@ == start + repeated(c, i as nat),
        decreases count - i,
    {
        text.append(unit);
        assert(text@ =~= start + repeated(c, (i + 1) as nat));
        i += 1;
    }
}

/// The box around `text` in a terminal of the width given, line by line
/// and without colours.
pub fn boxed(text: &str, terminal_width: Option<u16>) -> (r: Vec<String>)
    ensures
        r.deep_view() == box_of(text@, content_width_of(terminal_width)),
{
    let width = content_width(terminal_width);
    let pieces = wrap_text(text, width);
    proof {
        lemma_wrapped_fit(lines_of(text@), width as nat);
        reveal_strlit("─");
        reveal_strlit(" ");
        assert("─"@ =~= seq!['─']);
        assert(" "@ =~= seq![' ']);
    }
    let mut lines: Vec<String> = Vec::new();
    let mut top = String::from_str("┌");
    push_repeated(&mut top, "─", width + 2, Ghost('─'));
    top.append("┐");
    lines.push(top);
    let ghost rows = Seq::new(
        pieces.deep_view().len(),
        |i: int| row_of(pieces.deep_view()[i], width as nat),
    );
    let mut i: usize = 0;
    assert(lines.deep_view() =~= seq![top_of(width as nat)] + rows.take(0));
    while i < pieces.len()
        invariant
            i <= pieces@.len(),
            " "@ == seq![' '],
            pieces.deep_view() == wrapped(lines_of(text@), width as nat),
            forall|j: int|
                0 <= j < pieces.deep_view().len() ==> (#[trigger] pieces.deep_view()[j]).len()
                    <= width,
            rows == Seq::new(
                pieces.deep_view().len(),
                |i: int| row_of(pieces.deep_view()[i], width as nat),
            ),
            lines.deep_view() == seq![top_of(width as nat)] + rows.take(i as int),
        decreases pieces@.len() - i,
    {
        let ghost before = lines.deep_view();
        let piece = pieces[i].as_str();
        let used = piece.unicode_len();
        let mut row = String::from_str("│ ");
        row.append(piece);
        assert(pieces.deep_view()[i as int] == piece@);
        push_repeated(&mut row, " ", width - used, Ghost(' '));
        row.append(" │");
        lines.push(row);
        proof {
            assert(pieces.deep_view()[i as int] == piece@);
            assert(row@ == row_of(piece@, width as nat));
            assert(rows.take(i + 1) =~= rows.take(i as int).push(rows[i as int]));
            assert(lines.deep_view() =~= before.push(rows[i as int]));
        }
        i += 1;
    }
    let ghost before = lines.deep_view();
    let mut bottom = String::from_str("└");
    push_repeated(&mut bottom, "─", width + 2, Ghost('─'));
    bottom.append("┘");
    lines.push(bottom);
    proof {
        assert(rows.take(i as int) =~= rows);
        assert(lines.deep_view() =~= before.push(bottom_of(width as nat)));
    }
    lines
}

} // verus!
