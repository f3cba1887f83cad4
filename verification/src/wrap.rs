//! Breaking a line of styled spans into rows that fit the terminal.
//!
//! A line is laid out as rows of pieces, each piece a run of text in one
//! style. The text that is sent is the rows in order, a line break and the
//! gutter of a continued row between them.
use crate::colorize::{Colorize, ColorizePlain};
use crate::preprocessor::{expanded_tabs, preprocess, tab_column_after};
use crate::style::{Style, StyledSpan};
use vstd::arithmetic::div_mod::lemma_small_mod;
use vstd::prelude::*;

verus! {

/// A run of text in one style.
pub type Piece = (Style, Seq<char>);

/// The pieces that a vector of spans stands for.
pub open spec fn span_views(spans: Seq<StyledSpan>) -> Seq<Piece> {
    Seq::new(spans.len(), |i: int| spans[i]@)
}

/// The texts of `pieces`, one after the other.
pub open spec fn joined_text(pieces: Seq<Piece>) -> Seq<char>
    decreases pieces.len(),
{
    if pieces.len() == 0 {
        Seq::<char>::empty()
    } else {
        joined_text(pieces.drop_last()) + pieces.last().1
    }
}

/// Visible characters on a row.
pub open spec fn row_len(row: Seq<Piece>) -> nat {
    joined_text(row).len()
}

/// Whether a character ends a line.
pub open spec fn is_line_end(c: char) -> bool {
    c == '\r' || c == '\n'
}

/// `text` without the carriage returns and line feeds at its end.
pub open spec fn trimmed_line_end(text: Seq<char>) -> Seq<char>
    decreases text.len(),
{
    if text.len() > 0 && is_line_end(text.last()) {
        trimmed_line_end(text.drop_last())
    } else {
        text
    }
}

/// The text of a span as it is laid out: without its line end where
/// `trim` says so, and with tabs expanded unless `tab_width` is zero.
/// `column` is the distance from the last tab stop at which it starts.
pub open spec fn prepared_text(text: Seq<char>, tab_width: nat, trim: bool, column: nat) -> Seq<
    char,
> {
    let kept = if trim { trimmed_line_end(text) } else { text };
    if tab_width > 0 {
        expanded_tabs(kept, tab_width, column)
    } else {
        kept
    }
}

/// The distance from the last tab stop after the spans of a line; zero at
/// the start of the line.
pub open spec fn tab_column_after_spans(spans: Seq<Piece>, tab_width: nat, trim: bool) -> nat
    decreases spans.len(),
{
    if spans.len() == 0 || tab_width == 0 {
        0
    } else {
        let text = spans.last().1;
        tab_column_after(
            if trim { trimmed_line_end(text) } else { text },
            tab_width,
            tab_column_after_spans(spans.drop_last(), tab_width, trim),
        )
    }
}

/// The spans of a line as they are laid out: each with its style and its
/// prepared text, tab stops counted across the spans.
pub open spec fn prepared(spans: Seq<Piece>, tab_width: nat, trim: bool) -> Seq<Piece> {
    Seq::new(
        spans.len(),
        |i: int|
            (
                spans[i].0,
                prepared_text(
                    spans[i].1,
                    tab_width,
                    trim,
                    tab_column_after_spans(spans.take(i), tab_width, trim),
                ),
            ),
    )
}

/// `rows` with `piece` at the end of the last row.
pub open spec fn with_piece(rows: Seq<Seq<Piece>>, piece: Piece) -> Seq<Seq<Piece>>
    recommends
        rows.len() > 0,
{
    rows.drop_last().push(rows.last().push(piece))
}

/// Columns still free on the last of `rows`.
pub open spec fn available(rows: Seq<Seq<Piece>>, width: nat) -> nat
    recommends
        rows.len() > 0,
{
    if row_len(rows.last()) >= width {
        0
    } else {
        (width - row_len(rows.last())) as nat
    }
}

/// `rows` with `text` placed after them in `style`. What fits goes on the
/// last row; where the text does not fit, the part that does ends the row,
/// and the rest goes on from the start of a new row. A width of zero leaves
/// no row to break into: the text then stays on the last row whole.
pub open spec fn placed(rows: Seq<Seq<Piece>>, style: Style, text: Seq<char>, width: nat) -> Seq<
    Seq<Piece>,
>
    recommends
        rows.len() > 0,
    decreases text.len(), row_len(rows.last()),
{
    if text.len() == 0 {
        rows
    } else if width == 0 || text.len() <= available(rows, width) {
        with_piece(rows, (style, text))
    } else {
        let fits = available(rows, width) as int;
        placed(
            with_piece(rows, (style, text.take(fits))).push(Seq::<Piece>::empty()),
            style,
            text.skip(fits),
            width,
        )
    }
}

/// The rows of a line: its pieces placed one after the other, from one
/// empty row.
pub open spec fn wrapped_rows(pieces: Seq<Piece>, width: nat) -> Seq<Seq<Piece>>
    decreases pieces.len(),
{
    if pieces.len() == 0 {
        seq![Seq::<Piece>::empty()]
    } else {
        placed(
            wrapped_rows(pieces.drop_last(), width),
            pieces.last().0,
            pieces.last().1,
            width,
        )
    }
}

/// The pieces of a row as the protocol shows them, one after the other.
pub open spec fn pieces_text(colorize: Colorize, pieces: Seq<Piece>) -> Seq<char>
    decreases pieces.len(),
{
    if pieces.len() == 0 {
        Seq::<char>::empty()
    } else {
        pieces_text(colorize, pieces.drop_last()) + colorize.region_text(
            pieces.last().0,
            pieces.last().1,
        )
    }
}

/// Rows as they are sent: each row's pieces, with `row_break` between one
/// row and the next.
pub open spec fn rows_text(colorize: Colorize, rows: Seq<Seq<Piece>>, row_break: Seq<char>) -> Seq<
    char,
>
    decreases rows.len(),
{
    if rows.len() == 0 {
        Seq::<char>::empty()
    } else if rows.len() == 1 {
        pieces_text(colorize, rows[0])
    } else {
        rows_text(colorize, rows.drop_last(), row_break) + row_break + pieces_text(
            colorize,
            rows.last(),
        )
    }
}

/// All text on `rows`, row after row, without anything between the rows.
pub open spec fn rows_joined_text(rows: Seq<Seq<Piece>>) -> Seq<char>
    decreases rows.len(),
{
    if rows.len() == 0 {
        Seq::<char>::empty()
    } else {
        rows_joined_text(rows.drop_last()) + joined_text(rows.last())
    }
}

/// Adding a piece to the last row adds its text, as the protocol shows
/// it, to what is sent.
pub proof fn lemma_with_piece_text(
    colorize: Colorize,
    rows: Seq<Seq<Piece>>,
    piece: Piece,
    row_break: Seq<char>,
)
    requires
        rows.len() > 0,
    ensures
        rows_text(colorize, with_piece(rows, piece), row_break) == rows_text(
            colorize,
            rows,
            row_break,
        ) + colorize.region_text(piece.0, piece.1),
{
    let grown = with_piece(rows, piece);
    assert(grown.drop_last() =~= rows.drop_last());
    assert(grown.last().drop_last() =~= rows.last());
    if rows.len() > 1 {
        assert(rows_text(colorize, grown, row_break) =~= rows_text(colorize, rows, row_break)
            + colorize.region_text(piece.0, piece.1));
    }
}

/// Adding a piece to the last row adds its characters to that row and
/// leaves the rows before it as they are.
pub proof fn lemma_with_piece_rows(rows: Seq<Seq<Piece>>, piece: Piece)
    requires
        rows.len() > 0,
    ensures
        with_piece(rows, piece).len() == rows.len(),
        rows_joined_text(with_piece(rows, piece)) == rows_joined_text(rows) + piece.1,
        row_len(with_piece(rows, piece).last()) == row_len(rows.last()) + piece.1.len(),
        forall|i: int| 0 <= i < rows.len() - 1 ==> with_piece(rows, piece)[i] == rows[i],
{
    let grown = with_piece(rows, piece);
    assert(grown.drop_last() =~= rows.drop_last());
    assert(grown.last().drop_last() =~= rows.last());
}

/// Starting a new row adds the row break to what is sent.
pub proof fn lemma_new_row_text(colorize: Colorize, rows: Seq<Seq<Piece>>, row_break: Seq<char>)
    requires
        rows.len() > 0,
    ensures
        rows_text(colorize, rows.push(Seq::<Piece>::empty()), row_break) == rows_text(
            colorize,
            rows,
            row_break,
        ) + row_break,
{
    let grown = rows.push(Seq::<Piece>::empty());
    assert(grown.drop_last() =~= rows);
    assert(rows_text(colorize, grown, row_break) =~= rows_text(colorize, rows, row_break)
        + row_break);
}

/// A new row is empty and adds no text.
pub proof fn lemma_new_row_rows(rows: Seq<Seq<Piece>>)
    ensures
        rows_joined_text(rows.push(Seq::<Piece>::empty())) == rows_joined_text(rows),
        row_len(rows.push(Seq::<Piece>::empty()).last()) == 0,
{
    let grown = rows.push(Seq::<Piece>::empty());
    assert(grown.drop_last() =~= rows);
}

/// Placing text keeps every row within the width, and loses and adds no
/// character.
pub proof fn lemma_placed(rows: Seq<Seq<Piece>>, style: Style, text: Seq<char>, width: nat)
    requires
        rows.len() > 0,
    ensures
        placed(rows, style, text, width).len() >= rows.len(),
        rows_joined_text(placed(rows, style, text, width)) == rows_joined_text(rows) + text,
        width > 0 && (forall|i: int| 0 <= i < rows.len() ==> row_len(#[trigger] rows[i]) <= width)
            ==> (forall|i: int|
            0 <= i < placed(rows, style, text, width).len() ==> row_len(
                #[trigger] placed(rows, style, text, width)[i],
            ) <= width),
    decreases text.len(), row_len(rows.last()),
{
    if text.len() == 0 {
        // Nothing is placed.
    } else if width == 0 || text.len() <= available(rows, width) {
        // The text goes on the last row, which has room for it.
        lemma_with_piece_rows(rows, (style, text));
    } else {
        // The last row is filled up, and the rest is placed from a new row.
        let fits = available(rows, width) as int;
        let filled = with_piece(rows, (style, text.take(fits)));
        lemma_with_piece_rows(rows, (style, text.take(fits)));
        lemma_new_row_rows(filled);
        lemma_placed(filled.push(Seq::<Piece>::empty()), style, text.skip(fits), width);
    }
}

/// Whether every row but the last holds exactly `width` visible
/// characters, and the last at most as many.
pub open spec fn rows_filled(rows: Seq<Seq<Piece>>, width: nat) -> bool {
    &&& rows.len() > 0
    &&& forall|i: int| 0 <= i < rows.len() - 1 ==> row_len(#[trigger] rows[i]) == width
    &&& row_len(rows.last()) <= width
}

/// Placing text starts a new row only once the row before it is full.
pub proof fn lemma_placed_fills_rows(
    rows: Seq<Seq<Piece>>,
    style: Style,
    text: Seq<char>,
    width: nat,
)
    requires
        width > 0,
        rows_filled(rows, width),
    ensures
        rows_filled(placed(rows, style, text, width), width),
        text.len() > 0 ==> row_len(placed(rows, style, text, width).last()) > 0,
    decreases text.len(), row_len(rows.last()),
{
    if text.len() == 0 {
        // Nothing is placed.
    } else if text.len() <= available(rows, width) {
        // The text goes on the last row, which has room for it.
        lemma_with_piece_rows(rows, (style, text));
    } else {
        // The last row is filled up exactly, and the rest goes on from a new row.
        let fits = available(rows, width) as int;
        let filled = with_piece(rows, (style, text.take(fits)));
        let next = filled.push(Seq::<Piece>::empty());
        lemma_with_piece_rows(rows, (style, text.take(fits)));
        lemma_new_row_rows(filled);
        lemma_placed_fills_rows(next, style, text.skip(fits), width);
    }
}

/// In a line broken at `width` columns every row but the last holds
/// exactly `width` visible characters: a row is broken only where it is
/// full. And no row is started for nothing: if there is more than one row,
/// the last one is not empty.
pub proof fn lemma_wrapped_rows_full(pieces: Seq<Piece>, width: nat)
    requires
        width > 0,
    ensures
        rows_filled(wrapped_rows(pieces, width), width),
        wrapped_rows(pieces, width).len() > 1 ==> row_len(wrapped_rows(pieces, width).last()) > 0,
    decreases pieces.len(),
{
    if pieces.len() > 0 {
        lemma_wrapped_rows_full(pieces.drop_last(), width);
        lemma_placed_fills_rows(
            wrapped_rows(pieces.drop_last(), width),
            pieces.last().0,
            pieces.last().1,
            width,
        );
    }
}

/// In a line broken at `width` columns no row holds more than `width`
/// visible characters.
pub proof fn lemma_wrapped_rows_fit(pieces: Seq<Piece>, width: nat)
    requires
        width > 0,
    ensures
        wrapped_rows(pieces, width).len() > 0,
        forall|i: int|
            0 <= i < wrapped_rows(pieces, width).len() ==> row_len(
                #[trigger] wrapped_rows(pieces, width)[i],
            ) <= width,
    decreases pieces.len(),
{
    if pieces.len() > 0 {
        lemma_wrapped_rows_fit(pieces.drop_last(), width);
        lemma_placed(
            wrapped_rows(pieces.drop_last(), width),
            pieces.last().0,
            pieces.last().1,
            width,
        );
    }
}

/// Breaking a line into rows keeps its text: the rows, read one after the
/// other, hold the text of the pieces in order.
pub proof fn lemma_wrapped_rows_keep_text(pieces: Seq<Piece>, width: nat)
    ensures
        wrapped_rows(pieces, width).len() > 0,
        rows_joined_text(wrapped_rows(pieces, width)) == joined_text(pieces),
    decreases pieces.len(),
{
    if pieces.len() == 0 {
        // One empty row holds no text.
        assert(rows_joined_text(seq![Seq::<Piece>::empty()].drop_last()) =~= Seq::<char>::empty());
    } else {
        lemma_wrapped_rows_keep_text(pieces.drop_last(), width);
        lemma_placed(
            wrapped_rows(pieces.drop_last(), width),
            pieces.last().0,
            pieces.last().1,
            width,
        );
    }
}

/// Without colours, the pieces of a row are sent as their text.
pub proof fn lemma_plain_pieces_text(html: bool, pieces: Seq<Piece>)
    ensures
        pieces_text(Colorize::Plain(ColorizePlain { html }), pieces) == joined_text(pieces),
    decreases pieces.len(),
{
    if pieces.len() > 0 {
        lemma_plain_pieces_text(html, pieces.drop_last());
    }
}

/// `text` without the carriage returns and line feeds at its end.
pub fn trim_line_end(text: &str) -> (kept: &str)
    ensures
        kept@ == trimmed_line_end(text@),
{
    let len = text.unicode_len();
    let mut end: usize = len;
    let mut at_end: bool = true;
    proof {
        assert(text@.take(len as int) =~= text@);
    }
    while at_end && end > 0
        invariant
            end <= len,
            len == text@.len(),
            trimmed_line_end(text@) == trimmed_line_end(text@.take(end as int)),
            !at_end ==> end > 0 && !is_line_end(text@[end - 1]),
        decreases end, (if at_end { 1nat } else { 0nat }),
    {
        let c = text.get_char(end - 1);
        if c == '\r' || c == '\n' {
            proof {
                assert(text@.take(end as int).drop_last() =~= text@.take(end - 1));
            }
            end -= 1;
        } else {
            at_end = false;
        }
    }
    text.substring_char(0, end)
}

/// The spans of a line as they are laid out: line ends removed where
/// `trim` says so, tabs expanded unless `tab_width` is zero.
pub fn prepare_spans(spans: &Vec<StyledSpan>, tab_width: usize, trim: bool) -> (out: Vec<
    StyledSpan,
>)
    ensures
        span_views(out@) == prepared(span_views(spans@), tab_width as nat, trim),
{
    let ghost pieces = span_views(spans@);
    let mut out: Vec<StyledSpan> = Vec::new();
    let mut cursor: usize = 0;
    let mut i: usize = 0;
    while i < spans.len()
        invariant
            i <= spans.len(),
            pieces == span_views(spans@),
            out@.len() == i,
            cursor == tab_column_after_spans(pieces.take(i as int), tab_width as nat, trim),
            tab_width > 0 ==> cursor < tab_width,
            forall|j: int|
                0 <= j < i ==> (#[trigger] out@[j])@ == prepared(pieces, tab_width as nat, trim)[j],
        decreases spans.len() - i,
    {
        let span = &spans[i];
        let kept: &str = if trim {
            trim_line_end(span.text.as_str())
        } else {
            span.text.as_str()
        };
        proof {
            assert(pieces.take(i + 1).drop_last() =~= pieces.take(i as int));
            if tab_width > 0 {
                lemma_small_mod(cursor as nat, tab_width as nat);
            }
        }
        let text = preprocess(kept, tab_width, &mut cursor);
        out.push(StyledSpan { style: span.style, text });
        i += 1;
    }
    out
}

/// The pieces of a line as the protocol shows them, one after the other
/// on a single row.
pub fn unwrapped_line(colorize: &Colorize, pieces: &Vec<StyledSpan>) -> (out: String)
    ensures
        out@ == pieces_text(*colorize, span_views(pieces@)),
{
    let ghost all = span_views(pieces@);
    let mut out = String::new();
    let mut i: usize = 0;
    while i < pieces.len()
        invariant
            i <= pieces.len(),
            all == span_views(pieces@),
            out@ == pieces_text(*colorize, all.take(i as int)),
        decreases pieces.len() - i,
    {
        let piece = &pieces[i];
        proof {
            assert(all.take(i + 1).drop_last() =~= all.take(i as int));
        }
        let shown = colorize.region(piece.style, piece.text.as_str());
        out.append(shown.as_str());
        i += 1;
    }
    proof {
        assert(all.take(pieces.len() as int) =~= all);
    }
    out
}

/// The pieces of a line broken into rows of at most `width` visible
/// characters, with `row_break` between the rows. A piece that does not fit
/// is split at the exact character where the row is full. With a width of
/// zero the line is not broken.
pub fn wrap_line(colorize: &Colorize, pieces: &Vec<StyledSpan>, width: usize, row_break: &str) -> (out:
    String)
    ensures
        out@ == rows_text(
            *colorize,
            wrapped_rows(span_views(pieces@), width as nat),
            row_break@,
        ),
{
    let ghost all = span_views(pieces@);
    let ghost mut rows: Seq<Seq<Piece>> = seq![Seq::<Piece>::empty()];
    let mut out = String::new();
    let mut cursor: usize = 0;
    let mut i: usize = 0;
    while i < pieces.len()
        invariant
            i <= pieces.len(),
            all == span_views(pieces@),
            rows.len() > 0,
            rows == wrapped_rows(all.take(i as int), width as nat),
            out@ == rows_text(*colorize, rows, row_break@),
            width > 0 ==> cursor == row_len(rows.last()) && cursor <= width,
        decreases pieces.len() - i,
    {
        let style = pieces[i].style;
        let text = pieces[i].text.as_str();
        let len = text.unicode_len();
        let mut pos: usize = 0;
        let ghost target = placed(rows, style, text@, width as nat);
        proof {
            assert(all.take(i + 1).drop_last() =~= all.take(i as int));
            assert(text@.skip(0) =~= text@);
        }
        while pos < len
            invariant
                pos <= len,
                len == text@.len(),
                rows.len() > 0,
                placed(rows, style, text@.skip(pos as int), width as nat) == target,
                out@ == rows_text(*colorize, rows, row_break@),
                width > 0 ==> cursor == row_len(rows.last()) && cursor <= width,
            decreases len - pos, cursor,
        {
            let remaining: usize = len - pos;
            let ghost rest = text@.skip(pos as int);
            if width == 0 || remaining <= width - cursor {
                let piece = text.substring_char(pos, len);
                let shown = colorize.region(style, piece);
                out.append(shown.as_str());
                proof {
                    lemma_with_piece_text(*colorize, rows, (style, rest), row_break@);
                    lemma_with_piece_rows(rows, (style, rest));
                    rows = with_piece(rows, (style, rest));
                }
                if width > 0 {
                    cursor += remaining;
                }
                pos = len;
            } else {
                let fits: usize = width - cursor;
                let piece = text.substring_char(pos, pos + fits);
                let shown = colorize.region(style, piece);
                out.append(shown.as_str());
                out.append(row_break);
                proof {
                    assert(piece@ =~= rest.take(fits as int));
                    assert(rest.skip(fits as int) =~= text@.skip(pos + fits));
                    let filled = with_piece(rows, (style, piece@));
                    lemma_with_piece_text(*colorize, rows, (style, piece@), row_break@);
                    lemma_with_piece_rows(rows, (style, piece@));
                    lemma_new_row_text(*colorize, filled, row_break@);
                    lemma_new_row_rows(filled);
                    rows = filled.push(Seq::<Piece>::empty());
                }
                cursor = 0;
                pos += fits;
            }
        }
        i += 1;
    }
    proof {
        assert(all.take(pieces.len() as int) =~= all);
    }
    out
}

} // verus!
