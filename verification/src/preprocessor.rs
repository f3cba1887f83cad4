//! Tab expansion: each tab becomes the spaces that reach the next tab stop.
use crate::text::{repeat_char, repeated};
use vstd::arithmetic::div_mod::{lemma_mod_self_0, lemma_small_mod};
use vstd::prelude::*;

verus! {

/// The column, counted from the last tab stop, that follows `text` when it
/// starts at `column`.
pub open spec fn tab_column_after(text: Seq<char>, width: nat, column: nat) -> nat
    recommends
        width > 0,
    decreases text.len(),
{
    if text.len() == 0 {
        column
    } else if text.last() == '\t' {
        0
    } else {
        (tab_column_after(text.drop_last(), width, column) + 1) % width
    }
}

/// `text` with every tab replaced by spaces up to the next multiple of
/// `width`, for text that starts `column` columns after a tab stop. Every
/// other character, an escape sequence's too, counts as one column.
pub open spec fn expanded_tabs(text: Seq<char>, width: nat, column: nat) -> Seq<char>
    recommends
        width > 0,
        column < width,
    decreases text.len(),
{
    if text.len() == 0 {
        Seq::<char>::empty()
    } else {
        let before = text.drop_last();
        expanded_tabs(before, width, column) + (if text.last() == '\t' {
            repeated(' ', (width - tab_column_after(before, width, column)) as nat)
        } else {
            seq![text.last()]
        })
    }
}

/// Text without tabs is left as it is.
pub proof fn lemma_expanded_without_tabs(text: Seq<char>, width: nat, column: nat)
    requires
        forall|i: int| 0 <= i < text.len() ==> text[i] != '\t',
    ensures
        expanded_tabs(text, width, column) == text,
    decreases text.len(),
{
    if text.len() > 0 {
        lemma_expanded_without_tabs(text.drop_last(), width, column);
    }
}

/// Replaces the tabs of `line` by spaces. `cursor` is the column at which
/// the text starts; only its distance from the last tab stop matters, and
/// that distance is what it holds afterwards.
pub fn expand_tabs(line: &str, width: usize, cursor: &mut usize) -> (out: String)
    requires
        width > 0,
    ensures
        out@ == expanded_tabs(line@, width as nat, (*old(cursor) % width) as nat),
        *final(cursor) == tab_column_after(line@, width as nat, (*old(cursor) % width) as nat),
        *final(cursor) < width,
{
    let ghost start: nat = (*cursor % width) as nat;
    let mut column: usize = *cursor % width;
    let mut out = String::new();
    for c in it: line.chars()
        invariant
            it.seq() == line@,
            width > 0,
            start < width,
            column < width,
            column == tab_column_after(line@.take(it.index() as int), width as nat, start),
            out@ == expanded_tabs(line@.take(it.index() as int), width as nat, start),
    {
        proof {
            assert(line@.take(it.index() + 1).drop_last() =~= line@.take(it.index() as int));
        }
        if c == '\t' {
            let spaces = repeat_char(' ', width - column);
            out.append(spaces.as_str());
            column = 0;
        } else {
            proof {
                if column + 1 == width {
                    lemma_mod_self_0(width as int);
                } else {
                    lemma_small_mod((column + 1) as nat, width as nat);
                }
            }
            out.push(c);
            column = if column + 1 == width {
                0
            } else {
                column + 1
            };
        }
    }
    proof {
        assert(line@.take(line@.len() as int) =~= line@);
    }
    *cursor = column;
    out
}

/// The text as it is laid out: with its tabs expanded, unless `tab_width`
/// is zero, which leaves text and `cursor` as they are.
pub fn preprocess(text: &str, tab_width: usize, cursor: &mut usize) -> (out: String)
    ensures
        tab_width == 0 ==> out@ == text@ && *final(cursor) == *old(cursor),
        tab_width > 0 ==> out@ == expanded_tabs(
            text@,
            tab_width as nat,
            (*old(cursor) % tab_width) as nat,
        ) && *final(cursor) == tab_column_after(
            text@,
            tab_width as nat,
            (*old(cursor) % tab_width) as nat,
        ) && *final(cursor) < tab_width,
{
    if tab_width > 0 {
        expand_tabs(text, tab_width, cursor)
    } else {
        String::from_str(text)
    }
}

} // verus!
