//! The frame around the text: whether there is a gutter for line numbers,
//! how wide it is, and the rules and decorations drawn to fit it.
use crate::text::{
    decimal, decimal_string, lemma_decimal_len_small, lemma_decimal_len_usize, pad_left,
    padded_left, repeat_char, repeated,
};
use vstd::prelude::*;

verus! {

/// Columns reserved for line numbers until a longer number is shown.
pub const LNUM_DIGITS: usize = 4;

/// The separator between line number and text when the grid is drawn.
pub open spec fn grid_separator() -> Seq<char> {
    seq![' ', '│', ' ']
}

/// The separator between line number and text without a grid.
pub open spec fn plain_separator() -> Seq<char> {
    seq![' ']
}

/// The separator that a frame uses: wide with the grid, narrow without.
pub open spec fn separator(grid: bool) -> Seq<char> {
    if grid {
        grid_separator()
    } else {
        plain_separator()
    }
}

/// What a [`Frame`] stands for.
pub struct FrameView {
    /// Columns of the terminal.
    pub term_width: nat,
    /// The separator that ends the gutter, if there is a gutter.
    pub separator: Option<Seq<char>>,
    /// Columns taken by the line number; zero without a gutter.
    pub line_number_width: nat,
}

impl FrameView {
    /// The frame for a terminal of `term_width` columns. The gutter is there
    /// only if numbers are asked for and the terminal leaves at least five
    /// columns beside it.
    pub open spec fn new(term_width: nat, numbers: bool, grid: bool) -> FrameView {
        if numbers && term_width >= LNUM_DIGITS + separator(grid).len() + 5 {
            FrameView {
                term_width,
                separator: Some(separator(grid)),
                line_number_width: LNUM_DIGITS as nat,
            }
        } else {
            FrameView { term_width, separator: None, line_number_width: 0 }
        }
    }

    /// What holds of every frame: without a gutter no column is taken; with
    /// one, the number has at least four columns and the terminal was wide
    /// enough when the frame was made.
    pub open spec fn wf(self) -> bool {
        match self.separator {
            None => self.line_number_width == 0,
            Some(s) => {
                &&& s == grid_separator() || s == plain_separator()
                &&& self.line_number_width >= LNUM_DIGITS
                &&& self.term_width >= LNUM_DIGITS + s.len() + 5
            },
        }
    }

    /// Whether the frame has a gutter.
    pub open spec fn has_gutter(self) -> bool {
        self.separator is Some
    }

    /// Columns taken by the separator; zero without a gutter.
    pub open spec fn separator_width(self) -> nat {
        match self.separator {
            None => 0,
            Some(s) => s.len(),
        }
    }

    /// Columns taken by the whole gutter.
    pub open spec fn gutter_width(self) -> nat {
        self.line_number_width + self.separator_width()
    }

    /// Columns left for text on each row; zero if the gutter fills the
    /// terminal.
    pub open spec fn cursor_max(self) -> nat {
        if self.term_width >= self.gutter_width() {
            (self.term_width - self.gutter_width()) as nat
        } else {
            0
        }
    }

    /// Columns that the number takes once line `line_number` has been
    /// shown: as many as before, or the number's digits if they are more.
    pub open spec fn width_for(self, line_number: nat) -> nat {
        if decimal(line_number).len() > self.line_number_width {
            decimal(line_number).len()
        } else {
            self.line_number_width
        }
    }

    /// The frame after line `line_number` has been shown.
    pub open spec fn numbered(self, line_number: nat) -> FrameView {
        match self.separator {
            None => self,
            Some(_) => FrameView { line_number_width: self.width_for(line_number), ..self },
        }
    }

    /// The frame after each of `line_numbers` has been shown in turn.
    pub open spec fn numbered_all(self, line_numbers: Seq<nat>) -> FrameView
        decreases line_numbers.len(),
    {
        if line_numbers.len() == 0 {
            self
        } else {
            self.numbered_all(line_numbers.drop_last()).numbered(line_numbers.last())
        }
    }

    /// The gutter of line `line_number`: the number, right-aligned in the
    /// columns it has after this line, then the separator.
    pub open spec fn numbered_gutter(self, line_number: nat) -> Option<Seq<char>> {
        match self.separator {
            None => None,
            Some(s) => Some(padded_left(decimal(line_number), self.width_for(line_number)) + s),
        }
    }

    /// The gutter of a row that continues a line: spaces for the number,
    /// then the separator.
    pub open spec fn blank_gutter(self) -> Option<Seq<char>> {
        match self.separator {
            None => None,
            Some(s) => Some(repeated(' ', self.line_number_width) + s),
        }
    }

    /// Columns of a rule that follow the junction.
    pub open spec fn rule_suffix_width(self) -> nat {
        if self.term_width >= self.line_number_width + 2 {
            (self.term_width - self.line_number_width - 2) as nat
        } else {
            0
        }
    }

    /// A rule across the terminal. With a gutter, `junction` stands one
    /// column after the line number, where the grid's vertical line runs.
    pub open spec fn horizontal_line(self, junction: char) -> Seq<char> {
        if self.line_number_width == 0 {
            repeated('─', self.term_width)
        } else {
            repeated('─', self.line_number_width + 1).push(junction) + repeated(
                '─',
                self.rule_suffix_width(),
            )
        }
    }
}

/// A fresh frame is well formed, and it has a gutter exactly when numbers
/// are asked for and the terminal has room for four digits, the separator
/// and five columns of text.
pub proof fn lemma_new_frame(term_width: nat, numbers: bool, grid: bool)
    ensures
        FrameView::new(term_width, numbers, grid).wf(),
        FrameView::new(term_width, numbers, grid).has_gutter() <==> numbers && term_width >= 9
            + (if grid { 3nat } else { 1nat }),
        FrameView::new(term_width, numbers, grid).has_gutter() ==> FrameView::new(
            term_width,
            numbers,
            grid,
        ).line_number_width == 4,
{
}

/// Showing a line number keeps a frame well formed and never narrows the
/// gutter.
pub proof fn lemma_numbered_keeps_frame(v: FrameView, line_number: nat)
    requires
        v.wf(),
    ensures
        v.numbered(line_number).wf(),
        v.numbered(line_number).line_number_width >= v.line_number_width,
        v.numbered(line_number).term_width == v.term_width,
        v.numbered(line_number).separator == v.separator,
{
}

/// However many line numbers are shown, in whatever order, the gutter is at
/// least as wide afterwards as it was after any earlier part of them.
pub proof fn lemma_width_never_narrows(v: FrameView, line_numbers: Seq<nat>, shown: int)
    requires
        v.wf(),
        0 <= shown <= line_numbers.len(),
    ensures
        v.numbered_all(line_numbers).wf(),
        v.numbered_all(line_numbers).separator == v.separator,
        v.numbered_all(line_numbers).line_number_width >= v.numbered_all(
            line_numbers.take(shown),
        ).line_number_width,
    decreases line_numbers.len(),
{
    if shown == line_numbers.len() {
        assert(line_numbers.take(shown) =~= line_numbers);
        if line_numbers.len() > 0 {
            lemma_width_never_narrows(
                v,
                line_numbers.drop_last(),
                line_numbers.drop_last().len() as int,
            );
            lemma_numbered_keeps_frame(
                v.numbered_all(line_numbers.drop_last()),
                line_numbers.last(),
            );
        }
    } else {
        lemma_width_never_narrows(v, line_numbers.drop_last(), shown);
        assert(line_numbers.drop_last().take(shown) =~= line_numbers.take(shown));
        lemma_numbered_keeps_frame(v.numbered_all(line_numbers.drop_last()), line_numbers.last());
    }
}

/// While no line number exceeds 9999, a gutter of four digits stays at
/// four.
pub proof fn lemma_width_stays_four(v: FrameView, line_numbers: Seq<nat>)
    requires
        v.wf(),
        v.has_gutter(),
        v.line_number_width == 4,
        forall|i: int| 0 <= i < line_numbers.len() ==> line_numbers[i] <= 9999,
    ensures
        v.numbered_all(line_numbers).line_number_width == 4,
        v.numbered_all(line_numbers).separator == v.separator,
    decreases line_numbers.len(),
{
    if line_numbers.len() > 0 {
        lemma_width_stays_four(v, line_numbers.drop_last());
        lemma_decimal_len_small(line_numbers.last());
    }
}

/// The first line number of 10000 or more widens a gutter of four digits
/// to that number's count of digits.
pub proof fn lemma_first_large_number_widens(v: FrameView, small: Seq<nat>, large: nat)
    requires
        v.wf(),
        v.has_gutter(),
        v.line_number_width == 4,
        forall|i: int| 0 <= i < small.len() ==> small[i] <= 9999,
        large >= 10000,
    ensures
        v.numbered_all(small.push(large)).line_number_width == decimal(large).len(),
        decimal(large).len() > 4,
{
    lemma_width_stays_four(v, small);
    lemma_decimal_len_small(large);
    assert(small.push(large).drop_last() =~= small);
}

/// The gutter of a numbered row and that of the rows that continue it are
/// equally wide, and as wide as the frame says.
pub proof fn lemma_gutters_equally_wide(v: FrameView, line_number: nat)
    requires
        v.wf(),
        v.has_gutter(),
    ensures
        v.numbered_gutter(line_number) is Some,
        v.numbered(line_number).blank_gutter() is Some,
        v.numbered_gutter(line_number)->0.len() == v.numbered(line_number).gutter_width(),
        v.numbered(line_number).blank_gutter()->0.len() == v.numbered(line_number).gutter_width(),
{
}

/// The column in which the grid's vertical line runs: after the line
/// number and one space.
pub open spec fn grid_column(v: FrameView) -> int {
    v.line_number_width as int + 1
}

/// A rule is as wide as the terminal wherever the gutter leaves room for
/// the junction, and with a gutter its junction stands in the column of the
/// grid.
pub proof fn lemma_rule_spans_terminal(v: FrameView, junction: char)
    requires
        v.wf(),
        v.has_gutter() ==> v.line_number_width + 2 <= v.term_width,
    ensures
        v.horizontal_line(junction).len() == v.term_width,
        v.has_gutter() ==> v.horizontal_line(junction)[grid_column(v)] == junction,
{
}

/// With the grid, the junction of a rule stands in the column of the
/// vertical line in the gutters drawn since the gutter took its width.
pub proof fn lemma_junction_meets_grid(v: FrameView, line_number: nat, junction: char)
    requires
        v.wf(),
        v.separator == Some(grid_separator()),
    ensures
        v.numbered_gutter(line_number)->0[grid_column(v.numbered(line_number))] == '│',
        v.numbered(line_number).blank_gutter()->0[grid_column(v.numbered(line_number))] == '│',
        v.numbered(line_number).horizontal_line(junction)[grid_column(v.numbered(line_number))]
            == junction,
{
}

/// The layout of one rendering session. The width of the line number only
/// grows.
pub struct Frame {
    gutter: Option<&'static str>,
    term_width: usize,
    line_number_width: usize,
    separator_width: usize,
}

impl View for Frame {
    type V = FrameView;

    closed spec fn view(&self) -> FrameView {
        FrameView {
            term_width: self.term_width as nat,
            separator: match self.gutter {
                None => None,
                Some(s) => Some(s@),
            },
            line_number_width: self.line_number_width as nat,
        }
    }
}

impl Frame {
    #[verifier::type_invariant]
    spec fn inv(&self) -> bool {
        &&& self@.wf()
        &&& self.separator_width == self@.separator_width()
        &&& self.line_number_width <= 20
    }

    /// The frame for a terminal of `term_width` columns.
    pub fn new(term_width: usize, numbers: bool, grid: bool) -> (frame: Frame)
        ensures
            frame@ == FrameView::new(term_width as nat, numbers, grid),
            frame@.wf(),
    {
        proof {
            reveal_strlit(" │ ");
            reveal_strlit(" ");
        }
        let (separator, separator_width): (&'static str, usize) = if grid {
            (" │ ", 3)
        } else {
            (" ", 1)
        };
        assert(" │ "@ =~= grid_separator());
        assert(" "@ =~= plain_separator());
        let term_width_needed: usize = LNUM_DIGITS + separator_width + 5;
        if numbers && term_width >= term_width_needed {
            Frame {
                gutter: Some(separator),
                term_width,
                line_number_width: LNUM_DIGITS,
                separator_width,
            }
        } else {
            Frame { gutter: None, term_width, line_number_width: 0, separator_width: 0 }
        }
    }

    /// A rule across the terminal, with `grid_char` where the grid's
    /// vertical line crosses it.
    pub fn horizontal_line(&self, grid_char: char) -> (line: String)
        ensures
            line@ == self@.horizontal_line(grid_char),
    {
        proof {
            use_type_invariant(self);
        }
        if self.line_number_width == 0 {
            repeat_char('─', self.term_width)
        } else {
            let prefix_width: usize = self.line_number_width + 1;
            let suffix_width: usize = if self.term_width > prefix_width {
                self.term_width - prefix_width - 1
            } else {
                0
            };
            let mut line = repeat_char('─', prefix_width);
            line.push(grid_char);
            let suffix = repeat_char('─', suffix_width);
            line.append(suffix.as_str());
            line
        }
    }

    /// The gutter of line `line_number`, or `None` without a gutter. A
    /// number with more digits than any before it widens the gutter for the
    /// rest of the session.
    pub fn numbered_gutter(&mut self, line_number: usize) -> (text: Option<String>)
        ensures
            final(self)@ == old(self)@.numbered(line_number as nat),
            final(self)@.wf(),
            match text {
                None => old(self)@.numbered_gutter(line_number as nat) is None,
                Some(t) => old(self)@.numbered_gutter(line_number as nat) == Some(t@),
            },
    {
        proof {
            use_type_invariant(&*self);
            lemma_decimal_len_usize(line_number);
        }
        match self.gutter {
            None => None,
            Some(separator) => {
                let digits = decimal_string(line_number);
                let len = digits.as_str().unicode_len();
                if len > self.line_number_width {
                    self.line_number_width = len;
                }
                let mut text = pad_left(digits.as_str(), self.line_number_width);
                text.append(separator);
                Some(text)
            },
        }
    }

    /// The gutter of a row that continues a line, as wide as the last
    /// numbered one, or `None` without a gutter.
    pub fn blank_gutter(&self) -> (text: Option<String>)
        ensures
            match text {
                None => self@.blank_gutter() is None,
                Some(t) => self@.blank_gutter() == Some(t@),
            },
    {
        match self.gutter {
            None => None,
            Some(separator) => {
                let mut text = repeat_char(' ', self.line_number_width);
                text.append(separator);
                Some(text)
            },
        }
    }

    /// Columns left for text on each row.
    pub fn cursor_max(&self) -> (width: usize)
        ensures
            width == self@.cursor_max(),
    {
        proof {
            use_type_invariant(self);
        }
        let gutter_width: usize = self.line_number_width + self.separator_width;
        if self.term_width >= gutter_width {
            self.term_width - gutter_width
        } else {
            0
        }
    }
}

} // verus!
