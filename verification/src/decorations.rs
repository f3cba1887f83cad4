//! Decorations drawn to the left of each row: the line number and the
//! vertical line of the grid.
use crate::text::{
    decimal, decimal_string, lemma_decimal_len_small, pad_left, padded_left, repeat_char, repeated,
};
use vstd::prelude::*;

verus! {

/// A decoration as text, with the columns it takes.
pub struct DecorationText {
    pub width: usize,
    pub text: String,
}

impl View for DecorationText {
    type V = Seq<char>;

    open spec fn view(&self) -> Seq<char> {
        self.text@
    }
}

impl Clone for DecorationText {
    fn clone(&self) -> (copy: DecorationText)
        ensures
            copy.width == self.width,
            copy.text@ == self.text@,
    {
        DecorationText { width: self.width, text: self.text.clone() }
    }
}

/// Something drawn beside each row of text.
pub trait Decoration {
    /// What is drawn beside line `line_number`: beside its first row, or,
    /// with `continuation`, beside the rows that continue it.
    spec fn decoration(&self, line_number: nat, continuation: bool) -> Seq<char>;

    /// Columns that the decoration takes by default.
    spec fn columns(&self) -> nat;

    fn generate(&self, line_number: usize, continuation: bool) -> (d: DecorationText)
        ensures
            d@ == self.decoration(line_number as nat, continuation),
            d.width == d@.len(),
    ;

    fn width(&self) -> (w: usize)
        ensures
            w == self.columns(),
    ;
}

/// Line numbers, right-aligned in four columns, or in more where a number
/// needs them.
pub struct LineNumberDecoration {
    cached_wrap: DecorationText,
    cached_wrap_invalid_at: usize,
}

/// What a [`LineNumberDecoration`] stands for.
pub struct LineNumberView {
    /// Columns that a line number takes at least.
    pub width: nat,
}

impl View for LineNumberDecoration {
    type V = LineNumberView;

    closed spec fn view(&self) -> LineNumberView {
        LineNumberView { width: self.cached_wrap.width as nat }
    }
}

impl LineNumberDecoration {
    /// The spaces for numbers of up to four digits are kept ready; 10000 is
    /// the first number that needs more.
    #[verifier::type_invariant]
    spec fn inv(&self) -> bool {
        &&& self.cached_wrap.width == 4
        &&& self.cached_wrap@ == repeated(' ', 4)
        &&& self.cached_wrap_invalid_at == 10000
    }

    /// Line numbers in four columns.
    pub fn new() -> (d: LineNumberDecoration)
        ensures
            d@ == (LineNumberView { width: 4 }),
    {
        LineNumberDecoration {
            cached_wrap_invalid_at: 10000,
            cached_wrap: DecorationText { text: repeat_char(' ', 4), width: 4 },
        }
    }
}

impl Decoration for LineNumberDecoration {
    /// The number right-aligned in its columns, or wider if it has more
    /// digits. Rows that continue a line get as many spaces as the number of
    /// the line takes.
    open spec fn decoration(&self, line_number: nat, continuation: bool) -> Seq<char> {
        if continuation {
            repeated(' ', padded_left(decimal(line_number), self@.width).len())
        } else {
            padded_left(decimal(line_number), self@.width)
        }
    }

    open spec fn columns(&self) -> nat {
        self@.width
    }

    fn generate(&self, line_number: usize, continuation: bool) -> (d: DecorationText) {
        proof {
            use_type_invariant(self);
            lemma_decimal_len_small(line_number as nat);
        }
        if continuation {
            if line_number >= self.cached_wrap_invalid_at {
                let new_width: usize = decimal_string(line_number).as_str().unicode_len();
                return DecorationText { text: repeat_char(' ', new_width), width: new_width };
            }
            self.cached_wrap.clone()
        } else {
            let digits = decimal_string(line_number);
            let plain = pad_left(digits.as_str(), 4);
            DecorationText { width: plain.as_str().unicode_len(), text: plain }
        }
    }

    fn width(&self) -> (w: usize) {
        proof {
            use_type_invariant(self);
        }
        4
    }
}

/// The decoration beside the rows that continue a line is as wide as the
/// one beside its first row, and holds spaces only.
pub proof fn lemma_continuation_as_wide(d: LineNumberDecoration, line_number: nat)
    ensures
        d.decoration(line_number, true).len() == d.decoration(line_number, false).len(),
        d.decoration(line_number, true) == repeated(' ', d.decoration(line_number, false).len()),
{
}

/// The vertical line of the grid.
pub struct GridBorderDecoration {
    cached: DecorationText,
}

impl View for GridBorderDecoration {
    type V = Seq<char>;

    closed spec fn view(&self) -> Seq<char> {
        self.cached@
    }
}

impl GridBorderDecoration {
    #[verifier::type_invariant]
    spec fn inv(&self) -> bool {
        self.cached.width == self.cached@.len()
    }

    /// One vertical line.
    pub fn new() -> (d: GridBorderDecoration)
        ensures
            d@ == seq!['│'],
    {
        proof {
            reveal_strlit("│");
        }
        GridBorderDecoration { cached: DecorationText { text: String::from_str("│"), width: 1 } }
    }
}

impl Decoration for GridBorderDecoration {
    /// The same text beside every row.
    open spec fn decoration(&self, line_number: nat, continuation: bool) -> Seq<char> {
        self@
    }

    open spec fn columns(&self) -> nat {
        self@.len()
    }

    fn generate(&self, _line_number: usize, _continuation: bool) -> (d: DecorationText) {
        proof {
            use_type_invariant(self);
        }
        self.cached.clone()
    }

    fn width(&self) -> (w: usize) {
        proof {
            use_type_invariant(self);
        }
        self.cached.width
    }
}

} // verus!
