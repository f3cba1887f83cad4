//! Rendering of highlighted text for terminals and documents: a gutter
//! with line numbers, a grid, a header and a footer around the text, lines
//! broken at the width of the terminal, and styles as escape sequences or
//! HTML.
pub mod colorize;
pub mod content;
pub mod decorations;
pub mod frame;
pub mod preprocessor;
pub mod printer;
pub mod style;
pub mod terminal;
pub mod text;
pub mod wrap;

pub use crate::colorize::{new_colorize, Colorize};
pub use crate::content::ContentType;
pub use crate::decorations::{
    Decoration, DecorationText, GridBorderDecoration, LineNumberDecoration,
};
pub use crate::frame::Frame;
pub use crate::printer::{
    ColorProtocol, InputFile, InteractivePrinter, OutputComponents, OutputWrap, Printer,
};
pub use crate::style::{Color, FontStyle, Style, StyledSpan, ThemeSettings};
pub use crate::terminal::{as_terminal_escaped, to_ansi_color};
