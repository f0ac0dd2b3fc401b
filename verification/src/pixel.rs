//! The visual state of one logical grid cell and its rendering to text.
//!
//! A filled cell is painted as a single glyph whose foreground and
//! background are set to the same color, so the glyph itself is invisible
//! and the cell shows as a solid colored block. A background cell is a
//! blank painted black on black.

use vstd::prelude::*;

verus! {

/// One of the eight named terminal colors.
#[derive(Clone, Copy, PartialEq, Eq, Structural, Debug)]
pub enum CellColor {
    Black,
    Red,
    Green,
    Yellow,
    Blue,
    Purple,
    Cyan,
    White,
}

/// The visual state of a single logical cell: either untouched background
/// or a solid color.
#[derive(Clone, Copy, PartialEq, Eq, Structural, Debug)]
pub enum Pixel {
    Color(CellColor),
    Background,
}

/// The final digit of the color's ANSI code: the foreground code is `'3'`
/// followed by this digit, the background code `'4'` followed by it.
pub open spec fn color_digit(c: CellColor) -> char {
    match c {
        CellColor::Black => '0',
        CellColor::Red => '1',
        CellColor::Green => '2',
        CellColor::Yellow => '3',
        CellColor::Blue => '4',
        CellColor::Purple => '5',
        CellColor::Cyan => '6',
        CellColor::White => '7',
    }
}

/// `text` wrapped in the escape codes that set both the background and the
/// foreground to `c`, followed by the escape code that resets all styling.
pub open spec fn painted(c: CellColor, text: Seq<char>) -> Seq<char> {
    seq!['\u{1b}', '[', '4', color_digit(c), ';', '3', color_digit(c), 'm'] + text + seq![
        '\u{1b}',
        '[',
        '0',
        'm',
    ]
}

/// Relies on `ansi_term`: `Colour::on` builds a style whose foreground and
/// background are both set, and painting a string with such a style writes
/// `ESC [ 4x ; 3x m` (`x` the color's digit, background code first), the
/// text, and the reset code `ESC [ 0 m`.
#[verifier::external_body]
fn paint_solid(c: &CellColor, text: &str) -> (r: String)
    ensures
        r@ == painted(*c, text@),
{
    let ansi = match c {
        CellColor::Black => ansi_term::Color::Black,
        CellColor::Red => ansi_term::Color::Red,
        CellColor::Green => ansi_term::Color::Green,
        CellColor::Yellow => ansi_term::Color::Yellow,
        CellColor::Blue => ansi_term::Color::Blue,
        CellColor::Purple => ansi_term::Color::Purple,
        CellColor::Cyan => ansi_term::Color::Cyan,
        CellColor::White => ansi_term::Color::White,
    };
    ansi.on(ansi).paint(text).to_string()
}

/// The text of one cell: a blank painted black on black for background, the
/// filler glyph painted in the cell's color on itself otherwise.
pub open spec fn cell_text(p: Pixel) -> Seq<char> {
    match p {
        Pixel::Background => painted(CellColor::Black, seq![' ']),
        Pixel::Color(c) => painted(c, seq!['#']),
    }
}

/// Every cell paints to the same number of characters: the two escape
/// codes and the single glyph between them.
pub proof fn lemma_cell_text_len(p: Pixel)
    ensures
        cell_text(p).len() == 13,
{
}

impl Pixel {
    /// The cell rendered as text, glyph and color escape codes included.
    pub fn get_string(&self) -> (r: String)
        ensures
            r@ == cell_text(*self),
    {
        match self {
            Pixel::Background => {
                let r = paint_solid(&CellColor::Black, " ");
                proof {
                    reveal_strlit(" ");
                    assert(" "@ =~= seq![' ']);
                }
                r
            },
            Pixel::Color(c) => {
                let r = paint_solid(c, "#");
                proof {
                    reveal_strlit("#");
                    assert("#"@ =~= seq!['#']);
                }
                r
            },
        }
    }
}

} // verus!
