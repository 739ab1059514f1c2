//! Colouring text for a terminal. The escape sequences are produced by the
//! `owo_colors` crate; this module states which characters come out.

use vstd::prelude::*;
use owo_colors::{AnsiColors, OwoColorize};
use crate::piece::Color;

verus! {

/// The last digit of the terminal's code for a colour.
pub open spec fn color_digit(color: Color) -> char {
    match color {
        Color::Black => '0',
        Color::Red => '1',
        Color::Blue => '4',
        Color::White => '7',
    }
}

/// `text` between the sequence that sets the foreground to `color` and the
/// sequence that sets it back to the terminal's default.
pub open spec fn foreground(color: Color, text: Seq<char>) -> Seq<char> {
    seq!['\x1b', '[', '3', color_digit(color), 'm'] + text + seq!['\x1b', '[', '3', '9', 'm']
}

/// `text` between the sequence that sets the background to `color` and the
/// sequence that sets it back to the terminal's default.
pub open spec fn background(color: Color, text: Seq<char>) -> Seq<char> {
    seq!['\x1b', '[', '4', color_digit(color), 'm'] + text + seq!['\x1b', '[', '4', '9', 'm']
}

/// What `owo_colors` displays for `glyph.color(..)` of its `OwoColorize`,
/// given the `AnsiColors` value that is named like `color`. Trusted, after
/// that crate's `Display` for `FgDynColorDisplay`: the text is `ESC [ 3 d m`
/// with the colour's digit for `d`, then the glyph, then `ESC [ 3 9 m`.
#[verifier::external_body]
pub(crate) fn colored(glyph: char, color: Color) -> (s: String)
    ensures
        s@ == foreground(color, seq![glyph]),
{
    let ansi = match color {
        Color::Black => AnsiColors::Black,
        Color::Red => AnsiColors::Red,
        Color::Blue => AnsiColors::Blue,
        Color::White => AnsiColors::White,
    };
    format!("{}", glyph.color(ansi))
}

/// What `owo_colors` displays for `text.on_color(..)` of its `OwoColorize`,
/// given the `AnsiColors` value that is named like `color`. Trusted, after
/// that crate's `Display` for `BgDynColorDisplay`: the text is `ESC [ 4 d m`
/// with the colour's digit for `d`, then `text` as it stands, then
/// `ESC [ 4 9 m`.
#[verifier::external_body]
pub(crate) fn on_colored(text: &str, color: Color) -> (s: String)
    ensures
        s@ == background(color, text@),
{
    let ansi = match color {
        Color::Black => AnsiColors::Black,
        Color::Red => AnsiColors::Red,
        Color::Blue => AnsiColors::Blue,
        Color::White => AnsiColors::White,
    };
    format!("{}", text.on_color(ansi))
}

} // verus!
