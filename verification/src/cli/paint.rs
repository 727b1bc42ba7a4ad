//! Colored terminal text, from colored.
use colored::Colorize;
use vstd::prelude::*;

verus! {

/// The foreground colors the command line uses.
#[derive(Debug, Clone, Copy, PartialEq, Eq, Structural)]
pub enum Tint {
    White,
    BrightRed,
    Cyan,
    Black,
    Yellow,
    BrightMagenta,
    Red,
    BrightGreen,
}

/// The ANSI code of a foreground color.
pub open spec fn tint_code(t: Tint) -> Seq<char> {
    match t {
        Tint::White => seq!['3', '7'],
        Tint::BrightRed => seq!['9', '1'],
        Tint::Cyan => seq!['3', '6'],
        Tint::Black => seq!['3', '0'],
        Tint::Yellow => seq!['3', '3'],
        Tint::BrightMagenta => seq!['9', '5'],
        Tint::Red => seq!['3', '1'],
        Tint::BrightGreen => seq!['9', '2'],
    }
}

/// The sequence that resets the terminal's colors.
pub open spec fn reset_sequence() -> Seq<char> {
    seq!['\x1b', '[', '0', 'm']
}

/// `s` holds the reset sequence somewhere.
pub open spec fn holds_reset(s: Seq<char>) -> bool {
    exists|i: int| 0 <= i && i + 4 <= s.len() && #[trigger] s.subrange(i, i + 4) == reset_sequence()
}

/// `out` is `s` in the color `t`: `s` wrapped in the escape sequences of
/// the color, or `s` itself when colors are off. Nothing is said when `s`
/// itself holds a reset sequence.
pub open spec fn painted(s: Seq<char>, t: Tint, out: Seq<char>) -> bool {
    !holds_reset(s) ==> (out == s || out == seq!['\x1b', '['] + tint_code(t) + seq!['m'] + s
        + reset_sequence())
}

/// `text` in the foreground color `tint`, as `format!("{}", text.color(..))`
/// writes it. Whether colors are on depends on the environment (CLICOLOR,
/// NO_COLOR, CLICOLOR_FORCE, whether stdout is a terminal); colored wraps
/// the text in the color's escape sequence and a reset, or leaves it as it
/// is. When the text itself holds a reset sequence colored inserts the
/// color again after it; nothing is stated then.
#[verifier::external_body]
pub(crate) fn paint(text: &str, tint: Tint) -> (res: String)
    ensures
        painted(text@, tint, res@),
{
    let color = match tint {
        Tint::White => colored::Color::White,
        Tint::BrightRed => colored::Color::BrightRed,
        Tint::Cyan => colored::Color::Cyan,
        Tint::Black => colored::Color::Black,
        Tint::Yellow => colored::Color::Yellow,
        Tint::BrightMagenta => colored::Color::BrightMagenta,
        Tint::Red => colored::Color::Red,
        Tint::BrightGreen => colored::Color::BrightGreen,
    };
    format!("{}", text.color(color))
}

} // verus!
