use crate::numeral::decimal;
use vstd::prelude::*;

verus! {

/// A foreground colour of the terminal.
#[derive(Clone, Copy, Debug, PartialEq, Eq, Structural)]
pub enum Tint {
    Red,
    Green,
    Blue,
    Purple,
    /// One of the 256 colours of the extended palette.
    Fixed(u8),
}

/// The parameter by which an escape sequence selects `tint` as foreground.
pub open spec fn colour_code(tint: Tint) -> Seq<char> {
    match tint {
        Tint::Red => "31"@,
        Tint::Green => "32"@,
        Tint::Blue => "34"@,
        Tint::Purple => "35"@,
        Tint::Fixed(n) => "38;5;"@ + decimal(n as nat),
    }
}

/// `text` as a terminal shows it in `tint`: the escape sequence that turns
/// the colour on, the text itself, and the sequence that resets the style.
pub open spec fn painted(tint: Tint, text: Seq<char>) -> Seq<char> {
    "\x1b["@ + colour_code(tint) + "m"@ + text + "\x1b[0m"@
}

/// Paints `text` with `ansi_term::Colour::paint` and renders the painted
/// string with its `to_string`.
///
/// Taken on trust from that crate: a string painted in a plain colour is
/// written as `ESC [`, the colour's foreground code (31, 32, 34 and 35 for
/// red, green, blue and purple, `38;5;` and the decimal number for a palette
/// colour), `m`, the text unchanged, and the reset `ESC [ 0 m`.
#[verifier::external_body]
pub(crate) fn paint(tint: Tint, text: &str) -> (out: String)
    ensures
        out@ == painted(tint, text@),
{
    let colour = match tint {
        Tint::Red => ansi_term::Colour::Red,
        Tint::Green => ansi_term::Colour::Green,
        Tint::Blue => ansi_term::Colour::Blue,
        Tint::Purple => ansi_term::Colour::Purple,
        Tint::Fixed(n) => ansi_term::Colour::Fixed(n),
    };
    colour.paint(text).to_string()
}

} // verus!
