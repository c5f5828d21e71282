//! Terminal colours: each styled piece of the report is its text between an
//! ANSI escape that selects a foreground colour and the escape that resets it.
use ansi_term::Colour;
use vstd::prelude::*;

verus! {

/// The foreground colours that the report uses.
#[derive(Clone, Copy, Debug, PartialEq, Eq, Structural)]
pub enum Tint {
    Red,
    Green,
    Yellow,
    Blue,
    Rgb(u8, u8, u8),
}

/// The character of a decimal digit.
pub open spec fn digit_char(d: nat) -> char {
    if d == 0 {
        '0'
    } else if d == 1 {
        '1'
    } else if d == 2 {
        '2'
    } else if d == 3 {
        '3'
    } else if d == 4 {
        '4'
    } else if d == 5 {
        '5'
    } else if d == 6 {
        '6'
    } else if d == 7 {
        '7'
    } else if d == 8 {
        '8'
    } else {
        '9'
    }
}

/// `n` written in decimal, without leading zeros.
pub open spec fn decimal(n: nat) -> Seq<char>
    decreases n,
{
    if n < 10 {
        seq![digit_char(n)]
    } else {
        decimal(n / 10).push(digit_char(n % 10))
    }
}

/// The escape sequence that switches to the tint's foreground colour.
pub open spec fn escape_of(tint: Tint) -> Seq<char> {
    match tint {
        Tint::Red => "\x1B[31m"@,
        Tint::Green => "\x1B[32m"@,
        Tint::Yellow => "\x1B[33m"@,
        Tint::Blue => "\x1B[34m"@,
        Tint::Rgb(r, g, b) => "\x1B[38;2;"@ + decimal(r as nat) + ";"@ + decimal(g as nat) + ";"@
            + decimal(b as nat) + "m"@,
    }
}

/// The escape sequence that resets all styles.
pub open spec fn reset_escape() -> Seq<char> {
    "\x1B[0m"@
}

/// `text` shown in the tint's colour.
pub open spec fn painted(tint: Tint, text: Seq<char>) -> Seq<char> {
    escape_of(tint) + text + reset_escape()
}

/// Relies on `ansi_term::Colour::paint` and the `Display` of the string it
/// returns: the colour's foreground escape, the text, then the reset escape.
#[verifier::external_body]
pub(crate) fn paint(tint: Tint, text: &str) -> (r: String)
    ensures
        r@ == painted(tint, text@),
{
    let colour = match tint {
        Tint::Red => Colour::Red,
        Tint::Green => Colour::Green,
        Tint::Yellow => Colour::Yellow,
        Tint::Blue => Colour::Blue,
        Tint::Rgb(r, g, b) => Colour::RGB(r, g, b),
    };
    colour.paint(text).to_string()
}

/// The grey of the `stdout:` marker.
pub open spec fn muted() -> Tint {
    Tint::Rgb(133, 138, 118)
}

/// The grey of the `stdout:` marker, as a value.
pub fn muted_tint() -> (t: Tint)
    ensures
        t == muted(),
{
    Tint::Rgb(133, 138, 118)
}

} // verus!
