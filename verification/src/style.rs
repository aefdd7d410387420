//! Colour and weight for the words that stand above a log.

use crate::task::Tint;
use crossterm::style::Stylize;
use vstd::prelude::*;
use vstd::string::StringExecFns;

verus! {

/// Styles the text with `crossterm::style::style`, `Stylize::with` and
/// `Stylize::attribute`, bold and in the colour asked for, and writes it out with the
/// escape sequences around it. Whether colours are written depends on `NO_COLOR`, so
/// nothing is claimed of the result.
#[verifier::external_body]
fn emphasized(text: &str, tint: Tint) -> String {
    let color = match tint {
        Tint::White => crossterm::style::Color::White,
        Tint::Yellow => crossterm::style::Color::Yellow,
        Tint::Green => crossterm::style::Color::Green,
        Tint::Red => crossterm::style::Color::Red,
    };
    let bold = crossterm::style::Attribute::Bold;
    crossterm::style::style(text).with(color).attribute(bold).to_string()
}

/// The word that stands above a log: plain, or bold and green where output is styled.
pub fn output_header(styled: bool) -> (header: String)
    ensures
        !styled ==> header@ == "output:"@,
{
    if styled {
        emphasized("output:", Tint::Green)
    } else {
        String::from_str("output:")
    }
}

} // verus!
