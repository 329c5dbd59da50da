//! Rendering of the fixed banner message into FIGlet text art.
//!
//! The rendering itself is done by an outside FIGlet engine with its standard
//! font compiled in; this module names what that engine returns and states the
//! few facts about it that the handler needs.

use vstd::prelude::*;

verus! {

/// The fixed banner message, as a sequence of characters.
pub open spec fn banner() -> Seq<char> {
    "Hello, Fermyon on Azure AKS!"@
}

/// The banner message as an executable string slice.
pub fn banner_text() -> (r: &'static str)
    ensures
        r@ == banner(),
        r@.len() > 0,
{
    proof {
        reveal_strlit("Hello, Fermyon on Azure AKS!");
    }
    "Hello, Fermyon on Azure AKS!"
}

/// Number of text rows in every figure the standard FIGlet font produces.
pub const STANDARD_FONT_HEIGHT: usize = 6;

/// How many newline characters a sequence of characters holds.
pub open spec fn newline_count(s: Seq<char>) -> nat
    decreases s.len(),
{
    if s.len() == 0 {
        0
    } else {
        newline_count(s.drop_last()) + (if s.last() == '\n' {
            1nat
        } else {
            0nat
        })
    }
}

/// The text art that the standard FIGlet font renders a message to.
pub uninterp spec fn standard_figure_of(text: Seq<char>) -> Seq<char>;

/// Relies on figlet_rs::FIGlet::standard, FIGlet::convert and FIGure::as_str:
/// the standard font is compiled into that crate, so a successful rendering
/// depends on the message alone; a figure is printed as one newline-terminated
/// row per font row, and the standard font is six rows tall; an empty message
/// is never rendered. The banner itself always renders: the compiled-in font
/// parses, and it maps every printable ASCII character, which the banner is
/// made of.
#[verifier::external_body]
pub(crate) fn render_standard(text: &str) -> (r: Option<String>)
    ensures
        r matches Some(figure) ==> figure@ == standard_figure_of(text@) && figure@.len() > 0
            && newline_count(figure@) == STANDARD_FONT_HEIGHT,
        text@ == banner() ==> r is Some,
        text@.len() == 0 ==> r is None,
{
    let font = match figlet_rs::FIGlet::standard() {
        Ok(font) => font,
        Err(_) => return None,
    };
    match font.convert(text) {
        Some(figure) => Some(figure.as_str()),
        None => None,
    }
}

} // verus!
