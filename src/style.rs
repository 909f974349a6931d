//! Terminal decoration through `console`, resolved to ANSI escape sequences.
//!
//! Each wrapper forces styling on; callers decide beforehand whether the
//! output stream takes colour, and use the undecorated text where it does not.

use vstd::prelude::*;

verus! {

/// `s` between the select-graphic-rendition sequence `code` and a reset.
pub open spec fn ansi(code: Seq<char>, s: Seq<char>) -> Seq<char> {
    "\u{1b}["@ + code + "m"@ + s + "\u{1b}[0m"@
}

/// `s` decorated with `code` when colours are on, and unchanged otherwise.
pub open spec fn decorate(colors: bool, code: Seq<char>, s: Seq<char>) -> Seq<char> {
    if colors {
        ansi(code, s)
    } else {
        s
    }
}

pub open spec fn red_code() -> Seq<char> {
    "31"@
}

pub open spec fn green_code() -> Seq<char> {
    "32"@
}

pub open spec fn yellow_code() -> Seq<char> {
    "33"@
}

pub open spec fn magenta_code() -> Seq<char> {
    "35"@
}

pub open spec fn underline_code() -> Seq<char> {
    "4"@
}

/// Relies on console's `StyledObject::red` with forced styling: the
/// foreground sequence `ESC[31m`, the text, then `ESC[0m`.
#[verifier::external_body]
pub(crate) fn red(s: &str) -> (r: String)
    ensures
        r@ == ansi(red_code(), s@),
{
    format!("{}", console::style(s).red().force_styling(true))
}

/// Relies on console's `StyledObject::green` with forced styling: the
/// foreground sequence `ESC[32m`, the text, then `ESC[0m`.
#[verifier::external_body]
pub(crate) fn green(s: &str) -> (r: String)
    ensures
        r@ == ansi(green_code(), s@),
{
    format!("{}", console::style(s).green().force_styling(true))
}

/// Relies on console's `StyledObject::yellow` with forced styling: the
/// foreground sequence `ESC[33m`, the text, then `ESC[0m`.
#[verifier::external_body]
pub(crate) fn yellow(s: &str) -> (r: String)
    ensures
        r@ == ansi(yellow_code(), s@),
{
    format!("{}", console::style(s).yellow().force_styling(true))
}

/// Relies on console's `StyledObject::magenta` with forced styling: the
/// foreground sequence `ESC[35m`, the text, then `ESC[0m`.
#[verifier::external_body]
pub(crate) fn magenta(s: &str) -> (r: String)
    ensures
        r@ == ansi(magenta_code(), s@),
{
    format!("{}", console::style(s).magenta().force_styling(true))
}

/// Relies on console's `StyledObject::underlined` with forced styling: the
/// attribute sequence `ESC[4m`, the text, then `ESC[0m`.
#[verifier::external_body]
pub(crate) fn underlined(s: &str) -> (r: String)
    ensures
        r@ == ansi(underline_code(), s@),
{
    format!("{}", console::style(s).underlined().force_styling(true))
}

} // verus!
