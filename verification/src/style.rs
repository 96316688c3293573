//! Terminal styling of text, as the `owo-colors` crate writes it: an ANSI
//! escape before the text and the matching reset after it.

use vstd::prelude::*;
use owo_colors::OwoColorize;

verus! {

pub open spec fn bold_text(s: Seq<char>) -> Seq<char> {
    "\x1b[1m"@ + s + "\x1b[0m"@
}

pub open spec fn italic_text(s: Seq<char>) -> Seq<char> {
    "\x1b[3m"@ + s + "\x1b[0m"@
}

pub open spec fn red_text(s: Seq<char>) -> Seq<char> {
    "\x1b[31m"@ + s + "\x1b[39m"@
}

pub open spec fn green_text(s: Seq<char>) -> Seq<char> {
    "\x1b[32m"@ + s + "\x1b[39m"@
}

pub open spec fn white_text(s: Seq<char>) -> Seq<char> {
    "\x1b[37m"@ + s + "\x1b[39m"@
}

/// Calls `OwoColorize::white` and renders the result: the text between the
/// white foreground escape and the default-foreground escape.
#[verifier::external_body]
pub(crate) fn white(s: &str) -> (r: String)
    ensures
        r@ == white_text(s@),
{
    format!("{}", s.white())
}

/// Calls `OwoColorize::bold` and renders the result: the text between the
/// bold escape and the reset.
#[verifier::external_body]
pub(crate) fn bold(s: &str) -> (r: String)
    ensures
        r@ == bold_text(s@),
{
    format!("{}", s.bold())
}

/// Calls `OwoColorize::italic` and renders the result.
#[verifier::external_body]
pub(crate) fn italic(s: &str) -> (r: String)
    ensures
        r@ == italic_text(s@),
{
    format!("{}", s.italic())
}

/// Calls `OwoColorize::red` and renders the result: the text between the
/// red foreground escape and the default-foreground escape.
#[verifier::external_body]
pub(crate) fn red(s: &str) -> (r: String)
    ensures
        r@ == red_text(s@),
{
    format!("{}", s.red())
}

/// Calls `OwoColorize::green` and renders the result.
#[verifier::external_body]
pub(crate) fn green(s: &str) -> (r: String)
    ensures
        r@ == green_text(s@),
{
    format!("{}", s.green())
}

} // verus!
