//! Terminal styling of text with ANSI escape sequences, through `owo_colors`.
use vstd::prelude::*;
use owo_colors::OwoColorize;

verus! {

/// The escape sequence `ESC [ code m`.
pub open spec fn sgr(code: Seq<char>) -> Seq<char> {
    seq!['\x1b', '['] + code + seq!['m']
}

/// `s` between a text-effect code and the sequence that resets all effects.
pub open spec fn effect(code: Seq<char>, s: Seq<char>) -> Seq<char> {
    sgr(code) + s + sgr(seq!['0'])
}

/// `s` between a foreground-colour code and the sequence that restores the
/// default foreground colour.
pub open spec fn foreground(code: Seq<char>, s: Seq<char>) -> Seq<char> {
    sgr(code) + s + sgr(seq!['3', '9'])
}

/// Bold text.
pub open spec fn bold_text(s: Seq<char>) -> Seq<char> {
    effect(seq!['1'], s)
}

/// Dimmed (faint) text.
pub open spec fn dimmed_text(s: Seq<char>) -> Seq<char> {
    effect(seq!['2'], s)
}

/// Italic text.
pub open spec fn italic_text(s: Seq<char>) -> Seq<char> {
    effect(seq!['3'], s)
}

/// Text in red.
pub open spec fn red_text(s: Seq<char>) -> Seq<char> {
    foreground(seq!['3', '1'], s)
}

/// Text in green.
pub open spec fn green_text(s: Seq<char>) -> Seq<char> {
    foreground(seq!['3', '2'], s)
}

/// Text in yellow.
pub open spec fn yellow_text(s: Seq<char>) -> Seq<char> {
    foreground(seq!['3', '3'], s)
}

/// Text in purple (magenta).
pub open spec fn purple_text(s: Seq<char>) -> Seq<char> {
    foreground(seq!['3', '5'], s)
}

/// Text in bright green.
pub open spec fn bright_green_text(s: Seq<char>) -> Seq<char> {
    foreground(seq!['9', '2'], s)
}

/// `OwoColorize::bold`, displayed: owo_colors writes `ESC[1m`, the text,
/// then `ESC[0m`.
#[verifier::external_body]
pub(crate) fn bold(s: &str) -> (res: String)
    ensures
        res@ == bold_text(s@),
{
    format!("{}", s.bold())
}

/// `OwoColorize::dimmed`, displayed: `ESC[2m`, the text, then `ESC[0m`.
#[verifier::external_body]
pub(crate) fn dimmed(s: &str) -> (res: String)
    ensures
        res@ == dimmed_text(s@),
{
    format!("{}", s.dimmed())
}

/// `OwoColorize::italic`, displayed: `ESC[3m`, the text, then `ESC[0m`.
#[verifier::external_body]
pub(crate) fn italic(s: &str) -> (res: String)
    ensures
        res@ == italic_text(s@),
{
    format!("{}", s.italic())
}

/// `OwoColorize::red`, displayed: `ESC[31m`, the text, then `ESC[39m`.
#[verifier::external_body]
pub(crate) fn red(s: &str) -> (res: String)
    ensures
        res@ == red_text(s@),
{
    format!("{}", s.red())
}

/// `OwoColorize::green`, displayed: `ESC[32m`, the text, then `ESC[39m`.
#[verifier::external_body]
pub(crate) fn green(s: &str) -> (res: String)
    ensures
        res@ == green_text(s@),
{
    format!("{}", s.green())
}

/// `OwoColorize::yellow`, displayed: `ESC[33m`, the text, then `ESC[39m`.
#[verifier::external_body]
pub(crate) fn yellow(s: &str) -> (res: String)
    ensures
        res@ == yellow_text(s@),
{
    format!("{}", s.yellow())
}

/// `OwoColorize::purple` (magenta), displayed: `ESC[35m`, the text, then
/// `ESC[39m`.
#[verifier::external_body]
pub(crate) fn purple(s: &str) -> (res: String)
    ensures
        res@ == purple_text(s@),
{
    format!("{}", s.purple())
}

/// `OwoColorize::bright_green`, displayed: `ESC[92m`, the text, then
/// `ESC[39m`.
#[verifier::external_body]
pub(crate) fn bright_green(s: &str) -> (res: String)
    ensures
        res@ == bright_green_text(s@),
{
    format!("{}", s.bright_green())
}

} // verus!
