//! Colour for the lines shown to the user.
//!
//! Whether text is painted at all is not for this crate to say: the
//! `colored` crate decides it from the terminal and the environment. What
//! is known is the shape of the result: the text as it is, or the text
//! between the escape sequence of the colour and the one that resets it.

use colored::Colorize;
use vstd::prelude::*;

verus! {

/// The escape sequence that switches to green.
pub open spec fn green_on() -> Seq<char> {
    "\u{1b}[32m"@
}

/// The escape sequence that switches to red.
pub open spec fn red_on() -> Seq<char> {
    "\u{1b}[31m"@
}

/// The escape sequence that resets the colour.
pub open spec fn color_off() -> Seq<char> {
    "\u{1b}[0m"@
}

/// Whether the text is free of escape characters, so that it holds no
/// escape sequence of its own.
pub open spec fn is_plain(text: Seq<char>) -> bool {
    !text.contains('\u{1b}')
}

/// Whether `result` is `text`, painted or not, in the colour that `on`
/// switches to: the text alone, or the text with the reset behind it and,
/// unless painting was switched off while the text was being painted, the
/// colour in front of it.
pub open spec fn painted(text: Seq<char>, on: Seq<char>, result: Seq<char>) -> bool {
    ||| result == text
    ||| result == text + color_off()
    ||| result == on + text + color_off()
}

/// Paints text green with `colored::Colorize::green` and renders it.
///
/// Trusted, not proved: plain text comes back alone or between the
/// sequences for green and for reset; with painting switched off midway,
/// the leading sequence may be missing. Nothing is claimed of text that
/// holds an escape character.
#[verifier::external_body]
pub(crate) fn green(text: &str) -> (result: String)
    ensures
        is_plain(text@) ==> painted(text@, green_on(), result@),
{
    text.green().to_string()
}

/// Paints text red with `colored::Colorize::red` and renders it.
///
/// Trusted, not proved: plain text comes back alone or between the
/// sequences for red and for reset; with painting switched off midway, the
/// leading sequence may be missing. Nothing is claimed of text that holds
/// an escape character.
#[verifier::external_body]
pub(crate) fn red(text: &str) -> (result: String)
    ensures
        is_plain(text@) ==> painted(text@, red_on(), result@),
{
    text.red().to_string()
}

/// Whether `line` is the name of a tool, a blank and the mark, the mark
/// painted or not in the colour that `on` switches to.
pub open spec fn is_marked_line(
    tool: Seq<char>,
    mark: Seq<char>,
    on: Seq<char>,
    line: Seq<char>,
) -> bool {
    ||| line == tool + " "@ + mark
    ||| line == tool + " "@ + (mark + color_off())
    ||| line == tool + " "@ + (on + mark + color_off())
}

/// Whether `line` is a heading with the title painted or not in green.
pub open spec fn is_heading(title: Seq<char>, line: Seq<char>) -> bool {
    ||| line == "\n"@ + title + ":"@
    ||| line == "\n"@ + (title + color_off()) + ":"@
    ||| line == "\n"@ + (green_on() + title + color_off()) + ":"@
}

/// The name of a tool followed by a blank and a mark.
pub fn marked_line(tool: &str, mark: &str) -> (line: String)
    ensures
        line@ == tool@ + " "@ + mark@,
{
    let mut line = tool.to_owned();
    line.append(" ");
    line.append(mark);
    line
}

/// A heading: a line break, the title and a colon.
pub fn heading(title: &str) -> (line: String)
    ensures
        line@ == "\n"@ + title@ + ":"@,
{
    let mut line = "\n".to_owned();
    line.append(title);
    line.append(":");
    line
}

} // verus!
