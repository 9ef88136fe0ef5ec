//! The three control sequences a status line is made of, each taken from the
//! `ansi_escapes` crate and pinned to the characters it stands for.

use vstd::prelude::*;

verus! {

/// "Erase from the cursor to the end of the screen": `ESC [ J`.
pub open spec fn erase_down_seq() -> Seq<char> {
    seq!['\x1b', '[', 'J']
}

/// "Move the cursor to the left edge": `ESC [ 1000 D`.
pub open spec fn cursor_left_seq() -> Seq<char> {
    seq!['\x1b', '[', '1', '0', '0', '0', 'D']
}

/// "Move the cursor to the start of the previous line": `ESC [ F`.
pub open spec fn cursor_prev_line_seq() -> Seq<char> {
    seq!['\x1b', '[', 'F']
}

/// Formats `ansi_escapes::EraseDown`.
///
/// Trusted: the crate's `Display` impl for `EraseDown` writes exactly
/// `"\x1B[J"`, which is [`erase_down_seq`].
#[verifier::external_body]
pub(crate) fn erase_down() -> (code: String)
    ensures
        code@ == erase_down_seq(),
{
    format!("{}", ansi_escapes::EraseDown)
}

/// Formats `ansi_escapes::CursorLeft`.
///
/// Trusted: the crate's `Display` impl for `CursorLeft` writes exactly
/// `"\x1B[1000D"`, which is [`cursor_left_seq`].
#[verifier::external_body]
pub(crate) fn cursor_left() -> (code: String)
    ensures
        code@ == cursor_left_seq(),
{
    format!("{}", ansi_escapes::CursorLeft)
}

/// Formats `ansi_escapes::CursorPrevLine`.
///
/// Trusted: the crate's `Display` impl for `CursorPrevLine` writes exactly
/// `"\x1B[F"`, which is [`cursor_prev_line_seq`].
#[verifier::external_body]
pub(crate) fn cursor_prev_line() -> (code: String)
    ensures
        code@ == cursor_prev_line_seq(),
{
    format!("{}", ansi_escapes::CursorPrevLine)
}

} // verus!
