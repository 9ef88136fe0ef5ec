//! What a redraw and an erase put on the terminal.
//!
//! With control sequences enabled a redraw overwrites in place: it erases
//! what is below the cursor, writes the text, and walks the cursor back to
//! where it started, one line up for every line break in the text. Without
//! them nothing can be taken back, so a redraw is the text on a line of its
//! own and an erase is nothing at all.

use vstd::prelude::*;
use vstd::seq_lib::to_multiset_build;
use vstd::string::StringExecFns;
use crate::escapes::{
    cursor_left, cursor_left_seq, cursor_prev_line, cursor_prev_line_seq, erase_down,
    erase_down_seq,
};

verus! {

/// How many line breaks `text` holds.
pub open spec fn newline_count(text: Seq<char>) -> nat {
    text.to_multiset().count('\n')
}

/// `unit` written `times` times in a row.
pub open spec fn repeated(unit: Seq<char>, times: nat) -> Seq<char>
    decreases times,
{
    if times == 0 {
        Seq::empty()
    } else {
        repeated(unit, (times - 1) as nat) + unit
    }
}

/// The characters a redraw of `contents` writes.
pub open spec fn redraw_text(ansi: bool, contents: Seq<char>) -> Seq<char> {
    if ansi {
        erase_down_seq() + contents + cursor_left_seq() + repeated(
            cursor_prev_line_seq(),
            newline_count(contents),
        )
    } else {
        contents + seq!['\n']
    }
}

/// The characters an erase writes.
pub open spec fn clear_text(ansi: bool) -> Seq<char> {
    if ansi {
        erase_down_seq()
    } else {
        Seq::empty()
    }
}

/// An empty text holds no line break.
pub proof fn newline_count_empty()
    ensures
        newline_count(Seq::empty()) == 0,
{
    let none = Seq::<char>::empty();
    none.to_multiset_ensures();
    assert(!none.contains('\n'));
}

/// Appending one character adds one to the count exactly when it is a line
/// break.
pub proof fn newline_count_push(text: Seq<char>, c: char)
    ensures
        newline_count(text.push(c)) == newline_count(text) + if c == '\n' {
            1nat
        } else {
            0nat
        },
{
    to_multiset_build(text, c);
}

/// Builds the text of a redraw of `contents`.
pub fn redraw(ansi: bool, contents: &str) -> (out: String)
    ensures
        out@ == redraw_text(ansi, contents@),
{
    if ansi {
        let mut out = erase_down();
        out.append(contents);
        out.append(cursor_left().as_str());
        let up = cursor_prev_line();
        let ghost head = out@;
        proof {
            newline_count_empty();
            assert(contents@.take(0) == Seq::<char>::empty());
        }
        for c in it: contents.chars()
            invariant
                it.seq() == contents@,
                up@ == cursor_prev_line_seq(),
                out@ == head + repeated(up@, newline_count(contents@.take(it.index()))),
        {
            proof {
                let seen = contents@.take(it.index());
                assert(contents@.take(it.index() + 1) == seen.push(c));
                newline_count_push(seen, c);
            }
            if c == '\n' {
                out.append(up.as_str());
            }
        }
        assert(contents@.take(contents@.len() as int) == contents@);
        out
    } else {
        let mut out = String::from_str(contents);
        out.append("\n");
        proof {
            reveal_strlit("\n");
        }
        out
    }
}

/// Builds the text of an erase.
pub fn clear(ansi: bool) -> (out: String)
    ensures
        out@ == clear_text(ansi),
{
    if ansi {
        erase_down()
    } else {
        String::new()
    }
}

} // verus!
