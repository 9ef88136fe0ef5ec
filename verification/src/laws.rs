//! What holds of every status line, whatever it wraps and however it is
//! driven. Each law is stated over the same models that the contracts of
//! [`crate::status`] and [`crate::render`] use.

use std::fmt::Display;
use vstd::prelude::*;
use crate::escapes::erase_down_seq;
use crate::render::{clear_text, redraw_text};
use crate::status::{LineView, Tick};

verus! {

/// After any run of `set_visible` calls the flag is what the last call
/// asked for, and nothing else about the line has changed. An empty run
/// changes nothing.
pub proof fn last_call_decides<D: Display>(line: LineView<D>, calls: Seq<bool>)
    ensures
        calls.len() == 0 ==> line.after_calls(calls) == line,
        calls.len() > 0 ==> line.after_calls(calls) == line.with_visible(calls.last()),
        calls.len() > 0 ==> line.after_calls(calls).visible == calls.last(),
    decreases calls.len(),
{
    if calls.len() > 0 {
        last_call_decides(line, calls.drop_last());
    }
}

/// Asking twice for the same visibility leaves the line where the first
/// call put it, and the second call writes nothing.
pub proof fn repeated_call_is_silent<D: Display>(line: LineView<D>, visible: bool, out: Seq<char>)
    requires
        line.with_visible(visible).set_visible_writes(visible, out),
    ensures
        line.with_visible(visible).with_visible(visible) == line.with_visible(visible),
        out == Seq::<char>::empty(),
{
}

/// A line that is hidden is not drawn by the periodic task, however many
/// holders there are: a line made hidden stays off the terminal until it is
/// shown or redrawn by hand.
pub proof fn hidden_line_is_not_drawn<D: Display>(line: LineView<D>, owners: usize, tick: Tick)
    requires
        !line.visible,
        line.tick_does(owners, tick),
    ensures
        !(tick is Render),
{
}

/// A forced redraw writes the same whether the line is hidden or visible,
/// and it always writes something.
pub proof fn refresh_ignores_visibility<D: Display>(
    line: LineView<D>,
    visible: bool,
    out: Seq<char>,
)
    ensures
        line.with_visible(visible).refresh_writes(out) == line.refresh_writes(out),
        line.refresh_writes(out) ==> out.len() > 0,
{
    if line.refresh_writes(out) {
        let text = choose|text: String| #[trigger]
            vstd::string::to_string_from_display_ensures::<D>(&line.data, text) && out
                == redraw_text(line.options.enable_ansi_escapes, text@);
        redraw_is_never_empty(line.options.enable_ansi_escapes, text@);
    }
}

/// Showing a hidden line writes what a forced redraw would write, at once
/// and not at the next wake-up of the periodic task.
pub proof fn showing_redraws_at_once<D: Display>(line: LineView<D>, out: Seq<char>)
    requires
        !line.visible,
        line.set_visible_writes(true, out),
    ensures
        line.refresh_writes(out),
        out.len() > 0,
{
    refresh_ignores_visibility(line, true, out);
}

/// Hiding a visible line writes the erase; hiding it once more writes
/// nothing.
pub proof fn hiding_erases_once<D: Display>(line: LineView<D>, first: Seq<char>, second: Seq<char>)
    requires
        line.visible,
        line.set_visible_writes(false, first),
        line.with_visible(false).set_visible_writes(false, second),
    ensures
        first == clear_text(line.options.enable_ansi_escapes),
        second == Seq::<char>::empty(),
{
}

/// Giving up the handle of a visible line writes the erase, and the
/// periodic task, once it is the only holder left, stops without drawing.
pub proof fn disposal_erases_and_stops<D: Display>(line: LineView<D>, owners: usize, tick: Tick)
    requires
        line.visible,
        owners <= 1,
        line.tick_does(owners, tick),
    ensures
        line.dispose_text() == clear_text(line.options.enable_ansi_escapes),
        tick == Tick::Exit,
{
}

/// The periodic task stops exactly when it counts no holder but itself.
pub proof fn task_stops_with_last_holder<D: Display>(line: LineView<D>, owners: usize, tick: Tick)
    requires
        line.tick_does(owners, tick),
    ensures
        tick == Tick::Exit <==> owners <= 1,
{
}

/// No change of the flag is lost on the periodic task: after any run of
/// `set_visible` calls, and while another holder is left, it draws exactly
/// if the last call made the line visible.
pub proof fn task_sees_last_call<D: Display>(
    line: LineView<D>,
    calls: Seq<bool>,
    owners: usize,
    tick: Tick,
)
    requires
        calls.len() > 0,
        owners > 1,
        line.after_calls(calls).tick_does(owners, tick),
    ensures
        tick is Render <==> calls.last(),
        tick is Idle <==> !calls.last(),
{
    last_call_decides(line, calls);
}

/// A redraw is never empty: there is always something to write.
pub proof fn redraw_is_never_empty(ansi: bool, contents: Seq<char>)
    ensures
        redraw_text(ansi, contents).len() > 0,
{
}

/// A redraw holds the text unchanged and in one piece: right at the start
/// without control sequences, right behind the erase with them.
pub proof fn redraw_holds_contents(ansi: bool, contents: Seq<char>)
    ensures
        ({
            let at: int = if ansi {
                erase_down_seq().len() as int
            } else {
                0
            };
            redraw_text(ansi, contents).subrange(at, at + contents.len()) == contents
        }),
{
}

/// With control sequences every redraw begins with the very sequence that
/// an erase consists of, so that a redraw replaces what was drawn before it
/// and an erase leaves nothing of it.
pub proof fn redraw_begins_with_erase(contents: Seq<char>)
    ensures
        clear_text(true) == erase_down_seq(),
        redraw_text(true, contents).subrange(0, erase_down_seq().len() as int) == clear_text(
            true,
        ),
{
}

} // verus!
