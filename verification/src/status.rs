//! The status line itself: a snapshot of the caller's data, a visibility
//! flag, and the rules by which the two reach the terminal.
//!
//! Nothing here writes. Every operation hands back the text that belongs on
//! the error stream, so that what is written, and when, can be stated and
//! proved; the caller writes it, and runs the periodic task that calls
//! [`StatusLine::tick`] once per refresh period.

use std::fmt::Display;
use vstd::prelude::*;
use vstd::string::to_string_from_display_ensures;
use crate::options::Options;
use crate::render::{clear, clear_text, redraw, redraw_text};

verus! {

/// What the handle and the periodic task share: the caller's data and the
/// visibility flag.
pub struct State<D> {
    pub data: D,
    pub visible: bool,
}

impl<D> State<D> {
    /// Wraps `inner`, hidden.
    pub fn new(inner: D) -> (state: State<D>)
        ensures
            state.data == inner,
            !state.visible,
    {
        State { data: inner, visible: false }
    }
}

/// What a status line is, as far as its behaviour goes.
pub struct LineView<D> {
    pub data: D,
    pub visible: bool,
    pub options: Options,
}

/// `out` is a redraw of some text that `data` displays as.
pub open spec fn renders<D: Display>(data: D, ansi: bool, out: Seq<char>) -> bool {
    exists|text: String| #[trigger]
        to_string_from_display_ensures::<D>(&data, text) && out == redraw_text(ansi, text@)
}

impl<D: Display> LineView<D> {
    /// The same line with its flag set to `visible`.
    pub open spec fn with_visible(self, visible: bool) -> Self {
        LineView { visible, ..self }
    }

    /// The line after a run of `set_visible` calls, first to last.
    pub open spec fn after_calls(self, calls: Seq<bool>) -> Self
        decreases calls.len(),
    {
        if calls.len() == 0 {
            self
        } else {
            self.after_calls(calls.drop_last()).with_visible(calls.last())
        }
    }

    /// `out` is what a forced redraw may write: a redraw, whatever the flag
    /// says.
    pub open spec fn refresh_writes(self, out: Seq<char>) -> bool {
        renders(self.data, self.options.enable_ansi_escapes, out)
    }

    /// `out` is what setting the flag to `visible` may write: an erase on
    /// the way from visible to hidden, a redraw on the way from hidden to
    /// visible, nothing where the flag stays as it is.
    pub open spec fn set_visible_writes(self, visible: bool, out: Seq<char>) -> bool {
        if self.visible && !visible {
            out == clear_text(self.options.enable_ansi_escapes)
        } else if !self.visible && visible {
            renders(self.data, self.options.enable_ansi_escapes, out)
        } else {
            out == Seq::<char>::empty()
        }
    }

    /// What giving up the handle writes: an erase while visible, nothing
    /// while hidden.
    pub open spec fn dispose_text(self) -> Seq<char> {
        if self.visible {
            clear_text(self.options.enable_ansi_escapes)
        } else {
            Seq::empty()
        }
    }

    /// `tick` is what the periodic task may do on a wake-up at which it
    /// counts `owners` holders of the shared state, itself among them: leave
    /// when it is the only one, redraw when the line is visible, and
    /// otherwise wait for the next wake-up.
    pub open spec fn tick_does(self, owners: usize, tick: Tick) -> bool {
        if owners <= 1 {
            tick == Tick::Exit
        } else if self.visible {
            tick matches Tick::Render(out) && renders(
                self.data,
                self.options.enable_ansi_escapes,
                out@,
            )
        } else {
            tick == Tick::Idle
        }
    }
}

/// What the periodic task does after one wake-up.
#[derive(Debug, PartialEq, Eq)]
pub enum Tick {
    /// No holder but the task is left: stop, and write nothing.
    Exit,
    /// The line is hidden: write nothing and sleep again.
    Idle,
    /// Write this redraw and sleep again.
    Render(String),
}

/// Wraps arbitrary data and says what to put on the terminal for it.
pub struct StatusLine<D: Display> {
    state: State<D>,
    options: Options,
}

impl<D: Display> View for StatusLine<D> {
    type V = LineView<D>;

    closed spec fn view(&self) -> LineView<D> {
        LineView { data: self.state.data, visible: self.state.visible, options: self.options }
    }
}

impl<D: Display> StatusLine<D> {
    /// Creates a status line with the default options for the error stream
    /// of this process. It starts out visible.
    pub fn new(data: D) -> (line: StatusLine<D>)
        ensures
            line@.data == data,
            line@.visible,
            line@.options == Options::for_terminal(line@.options.enable_ansi_escapes),
    {
        Self::with_options(data, Options::default())
    }

    /// Creates a status line with the given options. Nothing is written: a
    /// line that starts out visible first appears through the periodic task
    /// or a call of [`StatusLine::refresh`].
    pub fn with_options(data: D, options: Options) -> (line: StatusLine<D>)
        ensures
            line@ == (LineView { data, visible: options.initially_visible, options }),
    {
        let mut state = State::new(data);
        state.visible = options.initially_visible;
        StatusLine { state, options }
    }

    /// One wake-up of the periodic task, which sleeps for the refresh period
    /// before each call. `owners` is the number of holders of the shared
    /// state that it counts, itself among them.
    pub fn tick(&self, owners: usize) -> (tick: Tick)
        ensures
            self@.tick_does(owners, tick),
    {
        if owners <= 1 {
            Tick::Exit
        } else if self.state.visible {
            Tick::Render(self.refresh())
        } else {
            Tick::Idle
        }
    }

    /// The text of a redraw made at once, without waiting for the periodic
    /// task and without regard to the visibility flag.
    pub fn refresh(&self) -> (out: String)
        ensures
            self@.refresh_writes(out@),
    {
        let contents = self.state.data.to_string();
        redraw(self.options.enable_ansi_escapes, contents.as_str())
    }

    /// Sets the visibility flag and returns what the change writes.
    pub fn set_visible(&mut self, visible: bool) -> (out: String)
        ensures
            final(self)@ == old(self)@.with_visible(visible),
            old(self)@.set_visible_writes(visible, out@),
    {
        let was_visible = self.state.visible;
        self.state.visible = visible;
        if !visible && was_visible {
            clear(self.options.enable_ansi_escapes)
        } else if visible && !was_visible {
            self.refresh()
        } else {
            String::new()
        }
    }

    /// The visibility flag, for use in contracts.
    pub open spec fn spec_is_visible(&self) -> bool {
        self@.visible
    }

    /// Whether the status line is currently visible.
    #[verifier::when_used_as_spec(spec_is_visible)]
    pub fn is_visible(&self) -> (visible: bool)
        ensures
            visible == self@.visible,
    {
        self.state.visible
    }

    /// The text that takes the line off the terminal when its handle is
    /// given up. The periodic task stops by itself at its next wake-up.
    pub fn dispose(&self) -> (out: String)
        ensures
            out@ == self@.dispose_text(),
    {
        if self.state.visible {
            clear(self.options.enable_ansi_escapes)
        } else {
            String::new()
        }
    }
}

impl<D: Display> std::ops::Deref for StatusLine<D> {
    type Target = D;

    /// Read access to the wrapped data, so that the caller can reach the
    /// data's own methods through the status line.
    fn deref(&self) -> (data: &D)
        ensures
            *data == self@.data,
    {
        &self.state.data
    }
}

} // verus!
