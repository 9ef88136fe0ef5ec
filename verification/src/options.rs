//! How a status line is set up: its pace, whether it starts out visible,
//! and whether the terminal understands control sequences.

use std::time::Duration;
use vstd::prelude::*;

verus! {

/// Pace of the redraws, in milliseconds, when the error stream is a terminal.
pub const TTY_REFRESH_MILLIS: u64 = 100;

/// Pace of the redraws, in milliseconds, when the error stream goes elsewhere.
pub const PLAIN_REFRESH_MILLIS: u64 = 1000;

/// The span of time that `Duration::from_millis` makes of a number of
/// milliseconds.
pub uninterp spec fn duration_from_millis(millis: u64) -> Duration;

/// Trusted: `Duration::from_millis` depends on its argument alone.
pub assume_specification[ Duration::from_millis ](millis: u64) -> (period: Duration)
    ensures
        period == duration_from_millis(millis),
;

/// Asks `atty::is` whether the error stream is a terminal.
///
/// Trusted, and nothing is claimed: the answer depends on how the process
/// was started.
#[verifier::external_body]
pub(crate) fn stderr_is_tty() -> bool {
    atty::is(atty::Stream::Stderr)
}

/// Options controlling how the status line is displayed.
#[derive(Clone, Copy, Debug)]
pub struct Options {
    /// How long to wait between two redraws by the periodic task.
    pub refresh_period: Duration,
    /// Whether the line is visible from the start. It can be changed at any
    /// time afterwards.
    pub initially_visible: bool,
    /// Whether control sequences may be written. Without them the line is
    /// never erased; each redraw goes on a new line.
    pub enable_ansi_escapes: bool,
}

impl Options {
    /// The defaults for an error stream that is, or is not, a terminal.
    pub open spec fn spec_for_terminal(is_tty: bool) -> Options {
        Options {
            refresh_period: duration_from_millis(
                if is_tty {
                    TTY_REFRESH_MILLIS
                } else {
                    PLAIN_REFRESH_MILLIS
                },
            ),
            initially_visible: true,
            enable_ansi_escapes: is_tty,
        }
    }

    /// The defaults for an error stream that is, or is not, a terminal:
    /// visible from the start, control sequences exactly on a terminal, and a
    /// redraw every 100 ms there, every second elsewhere.
    #[verifier::when_used_as_spec(spec_for_terminal)]
    pub fn for_terminal(is_tty: bool) -> (options: Options)
        ensures
            options == Options::spec_for_terminal(is_tty),
    {
        let millis: u64 = if is_tty {
            TTY_REFRESH_MILLIS
        } else {
            PLAIN_REFRESH_MILLIS
        };
        Options {
            refresh_period: Duration::from_millis(millis),
            initially_visible: true,
            enable_ansi_escapes: is_tty,
        }
    }
}

impl Default for Options {
    /// The defaults for the error stream of this process. Whether that
    /// stream is a terminal is found out here, and can be read back from
    /// `enable_ansi_escapes`.
    fn default() -> (options: Options)
        ensures
            options == Options::for_terminal(options.enable_ansi_escapes),
    {
        Options::for_terminal(stderr_is_tty())
    }
}

} // verus!
