//! The run's configuration, read from the texts of its two options.

use crate::decimal::{parse_u64, parse_u64_spec};
use vstd::prelude::*;
use vstd::string::*;

verus! {

/// The two things a run can do.
#[derive(Clone, Copy, Debug, PartialEq, Eq, Structural)]
pub enum Mode {
    /// Sample the feed with every worker and aggregate the results.
    Collect,
    /// Print the records that an earlier run persisted.
    Replay,
}

/// The mode that an option text names: `cache` collects, `read` replays.
pub open spec fn mode_spec(text: Seq<char>) -> Option<Mode> {
    if text == "cache"@ {
        Some(Mode::Collect)
    } else if text == "read"@ {
        Some(Mode::Replay)
    } else {
        None
    }
}

/// The window that an option text asks for, in whole seconds: the number it
/// spells, or one second where it spells none.
pub open spec fn window_spec(text: Seq<char>) -> u64 {
    match parse_u64_spec(text) {
        Some(seconds) => seconds,
        None => 1,
    }
}

/// What a run is configured to do.
#[derive(Clone, Copy, Debug, PartialEq, Eq, Structural)]
pub struct Config {
    pub mode: Mode,
    /// The observation window of every worker, in whole seconds.
    pub duration: u64,
    pub worker_count: usize,
}

/// A mode text that names no mode.
#[derive(Debug, PartialEq, Eq)]
pub struct UsageError {
    pub mode: String,
}

/// Reads the mode option.
pub fn parse_mode(text: &str) -> (mode: Option<Mode>)
    ensures
        mode == mode_spec(text@),
{
    let given = String::from_str(text);
    if given == String::from_str("cache") {
        Some(Mode::Collect)
    } else if given == String::from_str("read") {
        Some(Mode::Replay)
    } else {
        None
    }
}

/// Reads the window option. A text that spells no number means one second.
pub fn parse_times(text: &str) -> (seconds: u64)
    ensures
        seconds == window_spec(text@),
{
    match parse_u64(text) {
        Some(seconds) => seconds,
        None => 1,
    }
}

/// Builds the configuration of a run from its option texts and the number of
/// workers. An unknown mode is a usage error that carries the text given.
pub fn configure(mode: &str, times: &str, worker_count: usize) -> (config: Result<
    Config,
    UsageError,
>)
    ensures
        match mode_spec(mode@) {
            Some(chosen) => config == Ok::<Config, UsageError>(
                Config { mode: chosen, duration: window_spec(times@), worker_count },
            ),
            None => config is Err && config->Err_0.mode@ == mode@,
        },
{
    match parse_mode(mode) {
        Some(chosen) => Ok(Config { mode: chosen, duration: parse_times(times), worker_count }),
        None => Err(UsageError { mode: String::from_str(mode) }),
    }
}

} // verus!
