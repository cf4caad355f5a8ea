//! Configuration of a run: the command-line surface, as plain values.
//! Parsing the actual command line is the surrounding program's job.

use vstd::prelude::*;

verus! {

/// Default per-source buffer capacity.
pub const DEFAULT_LINES_MAX: usize = 100;

/// Default interval between tick messages, in milliseconds.
pub const DEFAULT_TICK_RATE: u64 = 200;

/// Command line options.
pub struct Opt {
    /// Maximum number of lines to keep for each logfile.
    pub lines_max: usize,
    /// Time between ticks in milliseconds.
    pub tick_rate: u64,
    /// Ignore any existing logfile content.
    pub ignore_existing: bool,
    /// One or more logfiles to monitor.
    pub files: Vec<String>,
    /// Show a debug window (reserved, accepted but without effect).
    pub debug_window: bool,
}

impl Default for Opt {
    /// The defaults of the command-line surface, with no files named.
    fn default() -> (opt: Opt)
        ensures
            opt.lines_max == DEFAULT_LINES_MAX,
            opt.tick_rate == DEFAULT_TICK_RATE,
            !opt.ignore_existing,
            opt.files@.len() == 0,
            !opt.debug_window,
    {
        Opt {
            lines_max: DEFAULT_LINES_MAX,
            tick_rate: DEFAULT_TICK_RATE,
            ignore_existing: false,
            files: Vec::new(),
            debug_window: false,
        }
    }
}

} // verus!
