use vstd::prelude::*;

verus! {

/// Words generated for a session limited by time.
pub const TIMED_WORD_COUNT: usize = 100;

/// How a session is bounded: by a number of words, or by a number of seconds.
#[derive(Clone, Copy, Debug, PartialEq, Eq, Structural)]
pub enum Commands {
    Words { count: usize },
    Time { seconds: usize },
}

impl Commands {
    /// The number of words to generate.
    pub fn word_count(&self) -> (r: usize)
        ensures
            r == match *self {
                Commands::Words { count } => count,
                Commands::Time { .. } => TIMED_WORD_COUNT,
            },
    {
        match self {
            Commands::Words { count } => *count,
            Commands::Time { .. } => TIMED_WORD_COUNT,
        }
    }

    /// The time limit in seconds, if any.
    pub fn time_limit(&self) -> (r: Option<usize>)
        ensures
            r == match *self {
                Commands::Words { .. } => None::<usize>,
                Commands::Time { seconds } => Some(seconds),
            },
    {
        match self {
            Commands::Words { .. } => None,
            Commands::Time { seconds } => Some(*seconds),
        }
    }
}

/// The parsed command line.
pub struct Cli {
    pub command: Commands,
}

} // verus!
