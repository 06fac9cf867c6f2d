//! How much the driver says.

use vstd::prelude::*;

use crate::text::same_text;

verus! {

/// How much the driver says, from least to most.
#[derive(Debug, Clone, Copy, PartialEq, Eq, Structural)]
pub enum Verbosity {
    Quiet,
    Normal,
    Verbose,
}

impl Default for Verbosity {
    fn default() -> (verbosity: Verbosity)
        ensures
            verbosity == Verbosity::Normal,
    {
        Verbosity::Normal
    }
}

impl Verbosity {
    /// The place of the verbosity in the order from least to most.
    pub open spec fn rank(self) -> int {
        match self {
            Verbosity::Quiet => 0,
            Verbosity::Normal => 1,
            Verbosity::Verbose => 2,
        }
    }

    /// The verbosity that an argument names, if it names one.
    pub open spec fn named(value: Seq<char>) -> Option<Verbosity> {
        if value == "quiet"@ {
            Some(Verbosity::Quiet)
        } else if value == "normal"@ {
            Some(Verbosity::Normal)
        } else if value == "verbose"@ {
            Some(Verbosity::Verbose)
        } else {
            None
        }
    }

    fn level(self) -> (level: u8)
        ensures
            level == self.rank(),
    {
        match self {
            Verbosity::Quiet => 0,
            Verbosity::Normal => 1,
            Verbosity::Verbose => 2,
        }
    }

    /// Whether something meant for `level` is said at this verbosity: it is if
    /// this verbosity is `level` or more.
    pub fn should_output(self, level: Verbosity) -> (said: bool)
        ensures
            said == (self.rank() >= level.rank()),
    {
        self.level() >= level.level()
    }

    /// Reads the verbosity from an argument of the command line.
    pub fn from_arg_value(value: &str) -> (result: Result<Verbosity, String>)
        ensures
            match result {
                Ok(verbosity) => Self::named(value@) == Some(verbosity),
                Err(message) => Self::named(value@) is None && message@
                    == "expected 'quiet', 'normal' or 'verbose'."@,
            },
    {
        if same_text(value, "quiet") {
            Ok(Verbosity::Quiet)
        } else if same_text(value, "normal") {
            Ok(Verbosity::Normal)
        } else if same_text(value, "verbose") {
            Ok(Verbosity::Verbose)
        } else {
            Err("expected 'quiet', 'normal' or 'verbose'.".to_owned())
        }
    }
}

} // verus!
