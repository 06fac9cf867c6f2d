//! The decisions of the build driver.
//!
//! The driver runs the toolchain twice, once for the user to watch and once to
//! learn what was built, and then copies or converts each executable. Running
//! programs and touching files is the caller's part. What is decided here:
//! whether a request makes sense, what the toolchain is asked, which
//! executables its answer names, and where each is left.

pub mod command;
pub mod events;
pub mod fields;
pub mod layout;
pub mod place;
pub mod util;
pub mod verbosity;

pub use command::BuildRequest;
pub use events::{executables, split_records, Member};
pub use fields::{OutputType, Platform};
pub use place::output_place;
pub use util::{rbrew_file, MissingFile};
pub use verbosity::Verbosity;

use vstd::prelude::*;

verus! {

/// Why a build comes to nothing.
#[derive(Debug, Clone, Copy, PartialEq, Eq, Structural)]
pub enum BuildError {
    /// The platform has no output of the type that was asked for.
    UnsupportedOutput,
    /// A record of the toolchain's answer cannot be read: it is not JSON, or it
    /// holds more digits in a row than a number is read with.
    InvalidJson,
    /// A record of the toolchain's answer is JSON, but not an object.
    NotAnObject,
}

} // verus!
