//! The files that the driver needs.

use vstd::prelude::*;

verus! {

/// A file that the driver needs and that is not there.
#[derive(Debug, PartialEq, Eq)]
pub struct MissingFile {
    /// The path at which the file was looked for.
    pub path: String,
}

/// Settles on a file of the driver: the path, if something exists there, and
/// else the error that names the path. Whether something exists at the path is
/// for the caller to find out.
pub fn rbrew_file(path: String, exists: bool) -> (result: Result<String, MissingFile>)
    ensures
        match result {
            Ok(found) => exists && found@ == path@,
            Err(missing) => !exists && missing.path@ == path@,
        },
{
    if exists {
        Ok(path)
    } else {
        Err(MissingFile { path })
    }
}

} // verus!
