//! What the command line asks for.

use std::path::PathBuf;
use vstd::prelude::*;

verus! {

/// A path of the file system, as `std::path::PathBuf` holds it. It is only
/// carried along: nothing here looks into it.
#[verifier::external_type_specification]
#[verifier::external_body]
pub struct ExPathBuf(PathBuf);

/// The arguments of one run.
#[derive(Debug)]
pub struct Args {
    /// Path to the config file
    pub file_path: PathBuf,
    /// Override default time in seconds to check websites
    pub check_time_s: Option<u64>,
}

} // verus!
