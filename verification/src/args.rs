//! The configuration a caller hands to the updater.

use vstd::prelude::*;

verus! {

/// The paths and the one-time version override that select where the
/// updater works.  `update_dir` and `version_file` are relative to
/// `server_dir`.
pub struct Args {
    /// The live server directory, the target of the merge.
    pub server_dir: String,
    /// The staging directory, relative to the server directory.
    pub update_dir: String,
    /// The version record file, relative to the server directory.
    pub version_file: String,
    /// When present, the authoritative current version: it is written to
    /// the version record before any comparison, replacing any previous
    /// content.
    pub set_first_version: Option<String>,
}

} // verus!
