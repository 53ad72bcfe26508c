use vstd::prelude::*;

pub mod config;
pub mod global;
pub mod loader;
pub mod local;

verus! {

/// Why a snapshot could not be loaded.
#[derive(Debug)]
pub enum Error {
    /// The global snapshot file could not be read.
    Global(global::FileError),
    /// The local snapshot file could not be read.
    Local(local::FileError),
    /// The local snapshot file could not be downloaded.
    Download(local::DownloadError),
}

} // verus!
