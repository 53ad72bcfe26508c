use vstd::prelude::*;

verus! {

/// Why a local snapshot file could not be read. The file reader that gives these errors is
/// not part of this crate; the variants are placeholders for its causes.
#[derive(Clone, Copy, Debug, PartialEq, Eq, Structural)]
pub enum FileError {
    /// The file could not be opened or read.
    IoError,
    /// The content of the file is not a local snapshot.
    InvalidContent,
}

/// Why a local snapshot file could not be downloaded. The downloader that gives these errors is
/// not part of this crate; the variant is a placeholder for its causes.
#[derive(Clone, Copy, Debug, PartialEq, Eq, Structural)]
pub enum DownloadError {
    /// None of the download URLs gave the file.
    NoDownloadSourceAvailable,
}

} // verus!
