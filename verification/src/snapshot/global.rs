use vstd::prelude::*;

verus! {

/// Why a global snapshot file could not be read. The file reader that gives these errors is
/// not part of this crate; the variants are placeholders for its causes.
#[derive(Clone, Copy, Debug, PartialEq, Eq, Structural)]
pub enum FileError {
    /// The file could not be opened or read.
    IoError,
    /// A line of the file is not an address and a balance.
    InvalidLine,
}

} // verus!
