use vstd::prelude::*;

verus! {

/// The ways a cursor operation can fail.
#[derive(Debug, PartialEq, Eq)]
pub enum Error {
    /// The file or the key that should hold the cursor is absent.
    NotFound(String),
    /// The stored text is not a valid position.
    ParseError(String),
    /// The connection to a remote store could not be made or was lost.
    ConnectionError(String),
    /// Reading or writing the file system failed.
    IoError(String),
}

} // verus!
