//! The error kinds of the service.
use vstd::prelude::*;

verus! {

/// One tag per failure site.
#[derive(Debug, Clone, Copy, PartialEq, Eq, Structural)]
pub enum NasError {
    FailedToReadFile,
    FailedToParse,
    FailedToSerialize,
    FailedToWrite,
    FailedToCreateFolder,
    FailedToEncode,
    InvalidPath,
    Ignore,
}

} // verus!
