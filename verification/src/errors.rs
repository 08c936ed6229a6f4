//! Error taxonomy for the resolution, library, and icon-cache operations.
use vstd::prelude::*;

verus! {

/// Why a resolution, library, or cache operation failed.
///
/// Every failure is terminal for the operation that produced it; the
/// carried `String` is a human-readable cause.
#[derive(Debug)]
pub enum PlayWithError {
    /// A remote call could not complete.
    TransportFailure(String),
    /// The remote service answered with a non-success status.
    RemoteStatusFailure(String),
    /// A payload was malformed or an expected field was absent from it.
    ParseFailure(String),
    /// A cache path could not be created, opened, read or written.
    FilesystemFailure(String),
    /// A required field was absent from an otherwise well-formed response.
    NotFound(String),
}

impl PlayWithError {
    /// The human-readable cause carried by the error.
    pub fn message(&self) -> (r: &String)
        ensures
            r == match self {
                PlayWithError::TransportFailure(m) => m,
                PlayWithError::RemoteStatusFailure(m) => m,
                PlayWithError::ParseFailure(m) => m,
                PlayWithError::FilesystemFailure(m) => m,
                PlayWithError::NotFound(m) => m,
            },
    {
        match self {
            PlayWithError::TransportFailure(m) => m,
            PlayWithError::RemoteStatusFailure(m) => m,
            PlayWithError::ParseFailure(m) => m,
            PlayWithError::FilesystemFailure(m) => m,
            PlayWithError::NotFound(m) => m,
        }
    }
}

} // verus!
