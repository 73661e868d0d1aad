//! The error taxonomy. Every failure is surfaced to the immediate caller
//! unchanged; no operation in this library retries or recovers internally.

use vstd::prelude::*;

verus! {

/// Why a build or read operation failed.
#[derive(Debug, Clone, PartialEq)]
pub enum PkzError {
    /// A source adapter call failed, or the adapter broke its contract
    /// (a negative child count, or counts whose aggregate exceeds the
    /// 64-bit signed range of the stored count fields).
    Adapter(String),
    /// The container layer failed: here, a freshly drawn entry token that
    /// collides with a name already present, or a second metadata entry.
    ContainerIo(String),
    /// A requested entry name is absent from the container.
    NotFound,
    /// Metadata bytes are not valid text or do not follow the record schema.
    Decode(String),
}

impl PkzError {
    /// A short description of the error, usable by a host for display.
    pub fn message(&self) -> (r: String)
        ensures
            self matches PkzError::Adapter(m) ==> r == m,
            self matches PkzError::ContainerIo(m) ==> r == m,
            self matches PkzError::Decode(m) ==> r == m,
    {
        match self {
            PkzError::Adapter(m) => m.clone(),
            PkzError::ContainerIo(m) => m.clone(),
            PkzError::NotFound => "entry not found".to_owned(),
            PkzError::Decode(m) => m.clone(),
        }
    }
}

} // verus!
