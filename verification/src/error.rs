//! Error taxonomy of the protocol surface, wire-compatible by status code.

use vstd::prelude::*;

use crate::types::HgId;

verus! {

/// A failure surfaced to the protocol caller.
///
/// Per-item failures inside a batch are captured in that item's own result
/// and do not abort sibling items; whole-call failures are returned without
/// producing any partial sequence.
#[derive(Debug)]
pub enum ApiError {
    /// Requested content is absent from the store (not-found class).
    NotFound(HgId),
    /// Store failure, graph-index failure, or a corrupt identifier surfaced
    /// while packaging a response (internal-error class).
    Internal,
    /// The method is intentionally unsupported (not-implemented class).
    NotImplemented,
    /// Whole-call rejection, e.g. an unsupported attribute combination
    /// (invalid-request class).
    InvalidRequest,
}

impl ApiError {
    /// The HTTP-compatible status code of this error class.
    pub fn status(&self) -> (r: u16)
        ensures
            self is NotFound ==> r == 404,
            self is Internal ==> r == 500,
            self is NotImplemented ==> r == 501,
            self is InvalidRequest ==> r == 400,
    {
        match self {
            ApiError::NotFound(_) => 404,
            ApiError::Internal => 500,
            ApiError::NotImplemented => 501,
            ApiError::InvalidRequest => 400,
        }
    }
}

/// An opaque failure of the local content store (an I/O fault, not absence).
#[derive(Debug)]
pub struct StoreError;

/// An opaque failure of the commit-graph index collaborator.
#[derive(Debug)]
pub struct DagError;

/// Maps a store failure to the internal-error class.
pub fn map_store_err(_e: StoreError) -> (r: ApiError)
    ensures
        r is Internal,
{
    ApiError::Internal
}

/// Maps a graph-index failure to the internal-error class.
pub fn map_dag_err(_e: DagError) -> (r: ApiError)
    ensures
        r is Internal,
{
    ApiError::Internal
}

/// The distinguished condition returned by every unimplemented method.
pub fn not_implemented_error() -> (r: ApiError)
    ensures
        r is NotImplemented,
{
    ApiError::NotImplemented
}

} // verus!
