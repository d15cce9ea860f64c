//! The ways in which an operation of the repository model can be refused.

use vstd::prelude::*;

verus! {

/// Why an operation produced no value or left its target unchanged.
#[derive(Debug, Clone, Copy, PartialEq, Eq, Structural)]
pub enum RepoError {
    /// A required text or payload was empty, or a required size was zero.
    InvalidArgument,
    /// A segment with the same index is already part of the blob.
    DuplicateKey,
}

} // verus!
