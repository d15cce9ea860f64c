//! A model of the object graph of a version-controlled repository:
//! segmented blobs, commits, branches, remotes and the file tree.
//!
//! Every value has a mathematical view, and every operation states how the
//! view after the call follows from the view before it.

pub mod error;
pub mod model;
pub mod repository;
