//! Metadata records: when a file was created and updated, and by whom.

use vstd::prelude::*;
use crate::error::RepoError;
use crate::model::{is_present, lift, present};

verus! {

/// What a metadata record is.
pub struct MetadataView {
    pub created: u64,
    pub updated: u64,
    pub author: Seq<char>,
}

impl MetadataView {
    /// The author is present.
    pub open spec fn wf(self) -> bool {
        present(self.author)
    }

    /// The outcome of building a record from its parts.
    pub open spec fn create(created: u64, updated: u64, author: Seq<char>) -> Result<
        MetadataView,
        RepoError,
    > {
        if present(author) {
            Ok(MetadataView { created, updated, author })
        } else {
            Err(RepoError::InvalidArgument)
        }
    }
}

/// The times and the author attached to a file.
pub struct Metadata {
    pub created: u64,
    pub updated: u64,
    pub author: String,
}

impl View for Metadata {
    type V = MetadataView;

    open spec fn view(&self) -> MetadataView {
        MetadataView { created: self.created, updated: self.updated, author: self.author@ }
    }
}

impl Metadata {
    /// Builds a record; an empty author is refused.
    pub fn new(created: u64, updated: u64, author: String) -> (r: Result<Metadata, RepoError>)
        ensures
            lift(r) == MetadataView::create(created, updated, author@),
            r matches Ok(v) ==> v@.wf(),
    {
        if !is_present(&author) {
            return Err(RepoError::InvalidArgument);
        }
        Ok(Metadata { created, updated, author })
    }

    pub fn get_created(&self) -> (r: u64)
        ensures
            r == self@.created,
    {
        self.created
    }

    pub fn get_updated(&self) -> (r: u64)
        ensures
            r == self@.updated,
    {
        self.updated
    }

    pub fn get_author(&self) -> (r: &String)
        ensures
            r@ == self@.author,
    {
        &self.author
    }
}

} // verus!
