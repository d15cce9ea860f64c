//! Tags: a name and a message attached to a commit.

use vstd::prelude::*;
use crate::error::RepoError;
use crate::model::{is_present, lift, present};
use crate::repository::commit::{Commit, CommitView};

verus! {

/// What a tag is.
pub struct TagView {
    pub name: Seq<char>,
    pub commit: CommitView,
    pub message: Seq<char>,
}

impl TagView {
    /// Name and message are both present.
    pub open spec fn wf(self) -> bool {
        present(self.name) && present(self.message)
    }

    /// The outcome of building a tag from its parts.
    pub open spec fn create(name: Seq<char>, commit: CommitView, message: Seq<char>) -> Result<
        TagView,
        RepoError,
    > {
        if present(name) && present(message) {
            Ok(TagView { name, commit, message })
        } else {
            Err(RepoError::InvalidArgument)
        }
    }
}

/// A named mark on a commit.
pub struct Tag {
    pub(crate) name: String,
    pub(crate) commit: Commit,
    pub(crate) message: String,
}

impl View for Tag {
    type V = TagView;

    closed spec fn view(&self) -> TagView {
        TagView { name: self.name@, commit: self.commit@, message: self.message@ }
    }
}

impl Tag {
    /// Builds a tag; an empty name or message is refused.
    pub fn new(name: String, commit: Commit, message: String) -> (r: Result<Tag, RepoError>)
        ensures
            lift(r) == TagView::create(name@, commit@, message@),
            r matches Ok(v) ==> v@.wf(),
    {
        if !is_present(&name) || !is_present(&message) {
            return Err(RepoError::InvalidArgument);
        }
        Ok(Tag { name, commit, message })
    }

    pub fn get_name(&self) -> (r: &String)
        ensures
            r@ == self@.name,
    {
        &self.name
    }

    /// The commit that the tag marks.
    pub fn get_commit(&self) -> (r: &Commit)
        ensures
            r@ == self@.commit,
    {
        &self.commit
    }

    /// The commit that the tag marks, to be changed in place: what the
    /// borrower leaves is the commit afterwards.
    pub fn get_commit_mut(&mut self) -> (r: &mut Commit)
        ensures
            r@ == old(self)@.commit,
            final(self)@ == (TagView { commit: final(r)@, ..old(self)@ }),
    {
        &mut self.commit
    }

    pub fn get_message(&self) -> (r: &String)
        ensures
            r@ == self@.message,
    {
        &self.message
    }
}

} // verus!
