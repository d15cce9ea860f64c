//! Stashes: change summaries set aside under a message.

use vstd::prelude::*;
use crate::error::RepoError;
use crate::model::{is_present, lemma_views_push, lift, present, views};
use crate::repository::change::{Summary, SummaryView};

verus! {

/// What a stash is: its identifier, its changes in the order in which they
/// were added, its message and its time.
pub struct StashView {
    pub id: Seq<char>,
    pub changes: Seq<SummaryView>,
    pub message: Seq<char>,
    pub timestamp: u64,
}

impl StashView {
    /// Identifier and message are both present.
    pub open spec fn wf(self) -> bool {
        present(self.id) && present(self.message)
    }

    /// The outcome of building a stash: it starts without changes.
    pub open spec fn create(id: Seq<char>, message: Seq<char>, timestamp: u64) -> Result<
        StashView,
        RepoError,
    > {
        if present(id) && present(message) {
            Ok(StashView { id, changes: Seq::empty(), message, timestamp })
        } else {
            Err(RepoError::InvalidArgument)
        }
    }

    /// The stash with one more change at the end.
    pub open spec fn with_change(self, change: SummaryView) -> StashView {
        StashView { changes: self.changes.push(change), ..self }
    }
}

/// A set of changes put aside.
pub struct Stash {
    pub(crate) id: String,
    pub(crate) changes: Vec<Summary>,
    pub(crate) message: String,
    pub(crate) timestamp: u64,
}

impl View for Stash {
    type V = StashView;

    closed spec fn view(&self) -> StashView {
        StashView {
            id: self.id@,
            changes: views(self.changes@),
            message: self.message@,
            timestamp: self.timestamp,
        }
    }
}

impl Stash {
    /// Builds a stash without changes; an empty identifier or message is
    /// refused.
    pub fn new(id: String, message: String, timestamp: u64) -> (r: Result<Stash, RepoError>)
        ensures
            lift(r) == StashView::create(id@, message@, timestamp),
            r matches Ok(v) ==> v@.wf(),
    {
        if !is_present(&id) || !is_present(&message) {
            return Err(RepoError::InvalidArgument);
        }
        let stash = Stash { id, changes: Vec::new(), message, timestamp };
        assert(stash@.changes =~= Seq::empty());
        Ok(stash)
    }

    /// Adds a change at the end.
    pub fn add_change(&mut self, change: Summary)
        ensures
            final(self)@ == old(self)@.with_change(change@),
            old(self)@.wf() ==> final(self)@.wf(),
    {
        proof {
            lemma_views_push(self.changes@, change);
        }
        self.changes.push(change);
    }

    pub fn get_id(&self) -> (r: &String)
        ensures
            r@ == self@.id,
    {
        &self.id
    }

    /// The changes, in the order in which they were added.
    pub fn get_changes(&self) -> (r: &Vec<Summary>)
        ensures
            views(r@) == self@.changes,
    {
        &self.changes
    }

    /// The changes, to be changed in place: what the borrower leaves are the
    /// changes afterwards.
    pub fn get_changes_mut(&mut self) -> (r: &mut Vec<Summary>)
        ensures
            views(r@) == old(self)@.changes,
            final(self)@ == (StashView { changes: views(final(r)@), ..old(self)@ }),
    {
        &mut self.changes
    }

    pub fn get_message(&self) -> (r: &String)
        ensures
            r@ == self@.message,
    {
        &self.message
    }

    pub fn get_timestamp(&self) -> (r: u64)
        ensures
            r == self@.timestamp,
    {
        self.timestamp
    }
}

} // verus!
