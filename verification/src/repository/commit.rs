//! Commits: one snapshot of authorship, message, time and accumulated changes.

use vstd::prelude::*;
use crate::error::RepoError;
use crate::model::{is_present, lemma_views_push, lift, present, views};
use crate::repository::change::{Detail, DetailView, Summary, SummaryView};

verus! {

/// What a commit is.
pub struct CommitView {
    pub hash: Seq<char>,
    pub author: Seq<char>,
    pub message: Seq<char>,
    pub timestamp: u64,
    pub changes: Seq<SummaryView>,
    pub detailed_changes: Seq<DetailView>,
}

impl CommitView {
    /// Hash, author and message are present, and every summary has its detail.
    pub open spec fn wf(self) -> bool {
        &&& present(self.hash)
        &&& present(self.author)
        &&& present(self.message)
        &&& self.changes.len() == self.detailed_changes.len()
    }

    /// The outcome of building a commit: it starts without changes.
    pub open spec fn create(
        hash: Seq<char>,
        author: Seq<char>,
        message: Seq<char>,
        timestamp: u64,
    ) -> Result<CommitView, RepoError> {
        if present(hash) && present(author) && present(message) {
            Ok(
                CommitView {
                    hash,
                    author,
                    message,
                    timestamp,
                    changes: Seq::empty(),
                    detailed_changes: Seq::empty(),
                },
            )
        } else {
            Err(RepoError::InvalidArgument)
        }
    }

    /// The commit with one more change: summary and detail go to the end of
    /// their lists together.
    pub open spec fn with_change(self, summary: SummaryView, detail: DetailView) -> CommitView {
        CommitView {
            changes: self.changes.push(summary),
            detailed_changes: self.detailed_changes.push(detail),
            ..self
        }
    }
}

/// A snapshot record with the changes that it accumulated.
pub struct Commit {
    pub(crate) hash: String,
    pub(crate) author: String,
    pub(crate) message: String,
    pub(crate) timestamp: u64,
    pub(crate) changes: Vec<Summary>,
    pub(crate) detailed_changes: Vec<Detail>,
}

impl View for Commit {
    type V = CommitView;

    closed spec fn view(&self) -> CommitView {
        CommitView {
            hash: self.hash@,
            author: self.author@,
            message: self.message@,
            timestamp: self.timestamp,
            changes: views(self.changes@),
            detailed_changes: views(self.detailed_changes@),
        }
    }
}

impl Clone for Commit {
    /// A copy with the same view: the history of a branch holds such copies.
    fn clone(&self) -> (r: Self)
        ensures
            r@ == self@,
    {
        let changes = self.changes.clone();
        let detailed_changes = self.detailed_changes.clone();
        assert(changes@ =~= self.changes@);
        assert(detailed_changes@ =~= self.detailed_changes@);
        Commit {
            hash: self.hash.clone(),
            author: self.author.clone(),
            message: self.message.clone(),
            timestamp: self.timestamp,
            changes,
            detailed_changes,
        }
    }
}

impl Commit {
    /// Builds a commit without changes; an empty hash, author or message is
    /// refused.
    pub fn new(hash: String, author: String, message: String, timestamp: u64) -> (r: Result<
        Commit,
        RepoError,
    >)
        ensures
            lift(r) == CommitView::create(hash@, author@, message@, timestamp),
            r matches Ok(v) ==> v@.wf(),
    {
        if !is_present(&hash) || !is_present(&author) || !is_present(&message) {
            return Err(RepoError::InvalidArgument);
        }
        let c = Commit {
            hash,
            author,
            message,
            timestamp,
            changes: Vec::new(),
            detailed_changes: Vec::new(),
        };
        assert(c@.changes =~= Seq::empty());
        assert(c@.detailed_changes =~= Seq::empty());
        Ok(c)
    }

    /// Appends a change: its summary and its detail, as a pair.
    pub fn add_change(&mut self, summary: Summary, detail: Detail)
        ensures
            final(self)@ == old(self)@.with_change(summary@, detail@),
            old(self)@.wf() ==> final(self)@.wf(),
    {
        proof {
            lemma_views_push(self.changes@, summary);
            lemma_views_push(self.detailed_changes@, detail);
        }
        self.changes.push(summary);
        self.detailed_changes.push(detail);
    }

    pub fn get_hash(&self) -> (r: &String)
        ensures
            r@ == self@.hash,
    {
        &self.hash
    }

    pub fn get_author(&self) -> (r: &String)
        ensures
            r@ == self@.author,
    {
        &self.author
    }

    pub fn get_message(&self) -> (r: &String)
        ensures
            r@ == self@.message,
    {
        &self.message
    }

    pub fn get_timestamp(&self) -> (r: u64)
        ensures
            r == self@.timestamp,
    {
        self.timestamp
    }

    /// The summaries, in the order in which they were added.
    pub fn get_changes(&self) -> (r: &Vec<Summary>)
        ensures
            views(r@) == self@.changes,
    {
        &self.changes
    }

    /// The details, in the order in which they were added.
    pub fn get_detailed_changes(&self) -> (r: &Vec<Detail>)
        ensures
            views(r@) == self@.detailed_changes,
    {
        &self.detailed_changes
    }
}

/// Adding a change keeps a commit well formed and lengthens both lists by
/// one: they grow in lock-step.
pub proof fn law_changes_in_lock_step(c: CommitView, summary: SummaryView, detail: DetailView)
    requires
        c.wf(),
    ensures
        c.with_change(summary, detail).wf(),
        c.with_change(summary, detail).changes.len() == c.changes.len() + 1,
        c.with_change(summary, detail).detailed_changes.len() == c.detailed_changes.len() + 1,
        c.with_change(summary, detail).changes.last() == summary,
        c.with_change(summary, detail).detailed_changes.last() == detail,
{
}

/// A commit that was built is well formed and has no changes yet.
pub proof fn law_new_commit_is_bare(
    hash: Seq<char>,
    author: Seq<char>,
    message: Seq<char>,
    timestamp: u64,
)
    ensures
        CommitView::create(hash, author, message, timestamp) is Ok <==> present(hash) && present(
            author,
        ) && present(message),
        CommitView::create(hash, author, message, timestamp) matches Ok(c) ==> c.wf()
            && c.changes.len() == 0 && c.detailed_changes.len() == 0,
{
}

} // verus!
