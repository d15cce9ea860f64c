//! Branches: a head and an append-only history of commits.

use vstd::prelude::*;
use crate::error::RepoError;
use crate::model::{is_present, lemma_views_push, lift, present, views};
use crate::repository::commit::{Commit, CommitView};

verus! {

/// What a branch is: its name, its current commit, its history in the order
/// in which the commits were added, and its activity.
pub struct BranchView {
    pub name: Seq<char>,
    pub head: CommitView,
    pub commits: Seq<CommitView>,
    pub archived: bool,
    pub last_active: u64,
}

impl BranchView {
    /// The name is present, and once the history holds a commit the head is
    /// the last one of it.
    pub open spec fn wf(self) -> bool {
        &&& present(self.name)
        &&& self.commits.len() > 0 ==> self.head == self.commits.last()
    }

    /// The outcome of building a branch: its history starts empty and it is
    /// not archived.
    pub open spec fn create(name: Seq<char>, head: CommitView, last_active: u64) -> Result<
        BranchView,
        RepoError,
    > {
        if present(name) {
            Ok(BranchView { name, head, commits: Seq::empty(), archived: false, last_active })
        } else {
            Err(RepoError::InvalidArgument)
        }
    }

    /// The branch after a commit was added: the commit ends the history and
    /// is the head.
    pub open spec fn with_commit(self, commit: CommitView) -> BranchView {
        BranchView { head: commit, commits: self.commits.push(commit), ..self }
    }

    /// The branch, archived.
    pub open spec fn marked_archived(self) -> BranchView {
        BranchView { archived: true, ..self }
    }

    /// The branch after the inactivity rule was applied with a threshold: a
    /// branch last active before the threshold is archived, and an archived
    /// branch stays archived.
    pub open spec fn archived_if_inactive(self, threshold: u64) -> BranchView {
        BranchView { archived: self.archived || self.last_active < threshold, ..self }
    }
}

/// A named line of history.
pub struct Branch {
    pub(crate) name: String,
    pub(crate) head: Commit,
    pub(crate) commits: Vec<Commit>,
    pub(crate) archived: bool,
    pub(crate) last_active: u64,
}

impl View for Branch {
    type V = BranchView;

    closed spec fn view(&self) -> BranchView {
        BranchView {
            name: self.name@,
            head: self.head@,
            commits: views(self.commits@),
            archived: self.archived,
            last_active: self.last_active,
        }
    }
}

impl Branch {
    /// Builds a branch with an empty history; an empty name is refused.
    pub fn new(name: String, head: Commit, last_active: u64) -> (r: Result<Branch, RepoError>)
        ensures
            lift(r) == BranchView::create(name@, head@, last_active),
            r matches Ok(v) ==> v@.wf(),
    {
        if !is_present(&name) {
            return Err(RepoError::InvalidArgument);
        }
        let b = Branch { name, head, commits: Vec::new(), archived: false, last_active };
        assert(b@.commits =~= Seq::empty());
        Ok(b)
    }

    /// Archives the branch if it was last active before the threshold. An
    /// archived branch is never brought back.
    pub fn archive_if_inactive(&mut self, threshold: u64)
        ensures
            final(self)@ == old(self)@.archived_if_inactive(threshold),
            old(self)@.wf() ==> final(self)@.wf(),
    {
        if self.last_active < threshold {
            self.archived = true;
        }
    }

    /// Archives the branch, whenever it was last active.
    pub fn archive(&mut self)
        ensures
            final(self)@ == old(self)@.marked_archived(),
            old(self)@.wf() ==> final(self)@.wf(),
    {
        self.archived = true;
    }

    /// Appends a copy of the commit to the history and makes the commit the
    /// head, as one step.
    pub fn add_commit(&mut self, commit: Commit)
        ensures
            final(self)@ == old(self)@.with_commit(commit@),
            old(self)@.wf() ==> final(self)@.wf(),
    {
        let copy = commit.clone();
        proof {
            lemma_views_push(self.commits@, copy);
        }
        self.commits.push(copy);
        self.head = commit;
    }

    pub fn get_name(&self) -> (r: &String)
        ensures
            r@ == self@.name,
    {
        &self.name
    }

    /// The current commit.
    pub fn get_head(&self) -> (r: &Commit)
        ensures
            r@ == self@.head,
    {
        &self.head
    }

    /// The history, oldest first.
    pub fn get_commits(&self) -> (r: &Vec<Commit>)
        ensures
            views(r@) == self@.commits,
    {
        &self.commits
    }

    /// The current commit, to be changed in place: what the borrower leaves
    /// is the head afterwards. The history is not touched.
    pub fn get_head_mut(&mut self) -> (r: &mut Commit)
        ensures
            r@ == old(self)@.head,
            final(self)@ == (BranchView { head: final(r)@, ..old(self)@ }),
    {
        &mut self.head
    }

    /// The history, to be changed in place: what the borrower leaves is the
    /// history afterwards. The head is not touched.
    pub fn get_commits_mut(&mut self) -> (r: &mut Vec<Commit>)
        ensures
            views(r@) == old(self)@.commits,
            final(self)@ == (BranchView { commits: views(final(r)@), ..old(self)@ }),
    {
        &mut self.commits
    }

    pub fn is_archived(&self) -> (r: bool)
        ensures
            r == self@.archived,
    {
        self.archived
    }

    pub fn get_last_active(&self) -> (r: u64)
        ensures
            r == self@.last_active,
    {
        self.last_active
    }
}

/// A branch that was built is well formed, has an empty history and is not
/// archived.
pub proof fn law_new_branch_is_fresh(name: Seq<char>, head: CommitView, last_active: u64)
    ensures
        BranchView::create(name, head, last_active) is Ok <==> present(name),
        BranchView::create(name, head, last_active) matches Ok(b) ==> b.wf() && b.head == head
            && b.commits.len() == 0 && !b.archived && b.last_active == last_active,
{
}

/// After a commit was added it is the last of the history and it is the
/// head; what the history held before is still there, in place; and the
/// name, the archive flag and the activity are as they were.
pub proof fn law_added_commit_is_head_and_last(b: BranchView, commit: CommitView)
    ensures
        b.with_commit(commit).commits.len() == b.commits.len() + 1,
        b.with_commit(commit).commits.last() == commit,
        b.with_commit(commit).head == commit,
        b.with_commit(commit).commits.drop_last() == b.commits,
        b.with_commit(commit).name == b.name,
        b.with_commit(commit).archived == b.archived,
        b.with_commit(commit).last_active == b.last_active,
        present(b.name) ==> b.with_commit(commit).wf(),
{
    assert(b.with_commit(commit).commits.drop_last() =~= b.commits);
}

/// A branch that is not archived is archived by the inactivity rule exactly
/// when it was last active before the threshold.
pub proof fn law_archived_iff_inactive(b: BranchView, threshold: u64)
    requires
        !b.archived,
    ensures
        b.archived_if_inactive(threshold).archived <==> b.last_active < threshold,
{
}

/// An archived branch stays archived under every later application of the
/// inactivity rule and under every added commit, and the rule changes
/// nothing but the archive flag.
pub proof fn law_archived_is_permanent(
    b: BranchView,
    first: u64,
    second: u64,
    commit: CommitView,
)
    ensures
        b.archived ==> b.archived_if_inactive(first).archived,
        b.archived_if_inactive(first).archived ==> b.archived_if_inactive(
            first,
        ).archived_if_inactive(second).archived,
        b.archived ==> b.with_commit(commit).archived,
        b.archived_if_inactive(first) == (BranchView {
            archived: b.archived_if_inactive(first).archived,
            ..b
        }),
        b.archived_if_inactive(first).archived_if_inactive(first) == b.archived_if_inactive(first),
        b.wf() ==> b.archived_if_inactive(first).wf(),
{
}

} // verus!
