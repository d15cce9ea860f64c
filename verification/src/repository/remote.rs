//! Remotes: a collection of branches under a retention limit.

use vstd::prelude::*;
use crate::error::RepoError;
use crate::model::{is_present, lemma_views_push, lemma_views_take, lift, present, views};
use crate::repository::branch::{Branch, BranchView};

verus! {

/// What retention does with the branches beyond the limit.
#[derive(Debug, Clone, Copy, PartialEq, Eq, Structural)]
pub enum Retention {
    /// They are removed from the remote for good.
    Evict,
    /// They stay in the remote and are archived.
    Flag,
}

/// What a remote is: its name, its address and its branches in the order in
/// which they were added.
pub struct RemoteView {
    pub name: Seq<char>,
    pub url: Seq<char>,
    pub branches: Seq<BranchView>,
}

impl RemoteView {
    /// Name and address are both present.
    pub open spec fn wf(self) -> bool {
        present(self.name) && present(self.url)
    }

    /// The outcome of building a remote: it starts without branches.
    pub open spec fn create(name: Seq<char>, url: Seq<char>) -> Result<RemoteView, RepoError> {
        if present(name) && present(url) {
            Ok(RemoteView { name, url, branches: Seq::empty() })
        } else {
            Err(RepoError::InvalidArgument)
        }
    }

    /// The remote with one more branch at the end.
    pub open spec fn with_branch(self, branch: BranchView) -> RemoteView {
        RemoteView { branches: self.branches.push(branch), ..self }
    }

    /// The remote after retention with a limit: where it holds more branches
    /// than the limit, only the first `limit` of them stay; the others are
    /// gone.
    pub open spec fn retained(self, limit: nat) -> RemoteView {
        if self.branches.len() > limit {
            RemoteView { branches: self.branches.take(limit as int), ..self }
        } else {
            self
        }
    }

    /// The remote after flagging with a limit: every branch stays in its
    /// place, and those beyond the first `limit` are archived.
    pub open spec fn flagged(self, limit: nat) -> RemoteView {
        RemoteView {
            branches: Seq::new(
                self.branches.len(),
                |i: int|
                    if i >= limit {
                        self.branches[i].marked_archived()
                    } else {
                        self.branches[i]
                    },
            ),
            ..self
        }
    }

    /// The remote after retention with a limit, under either policy.
    pub open spec fn retained_by(self, limit: nat, policy: Retention) -> RemoteView {
        match policy {
            Retention::Evict => self.retained(limit),
            Retention::Flag => self.flagged(limit),
        }
    }
}

/// A named collection of branches bound to an address.
pub struct Remote {
    pub(crate) name: String,
    pub(crate) url: String,
    pub(crate) branches: Vec<Branch>,
}

impl View for Remote {
    type V = RemoteView;

    closed spec fn view(&self) -> RemoteView {
        RemoteView { name: self.name@, url: self.url@, branches: views(self.branches@) }
    }
}

impl Remote {
    /// Builds a remote without branches; an empty name or address is refused.
    pub fn new(name: String, url: String) -> (r: Result<Remote, RepoError>)
        ensures
            lift(r) == RemoteView::create(name@, url@),
            r matches Ok(v) ==> v@.wf(),
    {
        if !is_present(&name) || !is_present(&url) {
            return Err(RepoError::InvalidArgument);
        }
        let remote = Remote { name, url, branches: Vec::new() };
        assert(remote@.branches =~= Seq::empty());
        Ok(remote)
    }

    /// Applies the retention limit: the branches beyond the first `limit` are
    /// removed for good. Nothing is flagged as archived.
    pub fn archive_old_branches(&mut self, limit: usize)
        ensures
            final(self)@ == old(self)@.retained(limit as nat),
            old(self)@.wf() ==> final(self)@.wf(),
    {
        if self.branches.len() > limit {
            proof {
                lemma_views_take(self.branches@, limit as int);
            }
            self.branches.truncate(limit);
        }
    }

    /// Archives the branches beyond the first `limit` and removes none.
    pub fn flag_old_branches(&mut self, limit: usize)
        ensures
            final(self)@ == old(self)@.flagged(limit as nat),
            old(self)@.wf() ==> final(self)@.wf(),
    {
        let n = self.branches.len();
        let mut i: usize = if limit < n { limit } else { n };
        while i < n
            invariant
                n == old(self).branches@.len(),
                n == self.branches@.len(),
                i <= n,
                limit <= i || i == n,
                self.name == old(self).name,
                self.url == old(self).url,
                forall|j: int|
                    0 <= j < n ==> (#[trigger] self.branches@[j])@ == if limit <= j < i {
                        old(self).branches@[j]@.marked_archived()
                    } else {
                        old(self).branches@[j]@
                    },
            decreases n - i,
        {
            self.branches[i].archive();
            i += 1;
        }
        assert(self@.branches =~= old(self)@.flagged(limit as nat).branches);
    }

    /// Applies the retention limit under the chosen policy.
    pub fn apply_retention(&mut self, limit: usize, policy: Retention)
        ensures
            final(self)@ == old(self)@.retained_by(limit as nat, policy),
            old(self)@.wf() ==> final(self)@.wf(),
    {
        match policy {
            Retention::Evict => self.archive_old_branches(limit),
            Retention::Flag => self.flag_old_branches(limit),
        }
    }

    /// Adds a branch at the end, whatever its name.
    pub fn add_branch(&mut self, branch: Branch)
        ensures
            final(self)@ == old(self)@.with_branch(branch@),
            old(self)@.wf() ==> final(self)@.wf(),
    {
        proof {
            lemma_views_push(self.branches@, branch);
        }
        self.branches.push(branch);
    }

    pub fn get_name(&self) -> (r: &String)
        ensures
            r@ == self@.name,
    {
        &self.name
    }

    pub fn get_url(&self) -> (r: &String)
        ensures
            r@ == self@.url,
    {
        &self.url
    }

    /// The branches, in the order in which they were added.
    pub fn get_branches(&self) -> (r: &Vec<Branch>)
        ensures
            views(r@) == self@.branches,
    {
        &self.branches
    }

    /// The branches, to be changed in place: what the borrower leaves are the
    /// branches afterwards.
    pub fn get_branches_mut(&mut self) -> (r: &mut Vec<Branch>)
        ensures
            views(r@) == old(self)@.branches,
            final(self)@ == (RemoteView { branches: views(final(r)@), ..old(self)@ }),
    {
        &mut self.branches
    }
}

/// A remote that was built is well formed and holds no branch.
pub proof fn law_new_remote_is_empty(name: Seq<char>, url: Seq<char>)
    ensures
        RemoteView::create(name, url) is Ok <==> present(name) && present(url),
        RemoteView::create(name, url) matches Ok(r) ==> r.wf() && r.branches.len() == 0,
{
}

/// Retention on a remote with more branches than the limit leaves exactly
/// `limit` branches: the first ones, each in its place. No position of the
/// result holds one of the others.
pub proof fn law_retention_cuts_to_limit(r: RemoteView, limit: nat)
    requires
        r.branches.len() > limit,
    ensures
        r.retained(limit).branches.len() == limit,
        forall|i: int| 0 <= i < limit ==> r.retained(limit).branches[i] == r.branches[i],
        r.retained(limit).branches + r.branches.skip(limit as int) == r.branches,
        r.retained(limit).name == r.name,
        r.retained(limit).url == r.url,
{
    assert(r.retained(limit).branches + r.branches.skip(limit as int) =~= r.branches);
}

/// Retention on a remote within the limit changes nothing, and retention is
/// idempotent.
pub proof fn law_retention_within_limit(r: RemoteView, limit: nat)
    ensures
        r.branches.len() <= limit ==> r.retained(limit) == r,
        r.retained(limit).branches.len() <= limit,
        r.retained(limit).retained(limit) == r.retained(limit),
        r.wf() ==> r.retained(limit).wf(),
{
}

/// Flagging keeps every branch in its place: the first `limit` as they were,
/// the others archived and otherwise as they were. Flagging twice is
/// flagging once.
pub proof fn law_flagging_keeps_all(r: RemoteView, limit: nat)
    ensures
        r.flagged(limit).branches.len() == r.branches.len(),
        forall|i: int| 0 <= i < r.branches.len() && i < limit ==> r.flagged(limit).branches[i]
            == r.branches[i],
        forall|i: int|
            limit <= i < r.branches.len() ==> r.flagged(limit).branches[i]
                == r.branches[i].marked_archived(),
        r.branches.len() <= limit ==> r.flagged(limit) == r,
        r.flagged(limit).flagged(limit) == r.flagged(limit),
        r.flagged(limit).retained(limit) == r.retained(limit),
{
    assert(r.branches.len() <= limit ==> r.flagged(limit).branches =~= r.branches);
    assert(r.flagged(limit).flagged(limit).branches =~= r.flagged(limit).branches);
    assert(r.flagged(limit).retained(limit).branches =~= r.retained(limit).branches);
}

/// An added branch is the last one, and the others stay in place.
pub proof fn law_added_branch_is_last(r: RemoteView, branch: BranchView)
    ensures
        r.with_branch(branch).branches.len() == r.branches.len() + 1,
        r.with_branch(branch).branches.last() == branch,
        r.with_branch(branch).branches.drop_last() == r.branches,
{
    assert(r.with_branch(branch).branches.drop_last() =~= r.branches);
}

} // verus!
