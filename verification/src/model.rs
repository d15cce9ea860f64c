//! Small pieces of vocabulary that the contracts of every entity share.

use vstd::prelude::*;
use crate::error::RepoError;

verus! {

/// The outcome of an operation with the produced value replaced by its view.
pub open spec fn lift<T: View>(r: Result<T, RepoError>) -> Result<T::V, RepoError> {
    match r {
        Ok(v) => Ok(v@),
        Err(e) => Err(e),
    }
}

/// The views of the items of a sequence, in the same order.
pub open spec fn views<T: View>(items: Seq<T>) -> Seq<T::V> {
    Seq::new(items.len(), |i: int| items[i]@)
}

/// Appending an item appends its view.
pub proof fn lemma_views_push<T: View>(items: Seq<T>, item: T)
    ensures
        views(items.push(item)) == views(items).push(item@),
{
    assert(views(items.push(item)) =~= views(items).push(item@));
}

/// The views of a prefix are the prefix of the views.
pub proof fn lemma_views_take<T: View>(items: Seq<T>, n: int)
    requires
        0 <= n <= items.len(),
    ensures
        views(items.subrange(0, n)) == views(items).take(n),
{
    assert(views(items.subrange(0, n)) =~= views(items).take(n));
}

/// A text that may stand in a required field: it has at least one character.
pub open spec fn present(text: Seq<char>) -> bool {
    text.len() > 0
}

/// Whether a text has at least one character.
pub fn is_present(text: &String) -> (r: bool)
    ensures
        r == present(text@),
{
    !text.as_str().is_empty()
}

} // verus!
