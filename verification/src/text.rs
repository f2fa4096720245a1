//! Small helpers on strings.

use vstd::prelude::*;

verus! {

/// What `str::trim` makes of a string: the string without the white space at
/// its two ends.
pub uninterp spec fn spec_trim(s: Seq<char>) -> Seq<char>;

/// `str::trim` of the standard library. Its result is only named here: the
/// contract says that the same characters always give the same result, and
/// nothing about what white space is.
#[verifier::external_body]
pub(crate) fn trim(s: &str) -> (t: &str)
    ensures
        t@ == spec_trim(s@),
{
    s.trim()
}

/// Whether two strings hold the same characters.
pub fn str_eq(a: &str, b: &str) -> (same: bool)
    ensures
        same == (a@ == b@),
{
    a.to_owned() == b.to_owned()
}

/// The views of the items of a sequence, in their order.
pub open spec fn views<T: View>(items: Seq<T>) -> Seq<T::V> {
    Seq::new(items.len(), |i: int| items[i]@)
}

/// Appending an item appends its view.
pub proof fn lemma_views_push<T: View>(items: Seq<T>, item: T)
    ensures
        views(items.push(item)) == views(items).push(item@),
{
    assert(views(items.push(item)) =~= views(items).push(item@));
}

/// Replacing an item replaces its view.
pub proof fn lemma_views_update<T: View>(items: Seq<T>, i: int, item: T)
    requires
        0 <= i < items.len(),
    ensures
        views(items.update(i, item)) == views(items).update(i, item@),
{
    assert(views(items.update(i, item)) =~= views(items).update(i, item@));
}

/// Taking an item out takes its view out.
pub proof fn lemma_views_remove<T: View>(items: Seq<T>, i: int)
    requires
        0 <= i < items.len(),
    ensures
        views(items.remove(i)) == views(items).remove(i),
{
    assert(views(items.remove(i)) =~= views(items).remove(i));
}

/// A copy of a list of strings.
pub fn clone_strings(items: &Vec<String>) -> (copy: Vec<String>)
    ensures
        views(copy@) == views(items@),
{
    let mut copy: Vec<String> = Vec::new();
    let mut k: usize = 0;
    while k < items.len()
        invariant
            k <= items.len(),
            views(copy@) == views(items@.take(k as int)),
        decreases items.len() - k,
    {
        let ghost before = copy@;
        copy.push(items[k].clone());
        proof {
            lemma_views_push(before, items@[k as int]);
            lemma_views_push(items@.take(k as int), items@[k as int]);
            assert(items@.take(k + 1) =~= items@.take(k as int).push(items@[k as int]));
        }
        k += 1;
    }
    assert(items@.take(k as int) =~= items@);
    copy
}

} // verus!
