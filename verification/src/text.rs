//! Comparing and searching names: room names, user ids, message tags.
use vstd::prelude::*;

verus! {

/// Compares two string slices with `==` of `str`. Trusted: the standard
/// library documents that two slices are equal exactly when they hold the same
/// characters.
#[verifier::external_body]
pub(crate) fn text_eq(a: &str, b: &str) -> (r: bool)
    ensures
        r == (a@ == b@),
{
    a == b
}

/// The characters of each name of a list.
pub open spec fn names(list: Seq<String>) -> Seq<Seq<char>> {
    list.map_values(|s: String| s@)
}

/// `order` lists every element of `set` exactly once, and nothing else.
pub open spec fn enumerates<A>(order: Seq<A>, set: Set<A>) -> bool {
    &&& order.no_duplicates()
    &&& order.to_set() == set
}

/// A list that enumerates a set is as long as the set is large, and the set
/// is finite.
pub proof fn lemma_enumeration_len<A>(order: Seq<A>, set: Set<A>)
    requires
        enumerates(order, set),
    ensures
        set.finite(),
        set.len() == order.len(),
{
    order.unique_seq_to_set();
    vstd::seq_lib::seq_to_set_is_finite(order);
}

/// Whether `name` occurs in `list`.
pub fn contains_name(list: &Vec<String>, name: &str) -> (found: bool)
    ensures
        found == names(list@).contains(name@),
{
    let mut i: usize = 0;
    while i < list.len()
        invariant
            i <= list.len(),
            forall|j: int| 0 <= j < i ==> names(list@)[j] != name@,
        decreases list.len() - i,
    {
        if text_eq(list[i].as_str(), name) {
            assert(names(list@)[i as int] == name@);
            return true;
        }
        i += 1;
    }
    false
}

/// The names of `order` other than `name`, in their order.
pub open spec fn without(order: Seq<Seq<char>>, name: Seq<char>) -> Seq<Seq<char>>
    decreases order.len(),
{
    if order.len() == 0 {
        order
    } else if order.last() == name {
        without(order.drop_last(), name)
    } else {
        without(order.drop_last(), name).push(order.last())
    }
}

/// Leaving a name out of a list leaves it out of the set of its names, and
/// keeps the list free of repetitions.
pub proof fn lemma_without(order: Seq<Seq<char>>, name: Seq<char>)
    ensures
        without(order, name).to_set() == order.to_set().remove(name),
        order.no_duplicates() ==> without(order, name).no_duplicates(),
    decreases order.len(),
{
    if order.len() > 0 {
        let init = order.drop_last();
        let last = order.last();
        lemma_without(init, name);
        assert(order == init.push(last));
        init.lemma_push_to_set_commute(last);
        if last != name {
            let kept = without(init, name);
            kept.lemma_push_to_set_commute(last);
            if order.no_duplicates() && kept.contains(last) {
                assert(kept.to_set().contains(last));
            }
        }
    }
}

/// A list that enumerates a set, with one name left out, enumerates the set
/// without that name.
pub proof fn lemma_except_enumerates(order: Seq<Seq<char>>, set: Set<Seq<char>>, name: Seq<char>)
    requires
        enumerates(order, set),
    ensures
        enumerates(without(order, name), set.remove(name)),
{
    lemma_without(order, name);
}

/// The names of `list` other than `name`, in their order.
pub fn names_except(list: &Vec<String>, name: &str) -> (kept: Vec<String>)
    ensures
        names(kept@) == without(names(list@), name@),
{
    let ghost whole = names(list@);
    let mut kept: Vec<String> = Vec::new();
    let mut i: usize = 0;
    while i < list.len()
        invariant
            i <= list.len(),
            whole == names(list@),
            names(kept@) == without(whole.take(i as int), name@),
        decreases list.len() - i,
    {
        proof {
            assert(whole.take(i + 1).drop_last() == whole.take(i as int));
        }
        if !text_eq(list[i].as_str(), name) {
            kept.push(list[i].clone());
        }
        i += 1;
    }
    assert(whole.take(list.len() as int) == whole);
    kept
}

} // verus!
