//! Sets of page indices as ascending lists, the form in which they are stored.

use std::collections::BTreeSet;
use vstd::laws_cmp::obeys_cmp;
use vstd::prelude::*;
use vstd::std_specs::cmp::OrdSpec;
use vstd::std_specs::iter::IteratorSpec;
use vstd::std_specs::btree::{
    axiom_increasing_seq_meaning, axiom_spec_btree_keys_iter, spec_btree_keys_iter,
};

verus! {

/// Whether each page of `list` is less than the one behind it.
pub open spec fn strictly_ascending(list: Seq<u32>) -> bool {
    forall|i: int, j: int| 0 <= i < j < list.len() ==> list[i] < list[j]
}

/// The pages of `pages` as the list that counts them up.
pub open spec fn pages_in_order(pages: Set<u32>) -> Seq<u32> {
    choose|list: Seq<u32>| strictly_ascending(list) && list.to_set() == pages
}

/// Two ascending lists of the same pages are the same list.
pub proof fn lemma_ascending_unique(a: Seq<u32>, b: Seq<u32>)
    requires
        strictly_ascending(a),
        strictly_ascending(b),
        a.to_set() == b.to_set(),
    ensures
        a == b,
    decreases a.len(),
{
    if a.len() == 0 {
        if b.len() > 0 {
            assert(b.contains(b[0]));
            assert(a.to_set().contains(b[0]));
        }
        assert(a =~= b);
    } else {
        let top = a.last();
        assert(a.contains(top));
        assert(b.to_set().contains(top));
        assert(b.contains(top));
        assert(b.contains(b.last()));
        assert(a.to_set().contains(b.last()));
        assert(a.contains(b.last()));
        assert(b.last() == top);
        let front_a = a.drop_last();
        let front_b = b.drop_last();
        assert forall|page: u32| front_a.to_set().contains(page) == front_b.to_set().contains(
            page,
        ) by {
            if front_a.contains(page) {
                assert(a.contains(page));
                assert(b.to_set().contains(page));
                let j = choose|j: int| 0 <= j < b.len() && b[j] == page;
                assert(front_b[j] == page);
            }
            if front_b.contains(page) {
                assert(b.contains(page));
                assert(a.to_set().contains(page));
                let i = choose|i: int| 0 <= i < a.len() && a[i] == page;
                assert(front_a[i] == page);
            }
        }
        assert(front_a.to_set() =~= front_b.to_set());
        lemma_ascending_unique(front_a, front_b);
        assert(a =~= front_a.push(top));
        assert(b =~= front_b.push(top));
    }
}

/// The pages of `pages` below `bound`, counted up.
pub open spec fn pages_below(pages: Set<u32>, bound: nat) -> Seq<u32>
    decreases bound,
{
    if bound == 0 {
        Seq::empty()
    } else {
        let front = pages_below(pages, (bound - 1) as nat);
        if bound - 1 <= u32::MAX && pages.contains((bound - 1) as u32) {
            front.push((bound - 1) as u32)
        } else {
            front
        }
    }
}

/// `pages_below` counts up exactly the pages below its bound.
pub proof fn lemma_pages_below(pages: Set<u32>, bound: nat)
    ensures
        strictly_ascending(pages_below(pages, bound)),
        forall|i: int|
            0 <= i < pages_below(pages, bound).len() ==> (#[trigger] pages_below(pages, bound)[i])
                < bound,
        forall|page: u32|
            pages_below(pages, bound).contains(page) <==> pages.contains(page) && page < bound,
    decreases bound,
{
    let list = pages_below(pages, bound);
    if bound > 0 {
        let front = pages_below(pages, (bound - 1) as nat);
        lemma_pages_below(pages, (bound - 1) as nat);
        assert forall|page: u32| list.contains(page) <==> pages.contains(page) && page
            < bound by {
            if list.contains(page) {
                let i = choose|i: int| 0 <= i < list.len() && list[i] == page;
                if i < front.len() {
                    assert(front.contains(page));
                }
            }
            if pages.contains(page) && page < bound {
                if page < bound - 1 {
                    assert(front.contains(page));
                    let i = choose|i: int| 0 <= i < front.len() && front[i] == page;
                    assert(list[i] == page);
                } else {
                    assert(list[list.len() - 1] == page);
                }
            }
        }
    }
}

/// Every set of pages has the list that counts it up.
pub proof fn lemma_pages_in_order(pages: Set<u32>)
    ensures
        strictly_ascending(pages_in_order(pages)),
        pages_in_order(pages).to_set() == pages,
{
    let list = pages_below(pages, 0x1_0000_0000);
    lemma_pages_below(pages, 0x1_0000_0000);
    assert(list.to_set() =~= pages);
}

/// An ascending list of pages is the list that counts its pages up.
pub proof fn lemma_pages_in_order_of_list(list: Seq<u32>)
    requires
        strictly_ascending(list),
    ensures
        pages_in_order(list.to_set()) == list,
{
    lemma_ascending_unique(pages_in_order(list.to_set()), list);
}

/// Tests whether each page of `list` is less than the one behind it.
pub fn is_strictly_ascending(list: &Vec<u32>) -> (ascending: bool)
    ensures
        ascending == strictly_ascending(list@),
{
    let mut i: usize = 1;
    while i < list.len()
        invariant
            1 <= i,
            forall|j: int, k: int| 0 <= j < k < i && k < list.len() ==> list@[j] < list@[k],
        decreases list.len() - i,
    {
        if list[i - 1] >= list[i] {
            return false;
        }
        assert forall|j: int, k: int| 0 <= j < k < i + 1 && k < list.len() implies list@[j]
            < list@[k] by {
            if k == i && j < i - 1 {
                assert(list@[j] < list@[i - 1]);
            }
        }
        i += 1;
    }
    true
}

/// Collects the pages of `list` into a set.
pub fn collect_pages(list: &Vec<u32>) -> (pages: BTreeSet<u32>)
    ensures
        pages@ == list@.to_set(),
{
    let mut pages: BTreeSet<u32> = BTreeSet::new();
    let mut i: usize = 0;
    while i < list.len()
        invariant
            i <= list.len(),
            pages@ == list@.take(i as int).to_set(),
        decreases list.len() - i,
    {
        pages.insert(list[i]);
        proof {
            let before = list@.take(i as int);
            let after = list@.take(i + 1);
            assert(after =~= before.push(list@[i as int]));
            assert forall|page: u32| after.to_set().contains(page) == before.to_set().insert(
                list@[i as int],
            ).contains(page) by {
                if before.contains(page) {
                    let j = choose|j: int| 0 <= j < before.len() && before[j] == page;
                    assert(after[j] == page);
                }
                if page == list@[i as int] {
                    assert(after[i as int] == page);
                }
            }
            assert(after.to_set() =~= before.to_set().insert(list@[i as int]));
        }
        i += 1;
    }
    proof {
        assert(list@.take(i as int) =~= list@);
    }
    pages
}

/// Lists the pages of `pages` in ascending order.
pub fn list_pages(pages: &BTreeSet<u32>) -> (list: Vec<u32>)
    ensures
        list@ == pages_in_order(pages@),
        strictly_ascending(list@),
        list@.to_set() == pages@,
{
    let mut list: Vec<u32> = Vec::new();
    let ghost keys = spec_btree_keys_iter(pages).remaining();
    for page in iter: pages.iter()
        invariant
            iter.seq() == keys,
            list@.len() == iter.index(),
            forall|i: int| 0 <= i < iter.index() ==> list@[i] == *iter.seq()[i],
    {
        list.push(*page);
    }
    proof {
        axiom_spec_btree_keys_iter(pages);
        assert(list@ =~= keys.unref());
        assert(obeys_cmp::<&u32>());
        axiom_increasing_seq_meaning::<&u32>(keys);
        assert forall|i: int, j: int| 0 <= i < j < list@.len() implies list@[i] < list@[j] by {
            assert(OrdSpec::cmp_spec(&keys[i], &keys[j]) is Less);
        }
        lemma_pages_in_order_of_list(list@);
    }
    list
}

} // verus!
