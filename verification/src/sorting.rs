//! Ordering lists by whole-number keys.

use vstd::prelude::*;

verus! {

/// The order of pairs: by the first number, then by the second.
pub open spec fn pair_le(a: (u64, usize), b: (u64, usize)) -> bool {
    a.0 < b.0 || (a.0 == b.0 && a.1 <= b.1)
}

pub open spec fn pairs_sorted(pairs: Seq<(u64, usize)>) -> bool {
    forall|i: int, j: int| 0 <= i < j < pairs.len() ==> pair_le(#[trigger] pairs[i], #[trigger] pairs[j])
}

/// `sort_unstable` on a list of pairs of numbers: afterwards the list
/// holds the same pairs as before, in ascending order.
#[verifier::external_body]
fn sort_pairs(pairs: &mut Vec<(u64, usize)>)
    ensures
        final(pairs)@.to_multiset() == old(pairs)@.to_multiset(),
        pairs_sorted(final(pairs)@),
{
    pairs.sort_unstable();
}

/// Whether `order` lists the places of `keys` by ascending key, places
/// with equal keys in their own order.
pub open spec fn is_stable_order(keys: Seq<u64>, order: Seq<usize>) -> bool {
    &&& order.len() == keys.len()
    &&& forall|k: int| 0 <= k < order.len() ==> (#[trigger] order[k]) < keys.len()
    &&& forall|a: int, b: int|
        0 <= a < order.len() && 0 <= b < order.len() && a != b ==> (#[trigger] order[a]) != (
        #[trigger] order[b])
    &&& forall|a: int, b: int|
        0 <= a < b < order.len() ==> pair_le(
            (keys[(#[trigger] order[a]) as int], order[a]),
            (keys[(#[trigger] order[b]) as int], order[b]),
        )
}

/// `items` in the given order.
pub open spec fn arranged<T>(items: Seq<T>, order: Seq<usize>) -> Seq<T> {
    Seq::new(order.len(), |k: int| items[order[k] as int])
}

/// The places of `keys` by ascending key; places with equal keys keep
/// their order.
pub fn stable_order(keys: &Vec<u64>) -> (order: Vec<usize>)
    ensures
        is_stable_order(keys@, order@),
{
    let mut pairs: Vec<(u64, usize)> = Vec::new();
    let mut i: usize = 0;
    while i < keys.len()
        invariant
            i <= keys.len(),
            pairs@.len() == i,
            forall|k: int| 0 <= k < i ==> (#[trigger] pairs@[k]) == (keys@[k], k as usize),
        decreases keys.len() - i,
    {
        pairs.push((keys[i], i));
        i = i + 1;
    }
    let ghost before = pairs@;
    assert(before.no_duplicates());
    sort_pairs(&mut pairs);
    proof {
        broadcast use vstd::seq_lib::group_to_multiset_ensures;

        before.lemma_multiset_has_no_duplicates();
        pairs@.lemma_multiset_has_no_duplicates_conv();
        assert(pairs@.len() == before.len()) by {
            assert(pairs@.to_multiset().len() == before.to_multiset().len());
        }
        assert forall|k: int| 0 <= k < pairs@.len() implies (#[trigger] pairs@[k]).1 < keys@.len()
            && pairs@[k].0 == keys@[pairs@[k].1 as int] by {
            assert(pairs@.contains(pairs@[k]));
            assert(before.to_multiset().count(pairs@[k]) > 0);
            assert(before.contains(pairs@[k]));
            let j = choose|j: int| 0 <= j < before.len() && before[j] == pairs@[k];
            assert(before[j] == (keys@[j], j as usize));
        }
    }
    let mut order: Vec<usize> = Vec::new();
    let mut k: usize = 0;
    while k < pairs.len()
        invariant
            k <= pairs.len(),
            order@.len() == k,
            forall|j: int| 0 <= j < k ==> (#[trigger] order@[j]) == pairs@[j].1,
        decreases pairs.len() - k,
    {
        order.push(pairs[k].1);
        k = k + 1;
    }
    proof {
        assert forall|a: int, b: int|
            0 <= a < order@.len() && 0 <= b < order@.len() && a != b implies (#[trigger] order@[a])
            != (#[trigger] order@[b]) by {
            if order@[a] == order@[b] {
                assert(pairs@[a].0 == keys@[pairs@[a].1 as int]);
                assert(pairs@[b].0 == keys@[pairs@[b].1 as int]);
                assert(pairs@[a] == pairs@[b]);
            }
        }
        assert forall|a: int, b: int| 0 <= a < b < order@.len() implies pair_le(
            (keys@[(#[trigger] order@[a]) as int], order@[a]),
            (keys@[(#[trigger] order@[b]) as int], order@[b]),
        ) by {
            assert(pair_le(pairs@[a], pairs@[b]));
            assert(pairs@[a].0 == keys@[pairs@[a].1 as int]);
            assert(pairs@[b].0 == keys@[pairs@[b].1 as int]);
        }
    }
    order
}

fn take_at<T>(slots: &mut Vec<Option<T>>, i: usize) -> (item: Option<T>)
    requires
        i < old(slots)@.len(),
    ensures
        item == old(slots)@[i as int],
        final(slots)@ == old(slots)@.update(i as int, None),
{
    let mut item: Option<T> = None;
    std::mem::swap(&mut slots[i], &mut item);
    item
}

/// Whether `order` names each place of a list of `len` items at most once.
pub open spec fn is_selection(order: Seq<usize>, len: nat) -> bool {
    &&& forall|k: int| 0 <= k < order.len() ==> (#[trigger] order[k]) < len
    &&& forall|a: int, b: int|
        0 <= a < order.len() && 0 <= b < order.len() && a != b ==> (#[trigger] order[a]) != (
        #[trigger] order[b])
}

/// How much of `order`, from place `k` on, names places of a list of `len`
/// items that the order has not named before: the place at which that
/// ends.
pub open spec fn selection_end(order: Seq<usize>, len: nat, k: int) -> int
    decreases order.len() - k,
{
    if 0 <= k < order.len() && order[k] < len && (forall|j: int| 0 <= j < k ==> order[j] != order[k]) {
        selection_end(order, len, k + 1)
    } else {
        k
    }
}

/// A selection goes on to the end of the order.
pub proof fn lemma_selection_end(order: Seq<usize>, len: nat, k: int)
    requires
        is_selection(order, len),
        0 <= k <= order.len(),
    ensures
        selection_end(order, len, k) == order.len(),
    decreases order.len() - k,
{
    if k < order.len() {
        lemma_selection_end(order, len, k + 1);
    }
}

/// The items in the given order. An order that names a place twice, or a
/// place that the list does not have, is cut off before that.
pub fn reorder<T>(items: Vec<T>, order: &Vec<usize>) -> (sorted: Vec<T>)
    ensures
        sorted@ == arranged(items@, order@.take(selection_end(order@, items@.len(), 0))),
        is_selection(order@, items@.len()) ==> sorted@ == arranged(items@, order@),
{
    let ghost given = items@;
    let mut rest = items;
    let n = rest.len();
    let mut slots: Vec<Option<T>> = Vec::new();
    while rest.len() > 0
        invariant
            rest@.len() + slots@.len() == n,
            n == given.len(),
            rest@ == given.subrange(0, rest@.len() as int),
            forall|j: int|
                0 <= j < slots@.len() ==> (#[trigger] slots@[j]) == Some(given[n - 1 - j]),
        decreases rest.len(),
    {
        let item = rest.pop().unwrap();
        slots.push(Some(item));
    }
    let mut sorted: Vec<T> = Vec::new();
    let mut k: usize = 0;
    while k < order.len()
        invariant
            k <= order.len(),
            slots@.len() == n,
            n == given.len(),
            given == items@,
            sorted@.len() == k,
            selection_end(order@, n as nat, 0) == selection_end(order@, n as nat, k as int),
            forall|j: int| 0 <= j < k ==> (#[trigger] order@[j]) < n,
            forall|j: int| 0 <= j < k ==> (#[trigger] sorted@[j]) == given[order@[j] as int],
            forall|a: int, b: int|
                0 <= a < k && 0 <= b < k && a != b ==> (#[trigger] order@[a]) != (
                #[trigger] order@[b]),
            forall|p: int|
                0 <= p < n ==> (#[trigger] slots@[p]) == (if exists|j: int|
                    0 <= j < k && order@[j] == n - 1 - p {
                    None
                } else {
                    Some(given[n - 1 - p])
                }),
        decreases order.len() - k,
    {
        let place = order[k];
        if place >= n {
            assert(order@[k as int] >= given.len());
            proof {
                assert(selection_end(order@, n as nat, k as int) == k);
                assert(sorted@ =~= arranged(given, order@.take(k as int)));
                if is_selection(order@, n as nat) {
                    lemma_selection_end(order@, n as nat, 0);
                }
            }
            return sorted;
        }
        let ghost slots_before = slots@;
        match take_at(&mut slots, n - 1 - place) {
            Some(item) => {
                sorted.push(item);
                proof {
                    assert forall|p: int| 0 <= p < n implies (#[trigger] slots@[p]) == (if exists|
                        j: int,
                    |
                        0 <= j < k + 1 && order@[j] == n - 1 - p {
                        None
                    } else {
                        Some(given[n - 1 - p])
                    }) by {
                        if p == n - 1 - place {
                            assert(order@[k as int] == n - 1 - p);
                        } else {
                            assert(slots@[p] == slots_before[p]);
                            if exists|j: int| 0 <= j < k + 1 && order@[j] == n - 1 - p {
                                let j = choose|j: int| 0 <= j < k + 1 && order@[j] == n - 1 - p;
                                assert(j < k);
                            }
                        }
                    }
                }
            },
            None => {
                proof {
                    let j = choose|j: int| 0 <= j < k && order@[j] == place;
                    assert(order@[j] == order@[k as int]);
                    assert(selection_end(order@, n as nat, k as int) == k);
                    assert(sorted@ =~= arranged(given, order@.take(k as int)));
                    if is_selection(order@, n as nat) {
                        lemma_selection_end(order@, n as nat, 0);
                    }
                }
                return sorted;
            },
        }
        k = k + 1;
    }
    proof {
        assert(selection_end(order@, n as nat, k as int) == k);
        assert(order@.take(k as int) == order@);
        assert(sorted@ =~= arranged(given, order@));
    }
    sorted
}

/// The items by ascending key, items with equal keys in the order in
/// which they came. `keys[i]` is the key of `items[i]`; where there are
/// not as many keys as items, the items stay as they are.
pub fn sort_by_key<T>(items: Vec<T>, keys: &Vec<u64>) -> (sorted: Vec<T>)
    ensures
        keys@.len() != items@.len() ==> sorted@ == items@,
        keys@.len() == items@.len() ==> exists|order: Seq<usize>|
            is_stable_order(keys@, order) && sorted@ == #[trigger] arranged(items@, order),
{
    if keys.len() != items.len() {
        return items;
    }
    let order = stable_order(keys);
    let ghost given = items@;
    let sorted = reorder(items, &order);
    assert(is_selection(order@, given.len()));
    assert(sorted@ == arranged(given, order@));
    sorted
}

/// The key under which an item with key `key` stands when the greatest
/// key is to come first.
pub open spec fn descending(key: u64) -> u64 {
    (u64::MAX - key) as u64
}

pub fn descending_key(key: u64) -> (reversed: u64)
    ensures
        reversed == descending(key),
{
    u64::MAX - key
}

} // verus!
