//! Division of numbers into groups of three close neighbours.

use vstd::prelude::*;
use vstd::relations::{sorted_by, total_ordering};
use vstd::seq_lib::lemma_sorted_unique;

verus! {

/// The order of the integers.
pub open spec fn at_most() -> spec_fn(i32, i32) -> bool {
    |a: i32, b: i32| a <= b
}

/// The numbers in ascending order.
pub open spec fn ascending(nums: Seq<i32>) -> Seq<i32> {
    nums.sort_by(at_most())
}

/// The distance between the first and the last number of the group with
/// index `group`, where each three neighbours of `sorted` form a group.
pub open spec fn spread(sorted: Seq<i32>, group: int) -> int {
    sorted[3 * group + 2] - sorted[3 * group]
}

/// Whether no group of three neighbours spreads over more than `k`.
pub open spec fn groups_fit(sorted: Seq<i32>, k: int) -> bool {
    forall|group: int| 0 <= group < sorted.len() / 3 ==> #[trigger] spread(sorted, group) <= k
}

/// The groups of three neighbours, in order.
pub open spec fn groups_of(sorted: Seq<i32>) -> Seq<Seq<i32>> {
    Seq::new(sorted.len() / 3, |group: int| sorted.subrange(3 * group, 3 * group + 3))
}

/// How `divide_array` divides numbers: into the groups of three
/// neighbours of their ascending order, or not at all where one of these
/// groups spreads over more than `k`.
pub open spec fn division(nums: Seq<i32>, k: int) -> Seq<Seq<i32>> {
    if groups_fit(ascending(nums), k) {
        groups_of(ascending(nums))
    } else {
        Seq::empty()
    }
}

/// The contents of a sequence of vectors.
pub open spec fn contents(groups: Seq<Vec<i32>>) -> Seq<Seq<i32>> {
    groups.map_values(|group: Vec<i32>| group@)
}

/// Calls `sort` of std on the vector.
///
/// Trusted: afterwards the vector holds the same numbers, each as often
/// as before, in ascending order.
#[verifier::external_body]
fn sort(nums: &mut Vec<i32>)
    ensures
        sorted_by(final(nums)@, at_most()),
        final(nums)@.to_multiset() == old(nums)@.to_multiset(),
{
    nums.sort();
}

/// Divides `nums` into groups of three such that no two numbers of a
/// group differ by more than `k`: the groups of three neighbours in
/// ascending order. Where these do not all fit, no division does, and the
/// result is empty.
pub fn divide_array(nums: Vec<i32>, k: i32) -> (r: Vec<Vec<i32>>)
    requires
        nums@.len() % 3 == 0,
    ensures
        contents(r@) == division(nums@, k as int),
{
    let mut sorted = nums;
    sort(&mut sorted);
    proof {
        assert(total_ordering(at_most()));
        nums@.lemma_sort_by_ensures(at_most());
        lemma_sorted_unique(sorted@, ascending(nums@), at_most());
        sorted@.to_multiset_ensures();
        nums@.to_multiset_ensures();
    }
    let n = sorted.len();
    let mut groups: Vec<Vec<i32>> = Vec::new();
    let mut at: usize = 0;
    while at < n
        invariant
            n == sorted@.len(),
            n % 3 == 0,
            at <= n,
            at == 3 * groups@.len(),
            sorted@ == ascending(nums@),
            forall|group: int|
                0 <= group < groups@.len() ==> #[trigger] spread(sorted@, group) <= k,
            forall|group: int|
                0 <= group < groups@.len() ==> (#[trigger] groups@[group])@ == sorted@.subrange(
                    3 * group,
                    3 * group + 3,
                ),
        decreases n - at,
    {
        let low = sorted[at];
        let middle = sorted[at + 1];
        let high = sorted[at + 2];
        if high as i64 - low as i64 > k as i64 {
            let none: Vec<Vec<i32>> = Vec::new();
            proof {
                let group = groups@.len() as int;
                assert(0 <= group < sorted@.len() / 3);
                assert(spread(sorted@, group) > k);
                assert(contents(none@) =~= Seq::<Seq<i32>>::empty());
            }
            return none;
        }
        let mut group: Vec<i32> = Vec::new();
        group.push(low);
        group.push(middle);
        group.push(high);
        assert(group@ =~= sorted@.subrange(at as int, at + 3));
        groups.push(group);
        at += 3;
    }
    assert(groups_fit(sorted@, k as int));
    assert(contents(groups@) =~= groups_of(sorted@));
    groups
}

} // verus!
