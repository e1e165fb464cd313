use vstd::prelude::*;
use vstd::laws_cmp::obeys_partial_cmp_spec_properties;
use vstd::laws_eq::obeys_eq_spec_properties;
use vstd::std_specs::cmp::{PartialOrdIs, PartialOrdSpec};

verus! {

/// Why no largest element could be picked.
#[derive(Debug, Clone, Copy, PartialEq, Eq, Structural)]
pub enum LargestError {
    /// The sequence holds no element at all.
    EmptyInput,
}

/// Index of the element kept by a left-to-right scan of the first `n`
/// elements of `s`: an element replaces the one kept so far only when it
/// compares strictly greater, so ties and incomparable elements keep the
/// earlier one.
pub open spec fn largest_index<T: PartialOrd>(s: Seq<T>, n: nat) -> int
    decreases n,
{
    if n <= 1 {
        0
    } else {
        let m = largest_index(s, (n - 1) as nat);
        if s[n - 1].is_gt(&s[m]) {
            n - 1
        } else {
            m
        }
    }
}

/// The kept index always lies among the scanned elements.
pub proof fn lemma_largest_index_in_range<T: PartialOrd>(s: Seq<T>, n: nat)
    ensures
        0 <= largest_index(s, n) < if n == 0 { 1 } else { n as int },
    decreases n,
{
    if n > 1 {
        lemma_largest_index_in_range(s, (n - 1) as nat);
    }
}

/// Borrows the largest element of `list`, scanning left to right and keeping
/// the earliest of equal or incomparable elements; the empty list is refused.
/// The result is always an element of `list`; where the element type's
/// comparison has a specification, it is the one at
/// `largest_index(list@, list@.len())`.
pub fn largest<T: PartialOrd>(list: &[T]) -> (r: Result<&T, LargestError>)
    ensures
        list@.len() == 0 <==> r == Err::<&T, LargestError>(LargestError::EmptyInput),
        r is Ok ==> exists|i: int| 0 <= i < list@.len() && *r->Ok_0 == list@[i],
        T::obeys_partial_cmp_spec() && list@.len() > 0 ==> *r->Ok_0 == list@[largest_index(
            list@,
            list@.len(),
        )],
{
    if list.len() == 0 {
        return Err(LargestError::EmptyInput);
    }
    let mut best: &T = &list[0];
    let ghost mut k: int = 0;
    let mut i: usize = 1;
    while i < list.len()
        invariant
            1 <= i <= list@.len(),
            0 <= k < i,
            *best == list@[k],
            T::obeys_partial_cmp_spec() ==> k == largest_index(list@, i as nat),
        decreases list@.len() - i,
    {
        let item: &T = &list[i];
        if item > best {
            best = item;
            proof {
                k = i as int;
            }
        }
        i = i + 1;
    }
    Ok(best)
}

/// Under an order whose "greater than" is transitive, no element of a
/// non-empty sequence is strictly greater than the one the scan keeps.
pub proof fn lemma_largest_has_no_greater<T: PartialOrd>(s: Seq<T>)
    requires
        s.len() > 0,
        obeys_partial_cmp_spec_properties::<T>(),
    ensures
        forall|j: int| 0 <= j < s.len() ==> !s[j].is_gt(&s[largest_index(s, s.len())]),
{
    lemma_prefix_has_no_greater(s, s.len());
}

proof fn lemma_prefix_has_no_greater<T: PartialOrd>(s: Seq<T>, n: nat)
    requires
        0 < n <= s.len(),
        obeys_partial_cmp_spec_properties::<T>(),
    ensures
        forall|j: int| 0 <= j < n ==> !s[j].is_gt(&s[largest_index(s, n)]),
    decreases n,
{
    reveal(obeys_partial_cmp_spec_properties);
    reveal(obeys_eq_spec_properties);
    if n > 1 {
        lemma_prefix_has_no_greater(s, (n - 1) as nat);
        lemma_largest_index_in_range(s, (n - 1) as nat);
        let m = largest_index(s, (n - 1) as nat);
        if s[n - 1].is_gt(&s[m]) {
            assert forall|j: int| 0 <= j < n implies !(#[trigger] s[j]).is_gt(&s[n - 1]) by {
                if j < n - 1 && s[j].is_gt(&s[n - 1]) {
                    assert(s[j].partial_cmp_spec(&s[m]) == Some(core::cmp::Ordering::Greater));
                }
                if j == n - 1 && s[j].is_gt(&s[n - 1]) {
                    assert(s[j].partial_cmp_spec(&s[j]) == Some(core::cmp::Ordering::Greater));
                }
            }
        }
    }
}

} // verus!
