//! The order of vectors: vectors are ordered like words in a dictionary,
//! by the element type's own order.

use vstd::prelude::*;
use vstd::std_specs::cmp::{PartialOrdSpec, PartialOrdSpecImpl};
use core::cmp::Ordering;
use super::mut_vector::MutVector;
use super::mut_vector_slice::MutVectorSlice;
use super::traits::VectorType;
use super::vector::Vector;
use super::vector_slice::VectorSlice;

verus! {

/// The order of two sequences by their lengths alone.
pub open spec fn by_length<T>(lhs: Seq<T>, rhs: Seq<T>) -> Ordering {
    if lhs.len() < rhs.len() {
        Ordering::Less
    } else if lhs.len() == rhs.len() {
        Ordering::Equal
    } else {
        Ordering::Greater
    }
}

/// The order of two sequences: the order of their elements at the first
/// position where these are not equal, and, where there is no such
/// position in both, the shorter sequence before the longer one.
pub open spec fn lexicographic<T: PartialOrd>(lhs: Seq<T>, rhs: Seq<T>) -> Option<Ordering>
    decreases lhs.len(),
{
    if lhs.len() == 0 || rhs.len() == 0 {
        Some(by_length(lhs, rhs))
    } else {
        match lhs[0].partial_cmp_spec(&rhs[0]) {
            Some(Ordering::Equal) => lexicographic(lhs.skip(1), rhs.skip(1)),
            decided => decided,
        }
    }
}

/// The order of two slices, as [`lexicographic`] defines it.
pub fn compare_slices<T: PartialOrd>(lhs: &[T], rhs: &[T]) -> (order: Option<Ordering>)
    ensures
        T::obeys_partial_cmp_spec() ==> order == lexicographic(lhs@, rhs@),
{
    let n: usize = if lhs.len() < rhs.len() {
        lhs.len()
    } else {
        rhs.len()
    };
    let mut i: usize = 0;
    let ghost mut k: int = 0;
    assert(lhs@.skip(0) == lhs@);
    assert(rhs@.skip(0) == rhs@);
    while i < n
        invariant
            k == i,
            i <= n,
            n <= lhs@.len(),
            n <= rhs@.len(),
            n == lhs@.len() || n == rhs@.len(),
            T::obeys_partial_cmp_spec() ==> lexicographic(lhs@, rhs@) == lexicographic(
                lhs@.skip(k),
                rhs@.skip(k),
            ),
        decreases n - i,
    {
        let decided: Option<Ordering> = lhs[i].partial_cmp(&rhs[i]);
        proof {
            assert(lhs@.skip(k)[0] == lhs@[k]);
            assert(rhs@.skip(k)[0] == rhs@[k]);
            assert(lhs@.skip(k).skip(1) == lhs@.skip(k + 1));
            assert(rhs@.skip(k).skip(1) == rhs@.skip(k + 1));
        }
        match decided {
            Some(Ordering::Equal) => {},
            _ => {
                return decided;
            },
        }
        i += 1;
        proof {
            k = k + 1;
        }
    }
    if lhs.len() < rhs.len() {
        Some(Ordering::Less)
    } else if lhs.len() == rhs.len() {
        Some(Ordering::Equal)
    } else {
        Some(Ordering::Greater)
    }
}

impl<T: PartialOrd> PartialOrd for Vector<T> {
    fn partial_cmp(&self, other: &Self) -> (order: Option<Ordering>) {
        compare_slices(self.elements(), other.elements())
    }
}

impl<T: PartialOrd> PartialOrdSpecImpl for Vector<T> {
    open spec fn obeys_partial_cmp_spec() -> bool {
        T::obeys_partial_cmp_spec()
    }

    open spec fn partial_cmp_spec(&self, other: &Self) -> Option<Ordering> {
        lexicographic(self@, other@)
    }
}

impl<T: PartialOrd> PartialOrd for MutVector<T> {
    fn partial_cmp(&self, other: &Self) -> (order: Option<Ordering>) {
        compare_slices(self.elements(), other.elements())
    }
}

impl<T: PartialOrd> PartialOrdSpecImpl for MutVector<T> {
    open spec fn obeys_partial_cmp_spec() -> bool {
        T::obeys_partial_cmp_spec()
    }

    open spec fn partial_cmp_spec(&self, other: &Self) -> Option<Ordering> {
        lexicographic(self@, other@)
    }
}

impl<'v, T: PartialOrd> PartialOrd for VectorSlice<'v, T> {
    fn partial_cmp(&self, other: &Self) -> (order: Option<Ordering>) {
        compare_slices(self.elements(), other.elements())
    }
}

impl<'v, T: PartialOrd> PartialOrdSpecImpl for VectorSlice<'v, T> {
    open spec fn obeys_partial_cmp_spec() -> bool {
        T::obeys_partial_cmp_spec()
    }

    open spec fn partial_cmp_spec(&self, other: &Self) -> Option<Ordering> {
        lexicographic(self@, other@)
    }
}

impl<'v, T: PartialOrd> PartialOrd for MutVectorSlice<'v, T> {
    fn partial_cmp(&self, other: &Self) -> (order: Option<Ordering>) {
        compare_slices(self.elements(), other.elements())
    }
}

impl<'v, T: PartialOrd> PartialOrdSpecImpl for MutVectorSlice<'v, T> {
    open spec fn obeys_partial_cmp_spec() -> bool {
        T::obeys_partial_cmp_spec()
    }

    open spec fn partial_cmp_spec(&self, other: &Self) -> Option<Ordering> {
        lexicographic(self@, other@)
    }
}

} // verus!
