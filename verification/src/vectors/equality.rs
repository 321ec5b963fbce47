//! Equality of vectors: two vectors are equal when they have the same
//! length and their elements are equal position by position, by the
//! element type's own `==`.

use vstd::prelude::*;
use vstd::std_specs::cmp::{PartialEqSpec, PartialEqSpecImpl};
use super::mut_vector::MutVector;
use super::mut_vector_slice::MutVectorSlice;
use super::traits::VectorType;
use super::vector::Vector;
use super::vector_slice::VectorSlice;

verus! {

/// `lhs` and `rhs` have one length and equal elements at every position.
pub open spec fn equal_elements<T: PartialEq>(lhs: Seq<T>, rhs: Seq<T>) -> bool {
    &&& lhs.len() == rhs.len()
    &&& forall|i: int| 0 <= i < lhs.len() ==> (#[trigger] lhs[i]).eq_spec(&rhs[i])
}

/// Whether two slices have one length and equal elements at every
/// position.
pub fn slices_equal<T: PartialEq>(lhs: &[T], rhs: &[T]) -> (equal: bool)
    ensures
        T::obeys_eq_spec() ==> equal == equal_elements(lhs@, rhs@),
{
    let n: usize = lhs.len();
    if n != rhs.len() {
        return false;
    }
    let mut i: usize = 0;
    while i < n
        invariant
            n == lhs@.len(),
            n == rhs@.len(),
            i <= n,
            T::obeys_eq_spec() ==> forall|k: int| 0 <= k < i ==> (#[trigger] lhs@[k]).eq_spec(&rhs@[k]),
        decreases n - i,
    {
        if !(lhs[i] == rhs[i]) {
            return false;
        }
        i += 1;
    }
    true
}

impl<T: PartialEq> PartialEq for Vector<T> {
    fn eq(&self, other: &Self) -> (equal: bool) {
        slices_equal(self.elements(), other.elements())
    }
}

impl<T: PartialEq> PartialEqSpecImpl for Vector<T> {
    open spec fn obeys_eq_spec() -> bool {
        T::obeys_eq_spec()
    }

    open spec fn eq_spec(&self, other: &Self) -> bool {
        equal_elements(self@, other@)
    }
}

impl<T: PartialEq> PartialEq for MutVector<T> {
    fn eq(&self, other: &Self) -> (equal: bool) {
        slices_equal(self.elements(), other.elements())
    }
}

impl<T: PartialEq> PartialEqSpecImpl for MutVector<T> {
    open spec fn obeys_eq_spec() -> bool {
        T::obeys_eq_spec()
    }

    open spec fn eq_spec(&self, other: &Self) -> bool {
        equal_elements(self@, other@)
    }
}

impl<'v, T: PartialEq> PartialEq for VectorSlice<'v, T> {
    fn eq(&self, other: &Self) -> (equal: bool) {
        slices_equal(self.elements(), other.elements())
    }
}

impl<'v, T: PartialEq> PartialEqSpecImpl for VectorSlice<'v, T> {
    open spec fn obeys_eq_spec() -> bool {
        T::obeys_eq_spec()
    }

    open spec fn eq_spec(&self, other: &Self) -> bool {
        equal_elements(self@, other@)
    }
}

impl<'v, T: PartialEq> PartialEq for MutVectorSlice<'v, T> {
    fn eq(&self, other: &Self) -> (equal: bool) {
        slices_equal(self.elements(), other.elements())
    }
}

impl<'v, T: PartialEq> PartialEqSpecImpl for MutVectorSlice<'v, T> {
    open spec fn obeys_eq_spec() -> bool {
        T::obeys_eq_spec()
    }

    open spec fn eq_spec(&self, other: &Self) -> bool {
        equal_elements(self@, other@)
    }
}

} // verus!
