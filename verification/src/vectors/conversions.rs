//! Conversions that clone.
//!
//! A conversion is cheap where the storage can change hands: an owned
//! vector is made from a `Vec` or from the other owned vector type, and a
//! view is made from a slice, without touching an element. Those
//! conversions stand with the types they make. A conversion is costly
//! where the source only lends its elements: a [`Vector`] is then made by
//! cloning every one of them. The costly conversions are gathered here.

use vstd::prelude::*;
use vstd::std_specs::convert::FromSpecImpl;
use super::mut_vector::MutVector;
use super::mut_vector_slice::MutVectorSlice;
use super::traits::VectorType;
use super::transform::map_values;
use super::vector::Vector;
use super::vector_slice::VectorSlice;

verus! {

/// `out` has the length of `src`, and each of its elements is a clone of
/// the element of `src` at the same position.
pub open spec fn clones_of<T: Clone>(src: Seq<T>, out: Seq<T>) -> bool {
    &&& out.len() == src.len()
    &&& forall|i: int| 0 <= i < src.len() ==> cloned(src[i], #[trigger] out[i])
}

/// A new buffer holding a clone of every element of `items`, in order.
pub fn clone_values<T: Clone>(items: &[T]) -> (out: Vec<T>)
    ensures
        clones_of(items@, out@),
{
    let duplicate = |item: &T| -> (copy: T)
        ensures
            cloned(*item, copy),
        { item.clone() };
    map_values(items, &duplicate)
}

// Each costly conversion clones the elements, so what `from` returns is
// stated by its own `ensures`, elementwise, and `from_spec` says nothing.

impl<T: Clone> From<&[T]> for Vector<T> {
    /// Clones every element of the slice.
    fn from(values: &[T]) -> (out: Self)
        ensures
            clones_of(values@, out@),
    {
        Vector::from_values(clone_values(values))
    }
}

impl<T: Clone> FromSpecImpl<&[T]> for Vector<T> {
    open spec fn obeys_from_spec() -> bool {
        false
    }

    open spec fn from_spec(values: &[T]) -> Self {
        arbitrary()
    }
}

impl<T: Clone> From<&Vector<T>> for Vector<T> {
    /// Clones every element of the vector.
    fn from(vector: &Vector<T>) -> (out: Self)
        ensures
            clones_of(vector@, out@),
    {
        Vector::from_values(clone_values(vector.elements()))
    }
}

impl<T: Clone> FromSpecImpl<&Vector<T>> for Vector<T> {
    open spec fn obeys_from_spec() -> bool {
        false
    }

    open spec fn from_spec(vector: &Vector<T>) -> Self {
        arbitrary()
    }
}

impl<T: Clone> From<&MutVector<T>> for Vector<T> {
    /// Clones every element of the vector.
    fn from(vector: &MutVector<T>) -> (out: Self)
        ensures
            clones_of(vector@, out@),
    {
        Vector::from_values(clone_values(vector.elements()))
    }
}

impl<T: Clone> FromSpecImpl<&MutVector<T>> for Vector<T> {
    open spec fn obeys_from_spec() -> bool {
        false
    }

    open spec fn from_spec(vector: &MutVector<T>) -> Self {
        arbitrary()
    }
}

impl<'v, T: Clone> From<VectorSlice<'v, T>> for Vector<T> {
    /// Clones every element that the view looks at.
    fn from(view: VectorSlice<'v, T>) -> (out: Self)
        ensures
            clones_of(view@, out@),
    {
        Vector::from_values(clone_values(view.elements()))
    }
}

impl<'v, T: Clone> FromSpecImpl<VectorSlice<'v, T>> for Vector<T> {
    open spec fn obeys_from_spec() -> bool {
        false
    }

    open spec fn from_spec(view: VectorSlice<'v, T>) -> Self {
        arbitrary()
    }
}

impl<'v, T: Clone> From<&VectorSlice<'v, T>> for Vector<T> {
    /// Clones every element that the view looks at.
    fn from(view: &VectorSlice<'v, T>) -> (out: Self)
        ensures
            clones_of(view@, out@),
    {
        Vector::from_values(clone_values(view.elements()))
    }
}

impl<'v, T: Clone> FromSpecImpl<&VectorSlice<'v, T>> for Vector<T> {
    open spec fn obeys_from_spec() -> bool {
        false
    }

    open spec fn from_spec(view: &VectorSlice<'v, T>) -> Self {
        arbitrary()
    }
}

impl<'v, T: Clone> From<&MutVectorSlice<'v, T>> for Vector<T> {
    /// Clones every element that the view looks at.
    fn from(view: &MutVectorSlice<'v, T>) -> (out: Self)
        ensures
            clones_of(view@, out@),
    {
        Vector::from_values(clone_values(view.elements()))
    }
}

impl<'v, T: Clone> FromSpecImpl<&MutVectorSlice<'v, T>> for Vector<T> {
    open spec fn obeys_from_spec() -> bool {
        false
    }

    open spec fn from_spec(view: &MutVectorSlice<'v, T>) -> Self {
        arbitrary()
    }
}

impl<'v, T: Clone> From<MutVectorSlice<'v, T>> for Vector<T> {
    /// Clones every element that the view looks at, and gives the view up.
    fn from(view: MutVectorSlice<'v, T>) -> (out: Self)
        ensures
            clones_of(view@, out@),
    {
        Vector::from_values(clone_values(view.elements()))
    }
}

impl<'v, T: Clone> FromSpecImpl<MutVectorSlice<'v, T>> for Vector<T> {
    open spec fn obeys_from_spec() -> bool {
        false
    }

    open spec fn from_spec(view: MutVectorSlice<'v, T>) -> Self {
        arbitrary()
    }
}

impl<T: Clone> From<&mut [T]> for Vector<T> {
    /// Clones every element of the slice, which stays as it is.
    fn from(values: &mut [T]) -> (out: Self)
        ensures
            clones_of(old(values)@, out@),
            final(values)@ == old(values)@,
    {
        Vector::from_values(clone_values(&*values))
    }
}

impl<T: Clone> FromSpecImpl<&mut [T]> for Vector<T> {
    open spec fn obeys_from_spec() -> bool {
        false
    }

    open spec fn from_spec(values: &mut [T]) -> Self {
        arbitrary()
    }
}

impl<T: Clone> From<&mut MutVector<T>> for Vector<T> {
    /// Clones every element of the vector, which stays as it is.
    fn from(vector: &mut MutVector<T>) -> (out: Self)
        ensures
            clones_of(old(vector)@, out@),
            *final(vector) == *old(vector),
    {
        Vector::from_values(clone_values(vector.elements()))
    }
}

impl<T: Clone> FromSpecImpl<&mut MutVector<T>> for Vector<T> {
    open spec fn obeys_from_spec() -> bool {
        false
    }

    open spec fn from_spec(vector: &mut MutVector<T>) -> Self {
        arbitrary()
    }
}

impl<'v, T: Clone> From<&mut MutVectorSlice<'v, T>> for Vector<T> {
    /// Clones every element that the view looks at; the view and the
    /// elements stay as they are.
    fn from(view: &mut MutVectorSlice<'v, T>) -> (out: Self)
        ensures
            clones_of(old(view)@, out@),
            *final(view) == *old(view),
    {
        Vector::from_values(clone_values(view.elements()))
    }
}

impl<'v, T: Clone> FromSpecImpl<&mut MutVectorSlice<'v, T>> for Vector<T> {
    open spec fn obeys_from_spec() -> bool {
        false
    }

    open spec fn from_spec(view: &mut MutVectorSlice<'v, T>) -> Self {
        arbitrary()
    }
}

} // verus!
