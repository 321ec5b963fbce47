use vstd::prelude::*;
use vstd::std_specs::convert::FromSpecImpl;
use core::ops::{Add, Mul, Range, Sub};
use super::arithmetic::{
    add_values, can_add_all, can_dot, can_sub_all, differences, dot_values, is_dot, sub_values,
    sums,
};
use super::error::VectorError;
use super::slicing::{in_bounds, selected, subslice};
use super::traits::{Combine, ImmVectorType, MapRef, VectorType};
use super::transform::{
    accepts_each, accepts_enumerated, accepts_enumerated_pairs, accepts_pairs, accepts_positions,
    combined, combined_enumerated, mapped, mapped_enumerated, mapped_positions,
};
use super::vector::Vector;

verus! {

/// A read-only view of elements that are stored elsewhere.
///
/// The view is made without copying the elements, and it cannot outlive
/// the storage it looks at. Every operation on it stores its result in
/// newly allocated memory.
#[derive(Debug, Eq, Ord)]
pub struct VectorSlice<'v, T> {
    values: &'v [T],
}

impl<'v, T> View for VectorSlice<'v, T> {
    type V = Seq<T>;

    closed spec fn view(&self) -> Seq<T> {
        self.values@
    }
}

impl<'v, T> VectorType<T> for VectorSlice<'v, T> {
    fn elements(&self) -> (items: &[T]) {
        self.values
    }
}

impl<'v, T> ImmVectorType<T> for VectorSlice<'v, T> {

}

impl<'v, T> MapRef<T> for VectorSlice<'v, T> {

}

impl<'v, T> Combine<T> for VectorSlice<'v, T> {

}

impl<'v, T> Clone for VectorSlice<'v, T> {
    /// Another view of the same elements.
    fn clone(&self) -> (copy: Self)
        ensures
            copy@ == self@,
    {
        VectorSlice { values: self.values }
    }
}

impl<'v, T> Default for VectorSlice<'v, T> {
    /// A view of no elements.
    fn default() -> (empty: Self)
        ensures
            empty@ == Seq::<T>::empty(),
    {
        let nothing: &[T] = &[];
        VectorSlice { values: nothing }
    }
}

impl<'v, T> From<&'v [T]> for VectorSlice<'v, T> {
    /// Views the elements without copying them.
    fn from(values: &'v [T]) -> (vector: Self)
        ensures
            vector@ == values@,
    {
        VectorSlice { values }
    }
}

impl<'v, T> FromSpecImpl<&'v [T]> for VectorSlice<'v, T> {
    open spec fn obeys_from_spec() -> bool {
        true
    }

    closed spec fn from_spec(values: &'v [T]) -> Self {
        VectorSlice { values }
    }
}

impl<'v, T> VectorSlice<'v, T> {
    /// The element at position `i`, for `vector[i]` in specifications.
    #[verifier::inline]
    pub open spec fn spec_index(&self, i: int) -> T
        recommends
            0 <= i < self@.len(),
    {
        self@[i]
    }

    /// Views the elements without copying them.
    pub(crate) fn from_values(values: &'v [T]) -> (view: Self)
        ensures
            view@ == values@,
    {
        VectorSlice { values }
    }

    /// Returns the length of the view.
    pub fn len(&self) -> (n: usize)
        ensures
            n == self@.len(),
    {
        <Self as VectorType<T>>::len(self)
    }

    /// The element at `index`, or `IndexOutOfRange` if there is none.
    pub fn get(&self, index: usize) -> (out: Result<&T, VectorError>)
        ensures
            match out {
                Ok(item) => index < self@.len() && *item == self@[index as int],
                Err(e) => e == VectorError::IndexOutOfRange && index >= self@.len(),
            },
    {
        if index < self.values.len() {
            Ok(&self.values[index])
        } else {
            Err(VectorError::IndexOutOfRange)
        }
    }

    /// A view of the elements that `range` selects, made without copying
    /// them, or `IndexOutOfRange` if the range reaches past the end.
    pub fn as_slice(&self, range: Range<usize>) -> (out: Result<VectorSlice<'v, T>, VectorError>)
        ensures
            match out {
                Ok(view) => in_bounds(range, self@.len()) && view@ == selected(self@, range),
                Err(e) => e == VectorError::IndexOutOfRange && !in_bounds(range, self@.len()),
            },
    {
        match subslice(self.values, range) {
            Ok(part) => Ok(VectorSlice { values: part }),
            Err(e) => Err(e),
        }
    }

    /// A new vector holding `f` of each element.
    pub fn map<F, Output>(&self, f: F) -> (out: Vector<Output>) where F: Fn(&T) -> Output
        requires
            accepts_each(f, self@),
        ensures
            mapped(self@, f, out@),
    {
        <Self as MapRef<T>>::map(self, f)
    }

    /// A new vector of the same length holding `f` of each position.
    pub fn map_index<F, Output>(&self, f: F) -> (out: Vector<Output>) where F: Fn(usize) -> Output
        requires
            accepts_positions(f, self@.len()),
        ensures
            mapped_positions(self@.len(), f, out@),
    {
        <Self as MapRef<T>>::map_index(self, f)
    }

    /// A new vector holding `f` of each position and the element there.
    pub fn map_enumerate<F, Output>(&self, f: F) -> (out: Vector<Output>) where
        F: Fn(usize, &T) -> Output,

        requires
            accepts_enumerated(f, self@),
        ensures
            mapped_enumerated(self@, f, out@),
    {
        <Self as MapRef<T>>::map_enumerate(self, f)
    }

    /// A new vector holding `f` of each pair of elements of `self` and
    /// `other`, or `SizeMismatch` if their lengths differ.
    pub fn combine<F, Rhs, Output, V>(&self, other: &V, f: F) -> (out: Result<
        Vector<Output>,
        VectorError,
    >) where F: Fn(&T, &Rhs) -> Output, V: VectorType<Rhs> + ?Sized
        requires
            self@.len() == other@.len() ==> accepts_pairs(f, self@, other@),
        ensures
            match out {
                Ok(vector) => combined(self@, other@, f, vector@),
                Err(e) => e == VectorError::SizeMismatch && self@.len() != other@.len(),
            },
    {
        <Self as Combine<T>>::combine(self, other, f)
    }

    /// As [`combine`](VectorSlice::combine), with `f` also given the
    /// position of each pair.
    pub fn combine_enumerate<F, Rhs, Output, V>(&self, other: &V, f: F) -> (out: Result<
        Vector<Output>,
        VectorError,
    >) where F: Fn(usize, &T, &Rhs) -> Output, V: VectorType<Rhs> + ?Sized
        requires
            self@.len() == other@.len() ==> accepts_enumerated_pairs(f, self@, other@),
        ensures
            match out {
                Ok(vector) => combined_enumerated(self@, other@, f, vector@),
                Err(e) => e == VectorError::SizeMismatch && self@.len() != other@.len(),
            },
    {
        <Self as Combine<T>>::combine_enumerate(self, other, f)
    }

    /// The elementwise sum `self + rhs` as a new vector, or `SizeMismatch`
    /// if the lengths differ.
    ///
    /// Neither operand can be written in place, so the sum is stored in
    /// newly allocated memory.
    pub fn add<R>(&self, rhs: &R) -> (out: Result<Vector<T>, VectorError>) where
        T: Clone + Add<Output = T>,
        R: ImmVectorType<T> + ?Sized,

        requires
            self@.len() == rhs@.len() ==> can_add_all(self@, rhs@),
        ensures
            match out {
                Ok(sum) => sums(self@, rhs@, sum@),
                Err(e) => e == VectorError::SizeMismatch && self@.len() != rhs@.len(),
            },
    {
        match add_values(self.values, rhs.elements()) {
            Ok(values) => Ok(Vector::from_values(values)),
            Err(e) => Err(e),
        }
    }

    /// The elementwise difference `self - rhs` as a new vector, or
    /// `SizeMismatch` if the lengths differ.
    ///
    /// Neither operand can be written in place, so the difference is stored
    /// in newly allocated memory.
    pub fn sub<R>(&self, rhs: &R) -> (out: Result<Vector<T>, VectorError>) where
        T: Clone + Sub<Output = T>,
        R: ImmVectorType<T> + ?Sized,

        requires
            self@.len() == rhs@.len() ==> can_sub_all(self@, rhs@),
        ensures
            match out {
                Ok(difference) => differences(self@, rhs@, difference@),
                Err(e) => e == VectorError::SizeMismatch && self@.len() != rhs@.len(),
            },
    {
        match sub_values(self.values, rhs.elements()) {
            Ok(values) => Ok(Vector::from_values(values)),
            Err(e) => Err(e),
        }
    }

    /// The dot product of `self` and `rhs`, or `SizeMismatch` if the
    /// lengths differ. Neither operand is changed.
    pub fn dot<R>(&self, rhs: &R) -> (out: Result<T, VectorError>) where
        T: Clone + Default + Add<Output = T> + Mul<Output = T>,
        R: VectorType<T> + ?Sized,

        requires
            self@.len() == rhs@.len() ==> can_dot(self@, rhs@),
        ensures
            match out {
                Ok(value) => self@.len() == rhs@.len() && is_dot(self@, rhs@, value),
                Err(e) => e == VectorError::SizeMismatch && self@.len() != rhs@.len(),
            },
    {
        dot_values(self.values, rhs.elements())
    }
}

} // verus!
