use vstd::prelude::*;
use vstd::std_specs::convert::FromSpecImpl;
use core::ops::{Add, Mul, Range, Sub};
use super::arithmetic::{
    add_values, can_add_all, can_dot, can_sub_all, differences, dot_values, is_dot, sub_values,
    sums,
};
use super::conversions::{clone_values, clones_of};
use super::error::VectorError;
use super::mut_vector::MutVector;
use super::slicing::{in_bounds, selected, subslice};
use super::traits::{Combine, ImmVectorType, MapRef, VectorType};
use super::transform::{
    accepts_each, accepts_enumerated, accepts_enumerated_pairs, accepts_pairs, accepts_positions,
    combined, combined_enumerated, mapped, mapped_enumerated, mapped_positions,
};
use super::vector_slice::VectorSlice;

verus! {

/// The basic vector type: it owns its elements, and every operation on it
/// stores its result in newly allocated memory.
#[derive(Debug, Eq, Ord)]
pub struct Vector<T> {
    values: Vec<T>,
}

impl<T> View for Vector<T> {
    type V = Seq<T>;

    closed spec fn view(&self) -> Seq<T> {
        self.values@
    }
}

impl<T> VectorType<T> for Vector<T> {
    fn elements(&self) -> (items: &[T]) {
        self.values.as_slice()
    }
}

impl<T> ImmVectorType<T> for Vector<T> {

}

impl<T> MapRef<T> for Vector<T> {

}

impl<T> Combine<T> for Vector<T> {

}

impl<T: Clone> Clone for Vector<T> {
    /// A vector of its own, holding a clone of every element.
    fn clone(&self) -> (copy: Self)
        ensures
            clones_of(self@, copy@),
    {
        Vector { values: clone_values(self.values.as_slice()) }
    }
}

impl<T> Default for Vector<T> {
    /// The vector without elements.
    fn default() -> (empty: Self)
        ensures
            empty@ == Seq::<T>::empty(),
    {
        Vector { values: Vec::new() }
    }
}

impl<T> From<Vec<T>> for Vector<T> {
    /// Takes the elements over without copying them.
    fn from(values: Vec<T>) -> (vector: Self)
        ensures
            vector@ == values@,
    {
        Vector { values }
    }
}

impl<T> FromSpecImpl<Vec<T>> for Vector<T> {
    open spec fn obeys_from_spec() -> bool {
        true
    }

    closed spec fn from_spec(values: Vec<T>) -> Self {
        Vector { values }
    }
}

impl<T> From<MutVector<T>> for Vector<T> {
    /// Takes the elements over without copying them.
    fn from(vector: MutVector<T>) -> (out: Self)
        ensures
            out@ == vector@,
    {
        Vector { values: vector.into_values() }
    }
}

/// What `from` returns is stated by its own `ensures`.
impl<T> FromSpecImpl<MutVector<T>> for Vector<T> {
    open spec fn obeys_from_spec() -> bool {
        false
    }

    open spec fn from_spec(vector: MutVector<T>) -> Self {
        arbitrary()
    }
}

impl<T> Vector<T> {
    /// The element at position `i`, for `vector[i]` in specifications.
    #[verifier::inline]
    pub open spec fn spec_index(&self, i: int) -> T
        recommends
            0 <= i < self@.len(),
    {
        self@[i]
    }

    /// Takes the elements over without copying them.
    pub(crate) fn from_values(values: Vec<T>) -> (vector: Self)
        ensures
            vector@ == values@,
    {
        Vector { values }
    }

    /// Gives the elements up without copying them.
    pub(crate) fn into_values(self) -> (values: Vec<T>)
        ensures
            values@ == self@,
    {
        self.values
    }

    /// Returns the length of the vector.
    pub fn len(&self) -> (n: usize)
        ensures
            n == self@.len(),
    {
        <Self as VectorType<T>>::len(self)
    }

    /// The element at `index`, or `IndexOutOfRange` if there is none.
    pub fn get(&self, index: usize) -> (out: Result<&T, VectorError>)
        ensures
            match out {
                Ok(item) => index < self@.len() && *item == self@[index as int],
                Err(e) => e == VectorError::IndexOutOfRange && index >= self@.len(),
            },
    {
        if index < self.values.len() {
            Ok(&self.values[index])
        } else {
            Err(VectorError::IndexOutOfRange)
        }
    }

    /// A view of the elements that `range` selects, made without copying
    /// them, or `IndexOutOfRange` if the range reaches past the end.
    pub fn as_slice(&self, range: Range<usize>) -> (out: Result<VectorSlice<'_, T>, VectorError>)
        ensures
            match out {
                Ok(view) => in_bounds(range, self@.len()) && view@ == selected(self@, range),
                Err(e) => e == VectorError::IndexOutOfRange && !in_bounds(range, self@.len()),
            },
    {
        match subslice(self.values.as_slice(), range) {
            Ok(part) => Ok(VectorSlice::from_values(part)),
            Err(e) => Err(e),
        }
    }

    /// A new vector holding `f` of each element.
    pub fn map<F, Output>(&self, f: F) -> (out: Vector<Output>) where F: Fn(&T) -> Output
        requires
            accepts_each(f, self@),
        ensures
            mapped(self@, f, out@),
    {
        <Self as MapRef<T>>::map(self, f)
    }

    /// A new vector of the same length holding `f` of each position.
    pub fn map_index<F, Output>(&self, f: F) -> (out: Vector<Output>) where F: Fn(usize) -> Output
        requires
            accepts_positions(f, self@.len()),
        ensures
            mapped_positions(self@.len(), f, out@),
    {
        <Self as MapRef<T>>::map_index(self, f)
    }

    /// A new vector holding `f` of each position and the element there.
    pub fn map_enumerate<F, Output>(&self, f: F) -> (out: Vector<Output>) where
        F: Fn(usize, &T) -> Output,

        requires
            accepts_enumerated(f, self@),
        ensures
            mapped_enumerated(self@, f, out@),
    {
        <Self as MapRef<T>>::map_enumerate(self, f)
    }

    /// A new vector holding `f` of each pair of elements of `self` and
    /// `other`, or `SizeMismatch` if their lengths differ.
    pub fn combine<F, Rhs, Output, V>(&self, other: &V, f: F) -> (out: Result<
        Vector<Output>,
        VectorError,
    >) where F: Fn(&T, &Rhs) -> Output, V: VectorType<Rhs> + ?Sized
        requires
            self@.len() == other@.len() ==> accepts_pairs(f, self@, other@),
        ensures
            match out {
                Ok(vector) => combined(self@, other@, f, vector@),
                Err(e) => e == VectorError::SizeMismatch && self@.len() != other@.len(),
            },
    {
        <Self as Combine<T>>::combine(self, other, f)
    }

    /// As [`combine`](Vector::combine), with `f` also given the
    /// position of each pair.
    pub fn combine_enumerate<F, Rhs, Output, V>(&self, other: &V, f: F) -> (out: Result<
        Vector<Output>,
        VectorError,
    >) where F: Fn(usize, &T, &Rhs) -> Output, V: VectorType<Rhs> + ?Sized
        requires
            self@.len() == other@.len() ==> accepts_enumerated_pairs(f, self@, other@),
        ensures
            match out {
                Ok(vector) => combined_enumerated(self@, other@, f, vector@),
                Err(e) => e == VectorError::SizeMismatch && self@.len() != other@.len(),
            },
    {
        <Self as Combine<T>>::combine_enumerate(self, other, f)
    }

    /// The elementwise sum `self + rhs` as a new vector, or `SizeMismatch`
    /// if the lengths differ.
    ///
    /// Neither operand can be written in place, so the sum is stored in
    /// newly allocated memory.
    pub fn add<R>(&self, rhs: &R) -> (out: Result<Vector<T>, VectorError>) where
        T: Clone + Add<Output = T>,
        R: ImmVectorType<T> + ?Sized,

        requires
            self@.len() == rhs@.len() ==> can_add_all(self@, rhs@),
        ensures
            match out {
                Ok(sum) => sums(self@, rhs@, sum@),
                Err(e) => e == VectorError::SizeMismatch && self@.len() != rhs@.len(),
            },
    {
        match add_values(self.values.as_slice(), rhs.elements()) {
            Ok(values) => Ok(Vector::from_values(values)),
            Err(e) => Err(e),
        }
    }

    /// The elementwise difference `self - rhs` as a new vector, or
    /// `SizeMismatch` if the lengths differ.
    ///
    /// Neither operand can be written in place, so the difference is stored
    /// in newly allocated memory.
    pub fn sub<R>(&self, rhs: &R) -> (out: Result<Vector<T>, VectorError>) where
        T: Clone + Sub<Output = T>,
        R: ImmVectorType<T> + ?Sized,

        requires
            self@.len() == rhs@.len() ==> can_sub_all(self@, rhs@),
        ensures
            match out {
                Ok(difference) => differences(self@, rhs@, difference@),
                Err(e) => e == VectorError::SizeMismatch && self@.len() != rhs@.len(),
            },
    {
        match sub_values(self.values.as_slice(), rhs.elements()) {
            Ok(values) => Ok(Vector::from_values(values)),
            Err(e) => Err(e),
        }
    }

    /// The dot product of `self` and `rhs`, or `SizeMismatch` if the
    /// lengths differ. Neither operand is changed.
    pub fn dot<R>(&self, rhs: &R) -> (out: Result<T, VectorError>) where
        T: Clone + Default + Add<Output = T> + Mul<Output = T>,
        R: VectorType<T> + ?Sized,

        requires
            self@.len() == rhs@.len() ==> can_dot(self@, rhs@),
        ensures
            match out {
                Ok(value) => self@.len() == rhs@.len() && is_dot(self@, rhs@, value),
                Err(e) => e == VectorError::SizeMismatch && self@.len() != rhs@.len(),
            },
    {
        dot_values(self.values.as_slice(), rhs.elements())
    }
}

} // verus!
