use vstd::prelude::*;
use vstd::std_specs::convert::FromSpecImpl;
use core::ops::{Add, Mul, Range, Sub};
use super::arithmetic::{
    add_values_into_left, add_values_into_right, can_add_all, can_dot, can_sub_all, differences,
    dot_values, is_dot, sub_values_into_left, sub_values_into_right, sums,
};
use super::conversions::{clone_values, clones_of};
use super::error::VectorError;
use super::mut_vector_slice::MutVectorSlice;
use super::slicing::{after, before, in_bounds, range_fits, selected, subslice, subslice_mut};
use super::traits::{Combine, CombineMut, MapMut, MapRef, MutVectorType, VectorType, ImmVectorType};
use super::transform::{
    accepts_each, accepts_enumerated, accepts_enumerated_pairs, accepts_pairs, accepts_positions,
    combined, combined_enumerated, mapped, mapped_enumerated, mapped_positions,
};
use super::vector::Vector;
use super::vector_slice::VectorSlice;

verus! {

/// A vector that owns its elements and lets operations store their result
/// in it.
///
/// Where a [`Vector`] allocates for every result, a `MutVector` can serve
/// as the buffer that receives one result after another.
#[derive(Debug, Eq, Ord)]
pub struct MutVector<T> {
    values: Vec<T>,
}

impl<T> View for MutVector<T> {
    type V = Seq<T>;

    closed spec fn view(&self) -> Seq<T> {
        self.values@
    }
}

impl<T> VectorType<T> for MutVector<T> {
    fn elements(&self) -> (items: &[T]) {
        self.values.as_slice()
    }
}

impl<T> MutVectorType<T> for MutVector<T> {
    fn elements_mut(&mut self) -> (items: &mut [T]) {
        self.values.as_mut_slice()
    }
}

impl<T> MapRef<T> for MutVector<T> {

}

impl<T> Combine<T> for MutVector<T> {

}

impl<T> MapMut<T> for MutVector<T> {

}

impl<T> CombineMut<T> for MutVector<T> {

}

impl<T: Clone> Clone for MutVector<T> {
    /// A vector of its own, holding a clone of every element.
    fn clone(&self) -> (copy: Self)
        ensures
            clones_of(self@, copy@),
    {
        MutVector { values: clone_values(self.values.as_slice()) }
    }
}

impl<T> Default for MutVector<T> {
    /// The vector without elements.
    fn default() -> (empty: Self)
        ensures
            empty@ == Seq::<T>::empty(),
    {
        MutVector { values: Vec::new() }
    }
}

impl<T> From<Vec<T>> for MutVector<T> {
    /// Takes the elements over without copying them.
    fn from(values: Vec<T>) -> (vector: Self)
        ensures
            vector@ == values@,
    {
        MutVector { values }
    }
}

impl<T> FromSpecImpl<Vec<T>> for MutVector<T> {
    open spec fn obeys_from_spec() -> bool {
        true
    }

    closed spec fn from_spec(values: Vec<T>) -> Self {
        MutVector { values }
    }
}

impl<T> From<Vector<T>> for MutVector<T> {
    /// Takes the elements over without copying them.
    fn from(vector: Vector<T>) -> (out: Self)
        ensures
            out@ == vector@,
    {
        MutVector { values: vector.into_values() }
    }
}

/// What `from` returns is stated by its own `ensures`.
impl<T> FromSpecImpl<Vector<T>> for MutVector<T> {
    open spec fn obeys_from_spec() -> bool {
        false
    }

    open spec fn from_spec(vector: Vector<T>) -> Self {
        arbitrary()
    }
}

impl<T> MutVector<T> {
    /// The element at position `i`, for `vector[i]` in specifications.
    #[verifier::inline]
    pub open spec fn spec_index(&self, i: int) -> T
        recommends
            0 <= i < self@.len(),
    {
        self@[i]
    }

    /// Takes the elements over without copying them.
    pub(crate) fn from_values(values: Vec<T>) -> (vector: Self)
        ensures
            vector@ == values@,
    {
        MutVector { values }
    }

    /// Gives the elements up without copying them.
    pub(crate) fn into_values(self) -> (values: Vec<T>)
        ensures
            values@ == self@,
    {
        self.values
    }

    /// Returns the length of the vector.
    pub fn len(&self) -> (n: usize)
        ensures
            n == self@.len(),
    {
        <Self as VectorType<T>>::len(self)
    }

    /// The element at `index`, or `IndexOutOfRange` if there is none.
    pub fn get(&self, index: usize) -> (out: Result<&T, VectorError>)
        ensures
            match out {
                Ok(item) => index < self@.len() && *item == self@[index as int],
                Err(e) => e == VectorError::IndexOutOfRange && index >= self@.len(),
            },
    {
        if index < self.values.len() {
            Ok(&self.values[index])
        } else {
            Err(VectorError::IndexOutOfRange)
        }
    }

    /// A view of the elements that `range` selects, made without copying
    /// them, or `IndexOutOfRange` if the range reaches past the end.
    pub fn as_slice(&self, range: Range<usize>) -> (out: Result<VectorSlice<'_, T>, VectorError>)
        ensures
            match out {
                Ok(view) => in_bounds(range, self@.len()) && view@ == selected(self@, range),
                Err(e) => e == VectorError::IndexOutOfRange && !in_bounds(range, self@.len()),
            },
    {
        match subslice(self.values.as_slice(), range) {
            Ok(part) => Ok(VectorSlice::from_values(part)),
            Err(e) => Err(e),
        }
    }

    /// A new vector holding `f` of each element.
    pub fn map<F, Output>(&self, f: F) -> (out: Vector<Output>) where F: Fn(&T) -> Output
        requires
            accepts_each(f, self@),
        ensures
            mapped(self@, f, out@),
    {
        <Self as MapRef<T>>::map(self, f)
    }

    /// A new vector of the same length holding `f` of each position.
    pub fn map_index<F, Output>(&self, f: F) -> (out: Vector<Output>) where F: Fn(usize) -> Output
        requires
            accepts_positions(f, self@.len()),
        ensures
            mapped_positions(self@.len(), f, out@),
    {
        <Self as MapRef<T>>::map_index(self, f)
    }

    /// A new vector holding `f` of each position and the element there.
    pub fn map_enumerate<F, Output>(&self, f: F) -> (out: Vector<Output>) where
        F: Fn(usize, &T) -> Output,

        requires
            accepts_enumerated(f, self@),
        ensures
            mapped_enumerated(self@, f, out@),
    {
        <Self as MapRef<T>>::map_enumerate(self, f)
    }

    /// A new vector holding `f` of each pair of elements of `self` and
    /// `other`, or `SizeMismatch` if their lengths differ.
    pub fn combine<F, Rhs, Output, V>(&self, other: &V, f: F) -> (out: Result<
        Vector<Output>,
        VectorError,
    >) where F: Fn(&T, &Rhs) -> Output, V: VectorType<Rhs> + ?Sized
        requires
            self@.len() == other@.len() ==> accepts_pairs(f, self@, other@),
        ensures
            match out {
                Ok(vector) => combined(self@, other@, f, vector@),
                Err(e) => e == VectorError::SizeMismatch && self@.len() != other@.len(),
            },
    {
        <Self as Combine<T>>::combine(self, other, f)
    }

    /// As [`combine`](MutVector::combine), with `f` also given the
    /// position of each pair.
    pub fn combine_enumerate<F, Rhs, Output, V>(&self, other: &V, f: F) -> (out: Result<
        Vector<Output>,
        VectorError,
    >) where F: Fn(usize, &T, &Rhs) -> Output, V: VectorType<Rhs> + ?Sized
        requires
            self@.len() == other@.len() ==> accepts_enumerated_pairs(f, self@, other@),
        ensures
            match out {
                Ok(vector) => combined_enumerated(self@, other@, f, vector@),
                Err(e) => e == VectorError::SizeMismatch && self@.len() != other@.len(),
            },
    {
        <Self as Combine<T>>::combine_enumerate(self, other, f)
    }

    /// Overwrites the element at `index` with `value`, or fails with
    /// `IndexOutOfRange` if there is no such element.
    pub fn set(&mut self, index: usize, value: T) -> (out: Result<(), VectorError>)
        ensures
            match out {
                Ok(_) => index < old(self)@.len() && final(self)@ == old(self)@.update(
                    index as int,
                    value,
                ),
                Err(e) => {
                    &&& e == VectorError::IndexOutOfRange
                    &&& index >= old(self)@.len()
                    &&& *final(self) == *old(self)
                },
            },
    {
        if index < self.values.len() {
            self.values[index] = value;
            Ok(())
        } else {
            Err(VectorError::IndexOutOfRange)
        }
    }

    /// A view for writing of the elements that `range` selects, made
    /// without copying them, or `IndexOutOfRange` if the range reaches past
    /// the end. What is written through the view is written to this
    /// vector; the elements outside the range stay as they are.
    pub fn as_slice_mut(&mut self, range: Range<usize>) -> (out: Result<
        MutVectorSlice<'_, T>,
        VectorError,
    >)
        ensures
            match out {
                Ok(view) => {
                    &&& in_bounds(range, old(self)@.len())
                    &&& view@ == selected(old(self)@, range)
                    &&& final(self)@ == before(old(self)@, range) + final(view.values)@ + after(
                        old(self)@,
                        range,
                    )
                },
                Err(e) => {
                    &&& e == VectorError::IndexOutOfRange
                    &&& !in_bounds(range, old(self)@.len())
                    &&& *final(self) == *old(self)
                },
            },
    {
        if !range_fits(&range, self.values.len()) {
            return Err(VectorError::IndexOutOfRange);
        }
        match subslice_mut(self.values.as_mut_slice(), range) {
            Ok(part) => Ok(MutVectorSlice { values: part }),
            Err(e) => Err(e),
        }
    }

    /// Overwrites each element with `f` of it.
    pub fn map_mut<F>(&mut self, f: F) -> (handle: &mut Self) where F: Fn(&T) -> T
        requires
            accepts_each(f, old(self)@),
        ensures
            mapped(old(self)@, f, handle@),
            handle@.len() == old(self)@.len(),
            *final(self) == *final(handle),
    {
        <Self as MapMut<T>>::map_mut(self, f)
    }

    /// Overwrites each element with `f` of its position.
    pub fn map_index_mut<F>(&mut self, f: F) -> (handle: &mut Self) where F: Fn(usize) -> T
        requires
            accepts_positions(f, old(self)@.len()),
        ensures
            mapped_positions(old(self)@.len(), f, handle@),
            handle@.len() == old(self)@.len(),
            *final(self) == *final(handle),
    {
        <Self as MapMut<T>>::map_index_mut(self, f)
    }

    /// Overwrites each element with `f` of its position and of the element.
    pub fn map_enumerate_mut<F>(&mut self, f: F) -> (handle: &mut Self) where
        F: Fn(usize, &T) -> T,

        requires
            accepts_enumerated(f, old(self)@),
        ensures
            mapped_enumerated(old(self)@, f, handle@),
            handle@.len() == old(self)@.len(),
            *final(self) == *final(handle),
    {
        <Self as MapMut<T>>::map_enumerate_mut(self, f)
    }

    /// Overwrites each element with `f` of it and of the element of `other`
    /// at the same position, or fails with `SizeMismatch`, leaving the
    /// vector as it was, if the lengths differ.
    pub fn combine_mut<F, Rhs, V>(&mut self, other: &V, f: F) -> (out: Result<
        &mut Self,
        VectorError,
    >) where F: Fn(&T, &Rhs) -> T, V: VectorType<Rhs> + ?Sized
        requires
            old(self)@.len() == other@.len() ==> accepts_pairs(f, old(self)@, other@),
        ensures
            match out {
                Ok(handle) => {
                    &&& combined(old(self)@, other@, f, handle@)
                    &&& handle@.len() == old(self)@.len()
                    &&& *final(self) == *final(handle)
                },
                Err(e) => {
                    &&& e == VectorError::SizeMismatch
                    &&& old(self)@.len() != other@.len()
                    &&& *final(self) == *old(self)
                },
            },
    {
        <Self as CombineMut<T>>::combine_mut(self, other, f)
    }

    /// As [`combine_mut`](MutVector::combine_mut), with `f` also given the
    /// position of each pair.
    pub fn combine_enumerate_mut<F, Rhs, V>(&mut self, other: &V, f: F) -> (out: Result<
        &mut Self,
        VectorError,
    >) where F: Fn(usize, &T, &Rhs) -> T, V: VectorType<Rhs> + ?Sized
        requires
            old(self)@.len() == other@.len() ==> accepts_enumerated_pairs(f, old(self)@, other@),
        ensures
            match out {
                Ok(handle) => {
                    &&& combined_enumerated(old(self)@, other@, f, handle@)
                    &&& handle@.len() == old(self)@.len()
                    &&& *final(self) == *final(handle)
                },
                Err(e) => {
                    &&& e == VectorError::SizeMismatch
                    &&& old(self)@.len() != other@.len()
                    &&& *final(self) == *old(self)
                },
            },
    {
        <Self as CombineMut<T>>::combine_enumerate_mut(self, other, f)
    }

    /// Adds `rhs` to this vector in place: the elementwise sum
    /// `self + rhs` is stored in this vector, which is handed back. Fails
    /// with `SizeMismatch`, leaving the vector as it was, if the lengths
    /// differ.
    ///
    /// The left operand can be written in place, so its storage receives
    /// the sum whatever the right operand is; the right operand is only
    /// read.
    pub fn add<R>(&mut self, rhs: &R) -> (out: Result<&mut Self, VectorError>) where
        T: Clone + Add<Output = T>,
        R: VectorType<T> + ?Sized,

        requires
            old(self)@.len() == rhs@.len() ==> can_add_all(old(self)@, rhs@),
        ensures
            match out {
                Ok(handle) => {
                    &&& sums(old(self)@, rhs@, handle@)
                    &&& handle@.len() == old(self)@.len()
                    &&& *final(self) == *final(handle)
                },
                Err(e) => {
                    &&& e == VectorError::SizeMismatch
                    &&& old(self)@.len() != rhs@.len()
                    &&& *final(self) == *old(self)
                },
            },
    {
        if self.values.len() != rhs.len() {
            return Err(VectorError::SizeMismatch);
        }
        match add_values_into_left(self.values.as_mut_slice(), rhs.elements()) {
            Ok(_) => Ok(self),
            Err(e) => Err(e),
        }
    }

    /// Subtracts `rhs` from this vector in place: the elementwise
    /// difference `self - rhs` is stored in this vector, which is handed
    /// back. Fails with `SizeMismatch`, leaving the vector as it was, if
    /// the lengths differ.
    ///
    /// The left operand can be written in place, so its storage receives
    /// the difference whatever the right operand is; the right operand is
    /// only read.
    pub fn sub<R>(&mut self, rhs: &R) -> (out: Result<&mut Self, VectorError>) where
        T: Clone + Sub<Output = T>,
        R: VectorType<T> + ?Sized,

        requires
            old(self)@.len() == rhs@.len() ==> can_sub_all(old(self)@, rhs@),
        ensures
            match out {
                Ok(handle) => {
                    &&& differences(old(self)@, rhs@, handle@)
                    &&& handle@.len() == old(self)@.len()
                    &&& *final(self) == *final(handle)
                },
                Err(e) => {
                    &&& e == VectorError::SizeMismatch
                    &&& old(self)@.len() != rhs@.len()
                    &&& *final(self) == *old(self)
                },
            },
    {
        if self.values.len() != rhs.len() {
            return Err(VectorError::SizeMismatch);
        }
        match sub_values_into_left(self.values.as_mut_slice(), rhs.elements()) {
            Ok(_) => Ok(self),
            Err(e) => Err(e),
        }
    }

    /// Adds this vector to `lhs` in place: the elementwise sum
    /// `lhs + self` is stored in this vector, which is handed back. Fails
    /// with `SizeMismatch`, leaving the vector as it was, if the lengths
    /// differ.
    ///
    /// This is the sum of a left operand that cannot be written in place
    /// and a right operand that can: the storage of the right operand
    /// receives it.
    pub fn add_to<L>(&mut self, lhs: &L) -> (out: Result<&mut Self, VectorError>) where
        T: Clone + Add<Output = T>,
        L: ImmVectorType<T> + ?Sized,

        requires
            lhs@.len() == old(self)@.len() ==> can_add_all(lhs@, old(self)@),
        ensures
            match out {
                Ok(handle) => {
                    &&& sums(lhs@, old(self)@, handle@)
                    &&& handle@.len() == old(self)@.len()
                    &&& *final(self) == *final(handle)
                },
                Err(e) => {
                    &&& e == VectorError::SizeMismatch
                    &&& lhs@.len() != old(self)@.len()
                    &&& *final(self) == *old(self)
                },
            },
    {
        if lhs.len() != self.values.len() {
            return Err(VectorError::SizeMismatch);
        }
        match add_values_into_right(lhs.elements(), self.values.as_mut_slice()) {
            Ok(_) => Ok(self),
            Err(e) => Err(e),
        }
    }

    /// Subtracts this vector from `lhs` in place: the elementwise
    /// difference `lhs - self` is stored in this vector, which is handed
    /// back. Fails with `SizeMismatch`, leaving the vector as it was, if
    /// the lengths differ.
    ///
    /// This is the difference of a left operand that cannot be written in
    /// place and a right operand that can: the storage of the right operand
    /// receives it.
    pub fn sub_from<L>(&mut self, lhs: &L) -> (out: Result<&mut Self, VectorError>) where
        T: Clone + Sub<Output = T>,
        L: ImmVectorType<T> + ?Sized,

        requires
            lhs@.len() == old(self)@.len() ==> can_sub_all(lhs@, old(self)@),
        ensures
            match out {
                Ok(handle) => {
                    &&& differences(lhs@, old(self)@, handle@)
                    &&& handle@.len() == old(self)@.len()
                    &&& *final(self) == *final(handle)
                },
                Err(e) => {
                    &&& e == VectorError::SizeMismatch
                    &&& lhs@.len() != old(self)@.len()
                    &&& *final(self) == *old(self)
                },
            },
    {
        if lhs.len() != self.values.len() {
            return Err(VectorError::SizeMismatch);
        }
        match sub_values_into_right(lhs.elements(), self.values.as_mut_slice()) {
            Ok(_) => Ok(self),
            Err(e) => Err(e),
        }
    }

    /// The dot product of `self` and `rhs`, or `SizeMismatch` if the
    /// lengths differ. The result is a single element, so there is no
    /// storage to reuse: neither operand is changed.
    pub fn dot<R>(&self, rhs: &R) -> (out: Result<T, VectorError>) where
        T: Clone + Default + Add<Output = T> + Mul<Output = T>,
        R: VectorType<T> + ?Sized,

        requires
            self@.len() == rhs@.len() ==> can_dot(self@, rhs@),
        ensures
            match out {
                Ok(value) => self@.len() == rhs@.len() && is_dot(self@, rhs@, value),
                Err(e) => e == VectorError::SizeMismatch && self@.len() != rhs@.len(),
            },
    {
        dot_values(self.values.as_slice(), rhs.elements())
    }
}

} // verus!
