//! What the four vector types have in common.
//!
//! [`VectorType`] gives read access to the elements and [`MutVectorType`]
//! write access. The transforms are provided on top of these two, so a type
//! gains all of them by saying where its elements are.

use vstd::prelude::*;
use super::error::VectorError;
use super::transform::{
    accepts_each, accepts_enumerated, accepts_enumerated_pairs, accepts_pairs, accepts_positions,
    combine_enumerated, combine_enumerated_in_place, combine_values, combine_values_in_place,
    combined, combined_enumerated, map_enumerated, map_enumerated_in_place, map_positions,
    map_positions_in_place, map_values, map_values_in_place, mapped, mapped_enumerated,
    mapped_positions,
};
use super::vector::Vector;

verus! {

/// A sequence of elements of type `T` that can be read.
///
/// The view of a vector is the sequence of its elements.
pub trait VectorType<T>: View<V = Seq<T>> {
    /// The elements, in order.
    fn elements(&self) -> (items: &[T])
        ensures
            items@ == self@,
    ;

    /// The number of elements.
    fn len(&self) -> (n: usize)
        ensures
            n == self@.len(),
    {
        self.elements().len()
    }
}

/// A vector whose operations always store their result in a new [`Vector`].
pub trait ImmVectorType<T>: VectorType<T> {

}

/// A vector whose elements can be overwritten where they are, so that an
/// operation may store its result in the vector itself.
///
/// The length is fixed while the elements are borrowed: writing through
/// the returned slice changes elements and nothing else.
pub trait MutVectorType<T>: VectorType<T> {
    /// The elements, in order, for writing.
    fn elements_mut(&mut self) -> (items: &mut [T])
        ensures
            items@ == old(self)@,
            final(self)@ == final(items)@,
    ;
}

/// Transforms of one vector into a new [`Vector`].
///
/// The result is always freshly allocated, whether or not the operand could
/// be written in place, because its element type may differ.
pub trait MapRef<T>: VectorType<T> {
    /// A new vector holding `f` of each element.
    fn map<F, O>(&self, f: F) -> (out: Vector<O>) where F: Fn(&T) -> O
        requires
            accepts_each(f, self@),
        ensures
            mapped(self@, f, out@),
    {
        Vector::from_values(map_values(self.elements(), &f))
    }

    /// A new vector of the same length holding `f` of each position.
    fn map_index<F, O>(&self, f: F) -> (out: Vector<O>) where F: Fn(usize) -> O
        requires
            accepts_positions(f, self@.len()),
        ensures
            mapped_positions(self@.len(), f, out@),
    {
        Vector::from_values(map_positions(self.elements(), &f))
    }

    /// A new vector holding `f` of each position and the element there.
    fn map_enumerate<F, O>(&self, f: F) -> (out: Vector<O>) where F: Fn(usize, &T) -> O
        requires
            accepts_enumerated(f, self@),
        ensures
            mapped_enumerated(self@, f, out@),
    {
        Vector::from_values(map_enumerated(self.elements(), &f))
    }
}

/// Transforms of two vectors of one length into a new [`Vector`].
///
/// The other operand may be any vector type; it is only read.
pub trait Combine<T>: VectorType<T> {
    /// A new vector holding `f` of each pair of elements, or
    /// `SizeMismatch` if the lengths differ.
    fn combine<F, Rhs, O, V>(&self, other: &V, f: F) -> (out: Result<Vector<O>, VectorError>) where
        F: Fn(&T, &Rhs) -> O,
        V: VectorType<Rhs> + ?Sized,

        requires
            self@.len() == other@.len() ==> accepts_pairs(f, self@, other@),
        ensures
            match out {
                Ok(vector) => combined(self@, other@, f, vector@),
                Err(e) => e == VectorError::SizeMismatch && self@.len() != other@.len(),
            },
    {
        match combine_values(self.elements(), other.elements(), &f) {
            Ok(values) => Ok(Vector::from_values(values)),
            Err(e) => Err(e),
        }
    }

    /// As [`combine`](Combine::combine), with `f` also given the position
    /// of each pair.
    fn combine_enumerate<F, Rhs, O, V>(&self, other: &V, f: F) -> (out: Result<
        Vector<O>,
        VectorError,
    >) where F: Fn(usize, &T, &Rhs) -> O, V: VectorType<Rhs> + ?Sized
        requires
            self@.len() == other@.len() ==> accepts_enumerated_pairs(f, self@, other@),
        ensures
            match out {
                Ok(vector) => combined_enumerated(self@, other@, f, vector@),
                Err(e) => e == VectorError::SizeMismatch && self@.len() != other@.len(),
            },
    {
        match combine_enumerated(self.elements(), other.elements(), &f) {
            Ok(values) => Ok(Vector::from_values(values)),
            Err(e) => Err(e),
        }
    }
}

/// Transforms that overwrite the elements of a vector where they are.
///
/// Nothing is allocated and the length stays as it was. Each method hands
/// back the vector it was called on, so that calls can be chained.
pub trait MapMut<T>: MutVectorType<T> + Sized {
    /// Overwrites each element with `f` of it.
    fn map_mut<F>(&mut self, f: F) -> (handle: &mut Self) where F: Fn(&T) -> T
        requires
            accepts_each(f, old(self)@),
        ensures
            mapped(old(self)@, f, handle@),
            handle@.len() == old(self)@.len(),
            *final(self) == *final(handle),
    {
        map_values_in_place(self.elements_mut(), &f);
        self
    }

    /// Overwrites each element with `f` of its position.
    fn map_index_mut<F>(&mut self, f: F) -> (handle: &mut Self) where F: Fn(usize) -> T
        requires
            accepts_positions(f, old(self)@.len()),
        ensures
            mapped_positions(old(self)@.len(), f, handle@),
            handle@.len() == old(self)@.len(),
            *final(self) == *final(handle),
    {
        map_positions_in_place(self.elements_mut(), &f);
        self
    }

    /// Overwrites each element with `f` of its position and of the element.
    fn map_enumerate_mut<F>(&mut self, f: F) -> (handle: &mut Self) where F: Fn(usize, &T) -> T
        requires
            accepts_enumerated(f, old(self)@),
        ensures
            mapped_enumerated(old(self)@, f, handle@),
            handle@.len() == old(self)@.len(),
            *final(self) == *final(handle),
    {
        map_enumerated_in_place(self.elements_mut(), &f);
        self
    }
}

/// Pairwise transforms that overwrite the elements of the vector they are
/// called on.
///
/// The lengths are compared before anything is written: a call that fails
/// leaves the vector as it was.
pub trait CombineMut<T>: MutVectorType<T> + Sized {
    /// Overwrites each element with `f` of it and of the element of `other`
    /// at the same position, or fails with `SizeMismatch` if the lengths
    /// differ.
    fn combine_mut<F, Rhs, V>(&mut self, other: &V, f: F) -> (out: Result<
        &mut Self,
        VectorError,
    >) where F: Fn(&T, &Rhs) -> T, V: VectorType<Rhs> + ?Sized
        requires
            old(self)@.len() == other@.len() ==> accepts_pairs(f, old(self)@, other@),
        ensures
            match out {
                Ok(handle) => {
                    &&& combined(old(self)@, other@, f, handle@)
                    &&& handle@.len() == old(self)@.len()
                    &&& *final(self) == *final(handle)
                },
                Err(e) => {
                    &&& e == VectorError::SizeMismatch
                    &&& old(self)@.len() != other@.len()
                    &&& *final(self) == *old(self)
                },
            },
    {
        if self.len() != other.len() {
            return Err(VectorError::SizeMismatch);
        }
        match combine_values_in_place(self.elements_mut(), other.elements(), &f) {
            Ok(_) => Ok(self),
            Err(e) => Err(e),
        }
    }

    /// As [`combine_mut`](CombineMut::combine_mut), with `f` also given the
    /// position of each pair.
    fn combine_enumerate_mut<F, Rhs, V>(&mut self, other: &V, f: F) -> (out: Result<
        &mut Self,
        VectorError,
    >) where F: Fn(usize, &T, &Rhs) -> T, V: VectorType<Rhs> + ?Sized
        requires
            old(self)@.len() == other@.len() ==> accepts_enumerated_pairs(f, old(self)@, other@),
        ensures
            match out {
                Ok(handle) => {
                    &&& combined_enumerated(old(self)@, other@, f, handle@)
                    &&& handle@.len() == old(self)@.len()
                    &&& *final(self) == *final(handle)
                },
                Err(e) => {
                    &&& e == VectorError::SizeMismatch
                    &&& old(self)@.len() != other@.len()
                    &&& *final(self) == *old(self)
                },
            },
    {
        if self.len() != other.len() {
            return Err(VectorError::SizeMismatch);
        }
        match combine_enumerated_in_place(self.elements_mut(), other.elements(), &f) {
            Ok(_) => Ok(self),
            Err(e) => Err(e),
        }
    }
}

} // verus!
