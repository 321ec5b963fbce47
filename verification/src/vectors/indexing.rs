//! Reading an element with `vector[index]`.
//!
//! The position must exist. `get` is the form that answers a position past
//! the end with an error, and `set` is the checked form for writing.

use vstd::prelude::*;
use core::ops::Index;
use super::mut_vector::MutVector;
use super::mut_vector_slice::MutVectorSlice;
use super::traits::VectorType;
use super::vector::Vector;
use super::vector_slice::VectorSlice;

verus! {

impl<T> Index<usize> for Vector<T> where T: Clone {
    type Output = T;

    fn index(&self, index: usize) -> (item: &T)
        ensures
            *item == self@[index as int],
    {
        &self.elements()[index]
    }
}

impl<T> vstd::std_specs::core::IndexSpecImpl<usize> for Vector<T> where T: Clone {
    open spec fn index_req(&self, index: &usize) -> bool {
        *index < self@.len()
    }
}

impl<T> Index<usize> for MutVector<T> where T: Clone {
    type Output = T;

    fn index(&self, index: usize) -> (item: &T)
        ensures
            *item == self@[index as int],
    {
        &self.elements()[index]
    }
}

impl<T> vstd::std_specs::core::IndexSpecImpl<usize> for MutVector<T> where T: Clone {
    open spec fn index_req(&self, index: &usize) -> bool {
        *index < self@.len()
    }
}

impl<'v, T> Index<usize> for VectorSlice<'v, T> where T: Clone {
    type Output = T;

    fn index(&self, index: usize) -> (item: &T)
        ensures
            *item == self@[index as int],
    {
        &self.elements()[index]
    }
}

impl<'v, T> vstd::std_specs::core::IndexSpecImpl<usize> for VectorSlice<'v, T> where T: Clone {
    open spec fn index_req(&self, index: &usize) -> bool {
        *index < self@.len()
    }
}

impl<'v, T> Index<usize> for MutVectorSlice<'v, T> where T: Clone {
    type Output = T;

    fn index(&self, index: usize) -> (item: &T)
        ensures
            *item == self@[index as int],
    {
        &self.elements()[index]
    }
}

impl<'v, T> vstd::std_specs::core::IndexSpecImpl<usize> for MutVectorSlice<'v, T> where T: Clone {
    open spec fn index_req(&self, index: &usize) -> bool {
        *index < self@.len()
    }
}

} // verus!
