//! # The vector types
//!
//! All four vector types are sequences of elements with a fixed order,
//! and all of them offer
//!
//! - addition (`add`), subtraction (`sub`) and the dot product (`dot`);
//! - `map`, `map_index` and `map_enumerate`, which transform a vector
//!   element by element, by the element, by its position, or by both;
//! - `combine` and `combine_enumerate`, which transform two vectors of one
//!   length pair by pair;
//! - views of a part of the vector (`as_slice`), and reading an element by
//!   its position (`get`, or `vector[index]`).
//!
//! The types that can be written in place, [`MutVector`] and
//! [`MutVectorSlice`], add `map_mut`, `map_index_mut`, `map_enumerate_mut`,
//! `combine_mut` and `combine_enumerate_mut`, which overwrite the elements
//! instead of allocating, views for writing (`as_slice_mut`) and `set`.
//!
//! ## Where a sum or a difference is stored
//!
//! The two operands decide, by their types alone, which storage receives
//! the result of an addition or a subtraction:
//!
//! | left operand          | right operand         | the result is stored in | written as         |
//! |-----------------------|-----------------------|-------------------------|--------------------|
//! | cannot be written     | cannot be written     | a new [`Vector`]        | `left.add(&right)` |
//! | can be written        | any vector type       | the left operand        | `left.add(&right)` |
//! | cannot be written     | can be written        | the right operand       | `right.add_to(&left)` |
//!
//! and likewise `sub`, and `sub_from` for `add_to`. When both operands can
//! be written, it is the left one that is; the right one is only read. An
//! operation that stores its result in an operand hands that operand back,
//! so that the next operation can be chained to it. The dot product is a
//! single element, so it is returned as such and no operand is changed.
//!
//! ## Failure
//!
//! Operands of different lengths are refused with
//! [`VectorError::SizeMismatch`], and a position or a range past the end
//! of a vector with [`VectorError::IndexOutOfRange`]. An operation that
//! fails has written nothing.
//!
//! ## Contracts
//!
//! The view `v@` of a vector `v` is the sequence of its elements, and every
//! contract is stated over views. What a transform returns is stated
//! through the contract of the function it was given ([`transform`]); what
//! an arithmetic operation returns is stated through the element type's
//! own `+`, `-` and `*` ([`arithmetic`]). The laws that follow for several
//! operations together are in [`laws`]. Two vectors of one type are
//! compared element by element with `==` ([`equality`]) and ordered like
//! words in a dictionary with `<` ([`order`]).

pub mod arithmetic;
pub mod conversions;
pub mod equality;
mod error;
mod indexing;
pub mod laws;
mod mut_vector;
pub mod order;
mod mut_vector_slice;
pub mod slicing;
mod traits;
pub mod transform;
mod vector;
mod vector_slice;

pub use self::error::VectorError;
pub use self::mut_vector::MutVector;
pub use self::mut_vector_slice::MutVectorSlice;
pub use self::traits::{
    Combine, CombineMut, ImmVectorType, MapMut, MapRef, MutVectorType, VectorType,
};
pub use self::vector::Vector;
pub use self::vector_slice::VectorSlice;
