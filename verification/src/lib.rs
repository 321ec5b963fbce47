//! Vectors for linear algebra with explicit control over where results are
//! stored.
//!
//! Four vector types share one model, a sequence of elements, and differ in
//! who owns the storage and in whether an operation may write its result
//! into that storage:
//!
//! | type               | storage  | results                         |
//! |--------------------|----------|---------------------------------|
//! | [`Vector`]         | owned    | always in a new `Vector`        |
//! | [`MutVector`]      | owned    | may be written in place         |
//! | [`VectorSlice`]    | borrowed | always in a new `Vector`        |
//! | [`MutVectorSlice`] | borrowed | may be written in place         |
//!
//! [`Vector`]: crate::vectors::Vector
//! [`MutVector`]: crate::vectors::MutVector
//! [`VectorSlice`]: crate::vectors::VectorSlice
//! [`MutVectorSlice`]: crate::vectors::MutVectorSlice

/// All vector types, their transforms and their arithmetic.
pub mod vectors;
/// The names most programs need.
pub mod prelude;
