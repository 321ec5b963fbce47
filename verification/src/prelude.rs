pub use crate::vectors::{MutVector, MutVectorSlice, Vector, VectorError, VectorSlice};
