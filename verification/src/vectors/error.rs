use vstd::prelude::*;

verus! {

/// Why an operation on vectors was refused.
#[derive(Clone, Copy, Debug, PartialEq, Eq, Structural)]
pub enum VectorError {
    /// The two operands of a pairwise operation differ in length.
    SizeMismatch,
    /// A position or a range reaches past the end of the vector.
    IndexOutOfRange,
}

} // verus!
