//! Views of a part of a slice.
//!
//! A range selects the elements from its start up to, but not including,
//! its end. A range whose end lies before its start selects nothing, at its
//! start. The selected elements must all exist: a range that reaches past
//! the end of the slice is refused.

use vstd::prelude::*;
use core::ops::Range;
use super::error::VectorError;

verus! {

/// The number of positions that `range` selects.
pub open spec fn span(range: Range<usize>) -> nat {
    if range.start <= range.end {
        (range.end - range.start) as nat
    } else {
        0
    }
}

/// `range` selects only positions of a sequence of `len` elements.
pub open spec fn in_bounds(range: Range<usize>, len: nat) -> bool {
    range.start + span(range) <= len
}

/// The elements of `items` that `range` selects.
pub open spec fn selected<T>(items: Seq<T>, range: Range<usize>) -> Seq<T> {
    items.subrange(range.start as int, range.start + span(range))
}

/// The elements of `items` before those that `range` selects.
pub open spec fn before<T>(items: Seq<T>, range: Range<usize>) -> Seq<T> {
    items.subrange(0, range.start as int)
}

/// The elements of `items` after those that `range` selects.
pub open spec fn after<T>(items: Seq<T>, range: Range<usize>) -> Seq<T> {
    items.subrange(range.start + span(range), items.len() as int)
}

/// The number of positions that `range` selects.
pub fn range_len(range: &Range<usize>) -> (n: usize)
    ensures
        n == span(*range),
{
    if range.start <= range.end {
        range.end - range.start
    } else {
        0
    }
}

/// Whether `range` selects only positions of a sequence of `len` elements.
pub fn range_fits(range: &Range<usize>, len: usize) -> (fits: bool)
    ensures
        fits == in_bounds(*range, len as nat),
{
    range.start <= len && range_len(range) <= len - range.start
}

/// A read-only view of the elements of `items` that `range` selects, made
/// without copying them.
pub fn subslice<'a, T>(items: &'a [T], range: Range<usize>) -> (out: Result<&'a [T], VectorError>)
    ensures
        match out {
            Ok(part) => in_bounds(range, items@.len()) && part@ == selected(items@, range),
            Err(e) => e == VectorError::IndexOutOfRange && !in_bounds(range, items@.len()),
        },
{
    if !range_fits(&range, items.len()) {
        return Err(VectorError::IndexOutOfRange);
    }
    let n: usize = range_len(&range);
    let tail: &[T] = items.split_at(range.start).1;
    let part: &[T] = tail.split_at(n).0;
    assert(part@ == selected(items@, range));
    Ok(part)
}

/// A view for writing of the elements of `items` that `range` selects,
/// made without copying them. The elements outside the range stay as they
/// are.
pub fn subslice_mut<'a, T>(items: &'a mut [T], range: Range<usize>) -> (out: Result<
    &'a mut [T],
    VectorError,
>)
    ensures
        match out {
            Ok(part) => {
                &&& in_bounds(range, old(items)@.len())
                &&& part@ == selected(old(items)@, range)
                &&& final(items)@ == before(old(items)@, range) + final(part)@ + after(
                    old(items)@,
                    range,
                )
            },
            Err(e) => {
                &&& e == VectorError::IndexOutOfRange
                &&& !in_bounds(range, old(items)@.len())
                &&& final(items)@ == old(items)@
            },
        },
{
    if !range_fits(&range, items.len()) {
        return Err(VectorError::IndexOutOfRange);
    }
    let n: usize = range_len(&range);
    let tail: &mut [T] = items.split_at_mut(range.start).1;
    let part: &mut [T] = tail.split_at_mut(n).0;
    Ok(part)
}

} // verus!
