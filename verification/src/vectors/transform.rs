//! Elementwise and pairwise transforms over plain slices.
//!
//! Every vector type stores its elements in a slice, so the transforms are
//! written once, here, and the vector types hand them their storage. Each
//! transform makes one pass in ascending index order. What a transform
//! returns is stated through the contract of the function it applies: the
//! element at a position is a value which that function may return for the
//! inputs at that position.

use vstd::prelude::*;
use super::error::VectorError;

verus! {

/// `f` may be called on every element of `src`.
pub open spec fn accepts_each<T, O, F: Fn(&T) -> O>(f: F, src: Seq<T>) -> bool {
    forall|i: int| 0 <= i < src.len() ==> f.requires((&#[trigger] src[i],))
}

/// `f` may be called on every position below `len`.
pub open spec fn accepts_positions<O, F: Fn(usize) -> O>(f: F, len: nat) -> bool {
    forall|i: usize| 0 <= i < len ==> #[trigger] f.requires((i,))
}

/// `f` may be called on every position of `src` together with the element there.
pub open spec fn accepts_enumerated<T, O, F: Fn(usize, &T) -> O>(f: F, src: Seq<T>) -> bool {
    forall|i: usize| 0 <= i < src.len() ==> #[trigger] f.requires((i, &src[i as int]))
}

/// `f` may be called on every pair of elements that share a position in
/// `lhs` and `rhs`.
pub open spec fn accepts_pairs<T, U, O, F: Fn(&T, &U) -> O>(
    f: F,
    lhs: Seq<T>,
    rhs: Seq<U>,
) -> bool {
    forall|i: int|
        #![trigger lhs[i]]
        #![trigger rhs[i]]
        0 <= i < lhs.len() ==> f.requires((&lhs[i], &rhs[i]))
}

/// `f` may be called on every position together with the pair of elements
/// of `lhs` and `rhs` there.
pub open spec fn accepts_enumerated_pairs<T, U, O, F: Fn(usize, &T, &U) -> O>(
    f: F,
    lhs: Seq<T>,
    rhs: Seq<U>,
) -> bool {
    forall|i: usize|
        0 <= i < lhs.len() ==> #[trigger] f.requires((i, &lhs[i as int], &rhs[i as int]))
}

/// `out` is `src` with `f` applied to every element.
pub open spec fn mapped<T, O, F: Fn(&T) -> O>(src: Seq<T>, f: F, out: Seq<O>) -> bool {
    &&& out.len() == src.len()
    &&& forall|i: int| 0 <= i < src.len() ==> f.ensures((&src[i],), #[trigger] out[i])
}

/// `out` has `len` elements, each of them `f` applied to its own position.
pub open spec fn mapped_positions<O, F: Fn(usize) -> O>(len: nat, f: F, out: Seq<O>) -> bool {
    &&& out.len() == len
    &&& forall|i: int| 0 <= i < len ==> f.ensures((i as usize,), #[trigger] out[i])
}

/// `out` is `src` with `f` applied to every position and the element there.
pub open spec fn mapped_enumerated<T, O, F: Fn(usize, &T) -> O>(
    src: Seq<T>,
    f: F,
    out: Seq<O>,
) -> bool {
    &&& out.len() == src.len()
    &&& forall|i: int| 0 <= i < src.len() ==> f.ensures((i as usize, &src[i]), #[trigger] out[i])
}

/// `lhs`, `rhs` and `out` have one length, and `out` holds `f` applied to
/// the elements of `lhs` and `rhs`, pair by pair.
pub open spec fn combined<T, U, O, F: Fn(&T, &U) -> O>(
    lhs: Seq<T>,
    rhs: Seq<U>,
    f: F,
    out: Seq<O>,
) -> bool {
    &&& lhs.len() == rhs.len()
    &&& out.len() == lhs.len()
    &&& forall|i: int| 0 <= i < lhs.len() ==> f.ensures((&lhs[i], &rhs[i]), #[trigger] out[i])
}

/// As [`combined`], with `f` also given the position of each pair.
pub open spec fn combined_enumerated<T, U, O, F: Fn(usize, &T, &U) -> O>(
    lhs: Seq<T>,
    rhs: Seq<U>,
    f: F,
    out: Seq<O>,
) -> bool {
    &&& lhs.len() == rhs.len()
    &&& out.len() == lhs.len()
    &&& forall|i: int|
        0 <= i < lhs.len() ==> f.ensures((i as usize, &lhs[i], &rhs[i]), #[trigger] out[i])
}

/// Applies `f` to every element of `items` and collects the results.
pub fn map_values<T, O, F: Fn(&T) -> O>(items: &[T], f: &F) -> (out: Vec<O>)
    requires
        accepts_each(*f, items@),
    ensures
        mapped(items@, *f, out@),
{
    let n: usize = items.len();
    let mut out: Vec<O> = Vec::with_capacity(n);
    let mut i: usize = 0;
    while i < n
        invariant
            n == items@.len(),
            i <= n,
            accepts_each(*f, items@),
            out@.len() == i,
            forall|k: int| 0 <= k < i ==> f.ensures((&items@[k],), #[trigger] out@[k]),
        decreases n - i,
    {
        out.push(f(&items[i]));
        i += 1;
    }
    out
}

/// Applies `f` to every position of `items`, whatever the elements are.
pub fn map_positions<T, O, F: Fn(usize) -> O>(items: &[T], f: &F) -> (out: Vec<O>)
    requires
        accepts_positions(*f, items@.len()),
    ensures
        mapped_positions(items@.len(), *f, out@),
{
    let n: usize = items.len();
    let mut out: Vec<O> = Vec::with_capacity(n);
    let mut i: usize = 0;
    while i < n
        invariant
            n == items@.len(),
            i <= n,
            accepts_positions(*f, items@.len()),
            out@.len() == i,
            forall|k: int| 0 <= k < i ==> f.ensures((k as usize,), #[trigger] out@[k]),
        decreases n - i,
    {
        out.push(f(i));
        i += 1;
    }
    out
}

/// Applies `f` to every position of `items` and the element there.
pub fn map_enumerated<T, O, F: Fn(usize, &T) -> O>(items: &[T], f: &F) -> (out: Vec<O>)
    requires
        accepts_enumerated(*f, items@),
    ensures
        mapped_enumerated(items@, *f, out@),
{
    let n: usize = items.len();
    let mut out: Vec<O> = Vec::with_capacity(n);
    let mut i: usize = 0;
    while i < n
        invariant
            n == items@.len(),
            i <= n,
            accepts_enumerated(*f, items@),
            out@.len() == i,
            forall|k: int| 0 <= k < i ==> f.ensures((k as usize, &items@[k]), #[trigger] out@[k]),
        decreases n - i,
    {
        out.push(f(i, &items[i]));
        i += 1;
    }
    out
}

/// Applies `f` to the elements of `lhs` and `rhs` pair by pair, or refuses
/// operands of different lengths.
pub fn combine_values<T, U, O, F: Fn(&T, &U) -> O>(lhs: &[T], rhs: &[U], f: &F) -> (out: Result<
    Vec<O>,
    VectorError,
>)
    requires
        lhs@.len() == rhs@.len() ==> accepts_pairs(*f, lhs@, rhs@),
    ensures
        match out {
            Ok(values) => combined(lhs@, rhs@, *f, values@),
            Err(e) => e == VectorError::SizeMismatch && lhs@.len() != rhs@.len(),
        },
{
    let n: usize = lhs.len();
    if n != rhs.len() {
        return Err(VectorError::SizeMismatch);
    }
    let mut out: Vec<O> = Vec::with_capacity(n);
    let mut i: usize = 0;
    while i < n
        invariant
            n == lhs@.len(),
            n == rhs@.len(),
            i <= n,
            accepts_pairs(*f, lhs@, rhs@),
            out@.len() == i,
            forall|k: int| 0 <= k < i ==> f.ensures((&lhs@[k], &rhs@[k]), #[trigger] out@[k]),
        decreases n - i,
    {
        out.push(f(&lhs[i], &rhs[i]));
        i += 1;
    }
    Ok(out)
}

/// As [`combine_values`], with `f` also given the position of each pair.
pub fn combine_enumerated<T, U, O, F: Fn(usize, &T, &U) -> O>(
    lhs: &[T],
    rhs: &[U],
    f: &F,
) -> (out: Result<Vec<O>, VectorError>)
    requires
        lhs@.len() == rhs@.len() ==> accepts_enumerated_pairs(*f, lhs@, rhs@),
    ensures
        match out {
            Ok(values) => combined_enumerated(lhs@, rhs@, *f, values@),
            Err(e) => e == VectorError::SizeMismatch && lhs@.len() != rhs@.len(),
        },
{
    let n: usize = lhs.len();
    if n != rhs.len() {
        return Err(VectorError::SizeMismatch);
    }
    let mut out: Vec<O> = Vec::with_capacity(n);
    let mut i: usize = 0;
    while i < n
        invariant
            n == lhs@.len(),
            n == rhs@.len(),
            i <= n,
            accepts_enumerated_pairs(*f, lhs@, rhs@),
            out@.len() == i,
            forall|k: int|
                0 <= k < i ==> f.ensures((k as usize, &lhs@[k], &rhs@[k]), #[trigger] out@[k]),
        decreases n - i,
    {
        out.push(f(i, &lhs[i], &rhs[i]));
        i += 1;
    }
    Ok(out)
}

/// Overwrites every element of `items` with `f` applied to it.
pub fn map_values_in_place<T, F: Fn(&T) -> T>(items: &mut [T], f: &F)
    requires
        accepts_each(*f, old(items)@),
    ensures
        mapped(old(items)@, *f, final(items)@),
{
    let n: usize = items.len();
    let mut i: usize = 0;
    while i < n
        invariant
            n == old(items)@.len(),
            i <= n,
            accepts_each(*f, old(items)@),
            items@.len() == n,
            forall|k: int| 0 <= k < i ==> f.ensures((&old(items)@[k],), #[trigger] items@[k]),
            forall|k: int| i <= k < n ==> #[trigger] items@[k] == old(items)@[k],
        decreases n - i,
    {
        let value: T = f(&items[i]);
        items[i] = value;
        i += 1;
    }
}

/// Overwrites every element of `items` with `f` applied to its position.
pub fn map_positions_in_place<T, F: Fn(usize) -> T>(items: &mut [T], f: &F)
    requires
        accepts_positions(*f, old(items)@.len()),
    ensures
        mapped_positions(old(items)@.len(), *f, final(items)@),
{
    let n: usize = items.len();
    let mut i: usize = 0;
    while i < n
        invariant
            n == old(items)@.len(),
            i <= n,
            accepts_positions(*f, old(items)@.len()),
            items@.len() == n,
            forall|k: int| 0 <= k < i ==> f.ensures((k as usize,), #[trigger] items@[k]),
        decreases n - i,
    {
        let value: T = f(i);
        items[i] = value;
        i += 1;
    }
}

/// Overwrites every element of `items` with `f` applied to its position and
/// to the element itself.
pub fn map_enumerated_in_place<T, F: Fn(usize, &T) -> T>(items: &mut [T], f: &F)
    requires
        accepts_enumerated(*f, old(items)@),
    ensures
        mapped_enumerated(old(items)@, *f, final(items)@),
{
    let n: usize = items.len();
    let mut i: usize = 0;
    while i < n
        invariant
            n == old(items)@.len(),
            i <= n,
            accepts_enumerated(*f, old(items)@),
            items@.len() == n,
            forall|k: int|
                0 <= k < i ==> f.ensures((k as usize, &old(items)@[k]), #[trigger] items@[k]),
            forall|k: int| i <= k < n ==> #[trigger] items@[k] == old(items)@[k],
        decreases n - i,
    {
        let value: T = f(i, &items[i]);
        items[i] = value;
        i += 1;
    }
}

/// Overwrites every element of `lhs` with `f` applied to it and to the
/// element of `rhs` at the same position. Operands of different lengths are
/// refused before anything is written.
pub fn combine_values_in_place<T, U, F: Fn(&T, &U) -> T>(lhs: &mut [T], rhs: &[U], f: &F) -> (out:
    Result<(), VectorError>)
    requires
        old(lhs)@.len() == rhs@.len() ==> accepts_pairs(*f, old(lhs)@, rhs@),
    ensures
        match out {
            Ok(_) => combined(old(lhs)@, rhs@, *f, final(lhs)@),
            Err(e) => {
                &&& e == VectorError::SizeMismatch
                &&& old(lhs)@.len() != rhs@.len()
                &&& final(lhs)@ == old(lhs)@
            },
        },
{
    let n: usize = lhs.len();
    if n != rhs.len() {
        return Err(VectorError::SizeMismatch);
    }
    let mut i: usize = 0;
    while i < n
        invariant
            n == old(lhs)@.len(),
            n == rhs@.len(),
            i <= n,
            accepts_pairs(*f, old(lhs)@, rhs@),
            lhs@.len() == n,
            forall|k: int|
                0 <= k < i ==> f.ensures((&old(lhs)@[k], &rhs@[k]), #[trigger] lhs@[k]),
            forall|k: int| i <= k < n ==> #[trigger] lhs@[k] == old(lhs)@[k],
        decreases n - i,
    {
        let value: T = f(&lhs[i], &rhs[i]);
        lhs[i] = value;
        i += 1;
    }
    Ok(())
}

/// As [`combine_values_in_place`], with `f` also given the position of each
/// pair.
pub fn combine_enumerated_in_place<T, U, F: Fn(usize, &T, &U) -> T>(
    lhs: &mut [T],
    rhs: &[U],
    f: &F,
) -> (out: Result<(), VectorError>)
    requires
        old(lhs)@.len() == rhs@.len() ==> accepts_enumerated_pairs(*f, old(lhs)@, rhs@),
    ensures
        match out {
            Ok(_) => combined_enumerated(old(lhs)@, rhs@, *f, final(lhs)@),
            Err(e) => {
                &&& e == VectorError::SizeMismatch
                &&& old(lhs)@.len() != rhs@.len()
                &&& final(lhs)@ == old(lhs)@
            },
        },
{
    let n: usize = lhs.len();
    if n != rhs.len() {
        return Err(VectorError::SizeMismatch);
    }
    let mut i: usize = 0;
    while i < n
        invariant
            n == old(lhs)@.len(),
            n == rhs@.len(),
            i <= n,
            accepts_enumerated_pairs(*f, old(lhs)@, rhs@),
            lhs@.len() == n,
            forall|k: int|
                0 <= k < i ==> f.ensures(
                    (k as usize, &old(lhs)@[k], &rhs@[k]),
                    #[trigger] lhs@[k],
                ),
            forall|k: int| i <= k < n ==> #[trigger] lhs@[k] == old(lhs)@[k],
        decreases n - i,
    {
        let value: T = f(i, &lhs[i], &rhs[i]);
        lhs[i] = value;
        i += 1;
    }
    Ok(())
}

} // verus!
