//! Addition, subtraction and dot product over plain slices.
//!
//! The element type brings its own `+`, `-` and `*`. An element is cloned
//! before it is handed to one of them, so what a result holds is stated for
//! clones: [`is_sum`], [`is_difference`] and [`is_product`] say which values
//! one operation may give, and [`can_add`], [`can_sub`] and [`can_mul`] say
//! when that operation may be performed at all (for the integer types: when
//! it does not overflow).
//!
//! For an element type whose clones equal what they were cloned from and whose
//! operators are the functions `add_spec`, `sub_spec` and `mul_spec`, a
//! result is simply the value of that function; [`elementwise_sum`],
//! [`elementwise_difference`] and [`dot_product`] then give whole results.

use vstd::prelude::*;
use vstd::std_specs::ops::{AddSpec, MulSpec, SubSpec};
use core::ops::{Add, Mul, Sub};
use super::error::VectorError;
use super::transform::{combine_values, combine_values_in_place};

verus! {

/// Every clone of a `T` equals the value it was cloned from.
pub open spec fn clones_equal<T: Clone>() -> bool {
    forall|a: T, b: T| #[trigger] cloned(a, b) ==> a == b
}

/// Clones of `l` and `r` may be added.
pub open spec fn can_add<T: Clone + Add<Output = T>>(l: T, r: T) -> bool {
    forall|a: T, b: T| #![trigger cloned(l, a), cloned(r, b)] cloned(l, a) && cloned(r, b) ==> a.add_req(b)
}

/// `o` is a value that adding a clone of `r` to a clone of `l` may give.
pub open spec fn is_sum<T: Clone + Add<Output = T>>(l: T, r: T, o: T) -> bool {
    exists|a: T, b: T|
        #![trigger cloned(l, a), cloned(r, b)]
        cloned(l, a) && cloned(r, b) && (T::obeys_add_spec() ==> o == a.add_spec(b))
}

/// A clone of `r` may be subtracted from a clone of `l`.
pub open spec fn can_sub<T: Clone + Sub<Output = T>>(l: T, r: T) -> bool {
    forall|a: T, b: T| #![trigger cloned(l, a), cloned(r, b)] cloned(l, a) && cloned(r, b) ==> a.sub_req(b)
}

/// `o` is a value that subtracting a clone of `r` from a clone of `l` may give.
pub open spec fn is_difference<T: Clone + Sub<Output = T>>(l: T, r: T, o: T) -> bool {
    exists|a: T, b: T|
        #![trigger cloned(l, a), cloned(r, b)]
        cloned(l, a) && cloned(r, b) && (T::obeys_sub_spec() ==> o == a.sub_spec(b))
}

/// Clones of `l` and `r` may be multiplied.
pub open spec fn can_mul<T: Clone + Mul<Output = T>>(l: T, r: T) -> bool {
    forall|a: T, b: T| #![trigger cloned(l, a), cloned(r, b)] cloned(l, a) && cloned(r, b) ==> a.mul_req(b)
}

/// `o` is a value that multiplying a clone of `l` by a clone of `r` may give.
pub open spec fn is_product<T: Clone + Mul<Output = T>>(l: T, r: T, o: T) -> bool {
    exists|a: T, b: T|
        #![trigger cloned(l, a), cloned(r, b)]
        cloned(l, a) && cloned(r, b) && (T::obeys_mul_spec() ==> o == a.mul_spec(b))
}

/// The sum of two elements, each cloned first.
pub fn add_items<T: Clone + Add<Output = T>>(l: &T, r: &T) -> (o: T)
    requires
        can_add(*l, *r),
    ensures
        is_sum(*l, *r, o),
{
    let a: T = l.clone();
    let b: T = r.clone();
    assert(cloned(*l, a) && cloned(*r, b));
    a + b
}

/// The difference of two elements, each cloned first.
pub fn sub_items<T: Clone + Sub<Output = T>>(l: &T, r: &T) -> (o: T)
    requires
        can_sub(*l, *r),
    ensures
        is_difference(*l, *r, o),
{
    let a: T = l.clone();
    let b: T = r.clone();
    assert(cloned(*l, a) && cloned(*r, b));
    a - b
}

/// The product of two elements, each cloned first.
pub fn mul_items<T: Clone + Mul<Output = T>>(l: &T, r: &T) -> (o: T)
    requires
        can_mul(*l, *r),
    ensures
        is_product(*l, *r, o),
{
    let a: T = l.clone();
    let b: T = r.clone();
    assert(cloned(*l, a) && cloned(*r, b));
    a * b
}

/// The elements of `lhs` and `rhs` may be added pair by pair.
pub open spec fn can_add_all<T: Clone + Add<Output = T>>(lhs: Seq<T>, rhs: Seq<T>) -> bool {
    forall|i: int|
        #![trigger lhs[i]]
        #![trigger rhs[i]]
        0 <= i < lhs.len() ==> can_add(lhs[i], rhs[i])
}

/// The elements of `rhs` may be subtracted from those of `lhs` pair by pair.
pub open spec fn can_sub_all<T: Clone + Sub<Output = T>>(lhs: Seq<T>, rhs: Seq<T>) -> bool {
    forall|i: int|
        #![trigger lhs[i]]
        #![trigger rhs[i]]
        0 <= i < lhs.len() ==> can_sub(lhs[i], rhs[i])
}

/// `lhs`, `rhs` and `out` have one length, and each element of `out` is a
/// sum of the elements of `lhs` and `rhs` at its position.
pub open spec fn sums<T: Clone + Add<Output = T>>(lhs: Seq<T>, rhs: Seq<T>, out: Seq<T>) -> bool {
    &&& lhs.len() == rhs.len()
    &&& out.len() == lhs.len()
    &&& forall|i: int| 0 <= i < lhs.len() ==> is_sum(lhs[i], rhs[i], #[trigger] out[i])
}

/// `lhs`, `rhs` and `out` have one length, and each element of `out` is a
/// difference of the elements of `lhs` and `rhs` at its position.
pub open spec fn differences<T: Clone + Sub<Output = T>>(
    lhs: Seq<T>,
    rhs: Seq<T>,
    out: Seq<T>,
) -> bool {
    &&& lhs.len() == rhs.len()
    &&& out.len() == lhs.len()
    &&& forall|i: int| 0 <= i < lhs.len() ==> is_difference(lhs[i], rhs[i], #[trigger] out[i])
}

/// Adds two slices element by element into a new buffer.
pub fn add_values<T: Clone + Add<Output = T>>(lhs: &[T], rhs: &[T]) -> (out: Result<
    Vec<T>,
    VectorError,
>)
    requires
        lhs@.len() == rhs@.len() ==> can_add_all(lhs@, rhs@),
    ensures
        match out {
            Ok(values) => sums(lhs@, rhs@, values@),
            Err(e) => e == VectorError::SizeMismatch && lhs@.len() != rhs@.len(),
        },
{
    let plus = |l: &T, r: &T| -> (o: T)
        requires
            can_add(*l, *r),
        ensures
            is_sum(*l, *r, o),
        { add_items(l, r) };
    combine_values(lhs, rhs, &plus)
}

/// Adds `rhs` to `lhs` element by element, storing each sum in `lhs`.
pub fn add_values_into_left<T: Clone + Add<Output = T>>(lhs: &mut [T], rhs: &[T]) -> (out: Result<
    (),
    VectorError,
>)
    requires
        old(lhs)@.len() == rhs@.len() ==> can_add_all(old(lhs)@, rhs@),
    ensures
        match out {
            Ok(_) => sums(old(lhs)@, rhs@, final(lhs)@),
            Err(e) => {
                &&& e == VectorError::SizeMismatch
                &&& old(lhs)@.len() != rhs@.len()
                &&& final(lhs)@ == old(lhs)@
            },
        },
{
    let plus = |l: &T, r: &T| -> (o: T)
        requires
            can_add(*l, *r),
        ensures
            is_sum(*l, *r, o),
        { add_items(l, r) };
    combine_values_in_place(lhs, rhs, &plus)
}

/// Adds `rhs` to `lhs` element by element, storing each sum in `rhs`.
pub fn add_values_into_right<T: Clone + Add<Output = T>>(lhs: &[T], rhs: &mut [T]) -> (out: Result<
    (),
    VectorError,
>)
    requires
        lhs@.len() == old(rhs)@.len() ==> can_add_all(lhs@, old(rhs)@),
    ensures
        match out {
            Ok(_) => sums(lhs@, old(rhs)@, final(rhs)@),
            Err(e) => {
                &&& e == VectorError::SizeMismatch
                &&& lhs@.len() != old(rhs)@.len()
                &&& final(rhs)@ == old(rhs)@
            },
        },
{
    let plus = |r: &T, l: &T| -> (o: T)
        requires
            can_add(*l, *r),
        ensures
            is_sum(*l, *r, o),
        { add_items(l, r) };
    combine_values_in_place(rhs, lhs, &plus)
}

/// Subtracts two slices element by element into a new buffer.
pub fn sub_values<T: Clone + Sub<Output = T>>(lhs: &[T], rhs: &[T]) -> (out: Result<
    Vec<T>,
    VectorError,
>)
    requires
        lhs@.len() == rhs@.len() ==> can_sub_all(lhs@, rhs@),
    ensures
        match out {
            Ok(values) => differences(lhs@, rhs@, values@),
            Err(e) => e == VectorError::SizeMismatch && lhs@.len() != rhs@.len(),
        },
{
    let minus = |l: &T, r: &T| -> (o: T)
        requires
            can_sub(*l, *r),
        ensures
            is_difference(*l, *r, o),
        { sub_items(l, r) };
    combine_values(lhs, rhs, &minus)
}

/// Subtracts `rhs` from `lhs` element by element, storing each difference
/// in `lhs`.
pub fn sub_values_into_left<T: Clone + Sub<Output = T>>(lhs: &mut [T], rhs: &[T]) -> (out: Result<
    (),
    VectorError,
>)
    requires
        old(lhs)@.len() == rhs@.len() ==> can_sub_all(old(lhs)@, rhs@),
    ensures
        match out {
            Ok(_) => differences(old(lhs)@, rhs@, final(lhs)@),
            Err(e) => {
                &&& e == VectorError::SizeMismatch
                &&& old(lhs)@.len() != rhs@.len()
                &&& final(lhs)@ == old(lhs)@
            },
        },
{
    let minus = |l: &T, r: &T| -> (o: T)
        requires
            can_sub(*l, *r),
        ensures
            is_difference(*l, *r, o),
        { sub_items(l, r) };
    combine_values_in_place(lhs, rhs, &minus)
}

/// Subtracts `rhs` from `lhs` element by element, storing each difference
/// in `rhs`.
pub fn sub_values_into_right<T: Clone + Sub<Output = T>>(lhs: &[T], rhs: &mut [T]) -> (out: Result<
    (),
    VectorError,
>)
    requires
        lhs@.len() == old(rhs)@.len() ==> can_sub_all(lhs@, old(rhs)@),
    ensures
        match out {
            Ok(_) => differences(lhs@, old(rhs)@, final(rhs)@),
            Err(e) => {
                &&& e == VectorError::SizeMismatch
                &&& lhs@.len() != old(rhs)@.len()
                &&& final(rhs)@ == old(rhs)@
            },
        },
{
    let minus = |r: &T, l: &T| -> (o: T)
        requires
            can_sub(*l, *r),
        ensures
            is_difference(*l, *r, o),
        { sub_items(l, r) };
    combine_values_in_place(rhs, lhs, &minus)
}

/// `z` is a value that `T::default()` may give.
pub open spec fn is_default<T: Default>(z: T) -> bool {
    call_ensures(T::default, (), z)
}

/// `o` is a value that the dot product of `lhs` and `rhs` may have: starting
/// from `T::default()`, the product of each pair of elements is added to
/// the running total, in index order.
pub open spec fn is_dot<T: Clone + Default + Add<Output = T> + Mul<Output = T>>(
    lhs: Seq<T>,
    rhs: Seq<T>,
    o: T,
) -> bool
    decreases lhs.len(),
{
    if lhs.len() == 0 {
        is_default(o)
    } else {
        exists|total: T, p: T|
            #![trigger total.add_spec(p)]
            is_dot(lhs.drop_last(), rhs.drop_last(), total) && is_product(lhs.last(), rhs.last(), p)
                && (T::obeys_add_spec() ==> o == total.add_spec(p))
    }
}

/// Every step of the dot product of `lhs` and `rhs` may be performed: each
/// pair of elements may be multiplied, and each product may be added to
/// whatever the total is by then.
pub open spec fn can_dot<T: Clone + Default + Add<Output = T> + Mul<Output = T>>(
    lhs: Seq<T>,
    rhs: Seq<T>,
) -> bool {
    forall|k: int|
        #![trigger lhs[k]]
        #![trigger rhs[k]]
        0 <= k < lhs.len() ==> {
            &&& can_mul(lhs[k], rhs[k])
            &&& forall|total: T, p: T|
                #![trigger total.add_req(p)]
                is_dot(lhs.take(k), rhs.take(k), total) && is_product(lhs[k], rhs[k], p)
                    ==> total.add_req(p)
        }
}

/// One more pair of elements: a total of all pairs but the last, with the
/// product of the last pair added, is a total of all pairs.
proof fn lemma_dot_step<T: Clone + Default + Add<Output = T> + Mul<Output = T>>(
    lhs: Seq<T>,
    rhs: Seq<T>,
    before: T,
    p: T,
    total: T,
)
    requires
        lhs.len() > 0,
        is_dot(lhs.drop_last(), rhs.drop_last(), before),
        is_product(lhs.last(), rhs.last(), p),
        T::obeys_add_spec() ==> total == before.add_spec(p),
    ensures
        is_dot(lhs, rhs, total),
{
    // `before` and `p` are the total and the product that `is_dot` asks
    // for; naming their sum lets the solver find them.
    let sum: T = before.add_spec(p);
}

/// The dot product of two slices.
pub fn dot_values<T: Clone + Default + Add<Output = T> + Mul<Output = T>>(
    lhs: &[T],
    rhs: &[T],
) -> (out: Result<T, VectorError>)
    requires
        lhs@.len() == rhs@.len() ==> can_dot(lhs@, rhs@),
    ensures
        match out {
            Ok(value) => lhs@.len() == rhs@.len() && is_dot(lhs@, rhs@, value),
            Err(e) => e == VectorError::SizeMismatch && lhs@.len() != rhs@.len(),
        },
{
    let n: usize = lhs.len();
    if n != rhs.len() {
        return Err(VectorError::SizeMismatch);
    }
    let mut total: T = T::default();
    let mut i: usize = 0;
    assert(lhs@.take(0).len() == 0);
    while i < n
        invariant
            n == lhs@.len(),
            n == rhs@.len(),
            i <= n,
            can_dot(lhs@, rhs@),
            is_dot(lhs@.take(i as int), rhs@.take(i as int), total),
        decreases n - i,
    {
        let p: T = mul_items(&lhs[i], &rhs[i]);
        let ghost before: T = total;
        assert(is_product(lhs@[i as int], rhs@[i as int], p));
        total = total + p;
        proof {
            let l = lhs@.take(i + 1);
            let r = rhs@.take(i + 1);
            assert(l.drop_last() == lhs@.take(i as int));
            assert(r.drop_last() == rhs@.take(i as int));
            lemma_dot_step(l, r, before, p, total);
        }
        i += 1;
    }
    assert(lhs@.take(n as int) == lhs@);
    assert(rhs@.take(n as int) == rhs@);
    Ok(total)
}

/// Adding two elements of type `T` gives exactly `add_spec` of them,
/// clones or not.
pub open spec fn exact_add<T: Clone + Add<Output = T>>() -> bool {
    clones_equal::<T>() && T::obeys_add_spec()
}

/// Subtracting two elements of type `T` gives exactly `sub_spec` of them,
/// clones or not.
pub open spec fn exact_sub<T: Clone + Sub<Output = T>>() -> bool {
    clones_equal::<T>() && T::obeys_sub_spec()
}

/// Multiplying two elements of type `T` gives exactly `mul_spec` of them,
/// clones or not.
pub open spec fn exact_mul<T: Clone + Mul<Output = T>>() -> bool {
    clones_equal::<T>() && T::obeys_mul_spec()
}

/// `zero` is the one value that `T::default()` gives.
pub open spec fn default_is<T: Default>(zero: T) -> bool {
    forall|z: T| #[trigger] is_default(z) ==> z == zero
}

/// The sequence of `lhs[i] + rhs[i]`.
pub open spec fn elementwise_sum<T: Add<Output = T>>(lhs: Seq<T>, rhs: Seq<T>) -> Seq<T> {
    Seq::new(lhs.len(), |i: int| lhs[i].add_spec(rhs[i]))
}

/// The sequence of `lhs[i] - rhs[i]`.
pub open spec fn elementwise_difference<T: Sub<Output = T>>(lhs: Seq<T>, rhs: Seq<T>) -> Seq<T> {
    Seq::new(lhs.len(), |i: int| lhs[i].sub_spec(rhs[i]))
}

/// `zero + lhs[0] * rhs[0] + lhs[1] * rhs[1] + ...`, added up from the
/// left.
pub open spec fn dot_product<T: Add<Output = T> + Mul<Output = T>>(
    zero: T,
    lhs: Seq<T>,
    rhs: Seq<T>,
) -> T
    decreases lhs.len(),
{
    if lhs.len() == 0 {
        zero
    } else {
        dot_product(zero, lhs.drop_last(), rhs.drop_last()).add_spec(
            lhs.last().mul_spec(rhs.last()),
        )
    }
}

/// No step of [`dot_product`] leaves the range in which the element
/// type's `*` and `+` may be used.
pub open spec fn dot_product_defined<T: Add<Output = T> + Mul<Output = T>>(
    zero: T,
    lhs: Seq<T>,
    rhs: Seq<T>,
) -> bool {
    forall|k: int|
        #![trigger lhs[k]]
        #![trigger rhs[k]]
        0 <= k < lhs.len() ==> {
            &&& lhs[k].mul_req(rhs[k])
            &&& dot_product(zero, lhs.take(k), rhs.take(k)).add_req(lhs[k].mul_spec(rhs[k]))
        }
}

/// With exact addition, elements may be added wherever `add_req` allows.
pub proof fn lemma_can_add_all<T: Clone + Add<Output = T>>(lhs: Seq<T>, rhs: Seq<T>)
    requires
        clones_equal::<T>(),
        lhs.len() <= rhs.len(),
        forall|i: int| 0 <= i < lhs.len() ==> (#[trigger] lhs[i]).add_req(rhs[i]),
    ensures
        can_add_all(lhs, rhs),
{
}

/// With exact subtraction, elements may be subtracted wherever `sub_req`
/// allows.
pub proof fn lemma_can_sub_all<T: Clone + Sub<Output = T>>(lhs: Seq<T>, rhs: Seq<T>)
    requires
        clones_equal::<T>(),
        lhs.len() <= rhs.len(),
        forall|i: int| 0 <= i < lhs.len() ==> (#[trigger] lhs[i]).sub_req(rhs[i]),
    ensures
        can_sub_all(lhs, rhs),
{
}

/// With exact addition, the sum of two vectors is their elementwise sum.
pub proof fn lemma_sums_exact<T: Clone + Add<Output = T>>(lhs: Seq<T>, rhs: Seq<T>, out: Seq<T>)
    requires
        exact_add::<T>(),
        sums(lhs, rhs, out),
    ensures
        out == elementwise_sum(lhs, rhs),
{
    assert forall|i: int| 0 <= i < out.len() implies out[i] == lhs[i].add_spec(rhs[i]) by {
        assert(is_sum(lhs[i], rhs[i], out[i]));
    }
    assert(out =~= elementwise_sum(lhs, rhs));
}

/// With exact subtraction, the difference of two vectors is their
/// elementwise difference.
pub proof fn lemma_differences_exact<T: Clone + Sub<Output = T>>(
    lhs: Seq<T>,
    rhs: Seq<T>,
    out: Seq<T>,
)
    requires
        exact_sub::<T>(),
        differences(lhs, rhs, out),
    ensures
        out == elementwise_difference(lhs, rhs),
{
    assert forall|i: int| 0 <= i < out.len() implies out[i] == lhs[i].sub_spec(rhs[i]) by {
        assert(is_difference(lhs[i], rhs[i], out[i]));
    }
    assert(out =~= elementwise_difference(lhs, rhs));
}

/// With exact addition and multiplication and a single default value, the
/// dot product of two vectors is [`dot_product`] from that value.
pub proof fn lemma_dot_exact<T: Clone + Default + Add<Output = T> + Mul<Output = T>>(
    zero: T,
    lhs: Seq<T>,
    rhs: Seq<T>,
    o: T,
)
    requires
        exact_add::<T>(),
        exact_mul::<T>(),
        default_is(zero),
        lhs.len() == rhs.len(),
        is_dot(lhs, rhs, o),
    ensures
        o == dot_product(zero, lhs, rhs),
    decreases lhs.len(),
{
    if lhs.len() > 0 {
        let (total, p) = choose|total: T, p: T|
            #![trigger total.add_spec(p)]
            is_dot(lhs.drop_last(), rhs.drop_last(), total) && is_product(lhs.last(), rhs.last(), p)
                && (T::obeys_add_spec() ==> o == total.add_spec(p));
        lemma_dot_exact(zero, lhs.drop_last(), rhs.drop_last(), total);
    }
}

/// With exact addition and multiplication and a single default value, the
/// dot product may be taken wherever [`dot_product`] is defined.
pub proof fn lemma_can_dot<T: Clone + Default + Add<Output = T> + Mul<Output = T>>(
    zero: T,
    lhs: Seq<T>,
    rhs: Seq<T>,
)
    requires
        exact_add::<T>(),
        exact_mul::<T>(),
        default_is(zero),
        lhs.len() == rhs.len(),
        dot_product_defined(zero, lhs, rhs),
    ensures
        can_dot(lhs, rhs),
{
    assert forall|k: int| 0 <= k < lhs.len() implies {
        &&& can_mul(#[trigger] lhs[k], rhs[k])
        &&& forall|total: T, p: T|
            #![trigger total.add_req(p)]
            is_dot(lhs.take(k), rhs.take(k), total) && is_product(lhs[k], rhs[k], p)
                ==> total.add_req(p)
    } by {
        assert(lhs[k].mul_req(rhs[k]));
        assert forall|total: T, p: T|
            is_dot(lhs.take(k), rhs.take(k), total) && is_product(
                lhs[k],
                rhs[k],
                p,
            ) implies #[trigger] total.add_req(p) by {
            lemma_dot_exact(zero, lhs.take(k), rhs.take(k), total);
        }
    }
}

} // verus!
