//! Laws that relate the results of several operations.
//!
//! The laws of arithmetic are inherited from the element type: where its
//! `+` is commutative, so is the addition of vectors, and so on. Each law
//! therefore names what it needs of the element type; `i32`, `i64` and
//! `u64` are shown to provide it, and the other integer types do so in the
//! same way. Every law speaks of results as the operations' own contracts
//! describe them, so it applies to whatever those operations have
//! returned.

use vstd::prelude::*;
use vstd::std_specs::ops::{AddSpec, MulSpec, SubSpec};
use core::ops::{Add, Mul, Sub};
use super::arithmetic::{
    can_add, can_add_all, can_sub, can_sub_all, default_is, differences, exact_add, exact_mul,
    exact_sub, is_difference, is_dot, is_sum, lemma_differences_exact, lemma_dot_exact,
    lemma_sums_exact, sums,
};
use super::transform::mapped;

verus! {

/// The element type's `+` does not depend on the order of its operands.
pub open spec fn add_commutes<T: Add<Output = T>>() -> bool {
    forall|x: T, y: T| #[trigger] x.add_spec(y) == y.add_spec(x)
}

/// The element type's `*` does not depend on the order of its operands.
pub open spec fn mul_commutes<T: Mul<Output = T>>() -> bool {
    forall|x: T, y: T| #[trigger] x.mul_spec(y) == y.mul_spec(x)
}

/// The element type's `+` does not depend on how three operands are
/// grouped, as long as every addition involved may be performed.
pub open spec fn add_associates<T: Add<Output = T>>() -> bool {
    forall|x: T, y: T, z: T|
        #![trigger x.add_spec(y).add_spec(z)]
        #![trigger x.add_spec(y.add_spec(z))]
        x.add_req(y) && x.add_spec(y).add_req(z) && y.add_req(z) && x.add_req(y.add_spec(z))
            ==> x.add_spec(y).add_spec(z) == x.add_spec(y.add_spec(z))
}

/// In the element type, adding `y` to `x - y` gives `x` back, as long as
/// both steps may be performed.
pub open spec fn add_undoes_sub<T: Add<Output = T> + Sub<Output = T>>() -> bool {
    forall|x: T, y: T|
        #![trigger x.sub_spec(y)]
        x.sub_req(y) && x.sub_spec(y).add_req(y) ==> x.sub_spec(y).add_spec(y) == x
}

/// `f`, `g` and `h` are such that `h(x)` is `g(f(x))`: `h` may return what
/// `g` returns for a result of `f`, and nothing else.
pub open spec fn composes<T, U, O, F: Fn(&T) -> U, G: Fn(&U) -> O, H: Fn(&T) -> O>(
    f: F,
    g: G,
    h: H,
) -> bool {
    &&& forall|x: T, y: U, z: O|
        #![trigger f.ensures((&x,), y), g.ensures((&y,), z)]
        f.ensures((&x,), y) && g.ensures((&y,), z) ==> h.ensures((&x,), z)
    &&& forall|x: T, z1: O, z2: O|
        #![trigger h.ensures((&x,), z1), h.ensures((&x,), z2)]
        h.ensures((&x,), z1) && h.ensures((&x,), z2) ==> z1 == z2
}

/// With exact addition, a sum of `l` and `r` is `l.add_spec(r)`.
proof fn lemma_sum_value<T: Clone + Add<Output = T>>(l: T, r: T, o: T)
    requires
        exact_add::<T>(),
        is_sum(l, r, o),
    ensures
        o == l.add_spec(r),
{
}

/// With exact subtraction, a difference of `l` and `r` is `l.sub_spec(r)`.
proof fn lemma_difference_value<T: Clone + Sub<Output = T>>(l: T, r: T, o: T)
    requires
        exact_sub::<T>(),
        is_difference(l, r, o),
    ensures
        o == l.sub_spec(r),
{
}

/// What may be added as clones may be added as it is.
proof fn lemma_add_allowed<T: Clone + Add<Output = T>>(l: T, r: T)
    requires
        can_add(l, r),
    ensures
        l.add_req(r),
{
    assert(cloned(l, l) && cloned(r, r));
}

/// What may be subtracted as clones may be subtracted as it is.
proof fn lemma_sub_allowed<T: Clone + Sub<Output = T>>(l: T, r: T)
    requires
        can_sub(l, r),
    ensures
        l.sub_req(r),
{
    assert(cloned(l, l) && cloned(r, r));
}

/// Addition is commutative: `a + b` and `b + a` are the same vector.
pub proof fn law_add_commutative<T: Clone + Add<Output = T>>(
    a: Seq<T>,
    b: Seq<T>,
    ab: Seq<T>,
    ba: Seq<T>,
)
    requires
        exact_add::<T>(),
        add_commutes::<T>(),
        sums(a, b, ab),
        sums(b, a, ba),
    ensures
        ab == ba,
{
    assert forall|i: int| 0 <= i < ab.len() implies ab[i] == ba[i] by {
        lemma_sum_value(a[i], b[i], ab[i]);
        lemma_sum_value(b[i], a[i], ba[i]);
    }
    assert(ab =~= ba);
}

/// Addition is associative: `(a + b) + c` and `a + (b + c)` are the same
/// vector, for operands on which all four additions may be performed.
pub proof fn law_add_associative<T: Clone + Add<Output = T>>(
    a: Seq<T>,
    b: Seq<T>,
    c: Seq<T>,
    ab: Seq<T>,
    ab_c: Seq<T>,
    bc: Seq<T>,
    a_bc: Seq<T>,
)
    requires
        exact_add::<T>(),
        add_associates::<T>(),
        can_add_all(a, b),
        sums(a, b, ab),
        can_add_all(ab, c),
        sums(ab, c, ab_c),
        can_add_all(b, c),
        sums(b, c, bc),
        can_add_all(a, bc),
        sums(a, bc, a_bc),
    ensures
        ab_c == a_bc,
{
    assert forall|i: int| 0 <= i < ab_c.len() implies ab_c[i] == a_bc[i] by {
        lemma_sum_value(a[i], b[i], ab[i]);
        lemma_sum_value(ab[i], c[i], ab_c[i]);
        lemma_sum_value(b[i], c[i], bc[i]);
        lemma_sum_value(a[i], bc[i], a_bc[i]);
        lemma_add_allowed(a[i], b[i]);
        lemma_add_allowed(ab[i], c[i]);
        lemma_add_allowed(b[i], c[i]);
        lemma_add_allowed(a[i], bc[i]);
    }
    assert(ab_c =~= a_bc);
}

/// Subtracting `b` from `a` and then adding `b` to the difference restores
/// `a`, for operands on which both steps may be performed.
pub proof fn law_add_restores_sub<T: Clone + Add<Output = T> + Sub<Output = T>>(
    a: Seq<T>,
    b: Seq<T>,
    difference: Seq<T>,
    restored: Seq<T>,
)
    requires
        exact_add::<T>(),
        exact_sub::<T>(),
        add_undoes_sub::<T>(),
        can_sub_all(a, b),
        differences(a, b, difference),
        can_add_all(difference, b),
        sums(difference, b, restored),
    ensures
        restored == a,
{
    assert forall|i: int| 0 <= i < a.len() implies restored[i] == a[i] by {
        lemma_difference_value(a[i], b[i], difference[i]);
        lemma_sum_value(difference[i], b[i], restored[i]);
        lemma_sub_allowed(a[i], b[i]);
        lemma_add_allowed(difference[i], b[i]);
    }
    assert(restored =~= a);
}

/// Where a sum is stored does not change what it is: whichever operand's
/// storage has received it, or a new vector, the elements are the same.
pub proof fn law_sum_independent_of_storage<T: Clone + Add<Output = T>>(
    a: Seq<T>,
    b: Seq<T>,
    stored_here: Seq<T>,
    stored_there: Seq<T>,
)
    requires
        exact_add::<T>(),
        sums(a, b, stored_here),
        sums(a, b, stored_there),
    ensures
        stored_here == stored_there,
{
    lemma_sums_exact(a, b, stored_here);
    lemma_sums_exact(a, b, stored_there);
}

/// Where a difference is stored does not change what it is.
pub proof fn law_difference_independent_of_storage<T: Clone + Sub<Output = T>>(
    a: Seq<T>,
    b: Seq<T>,
    stored_here: Seq<T>,
    stored_there: Seq<T>,
)
    requires
        exact_sub::<T>(),
        differences(a, b, stored_here),
        differences(a, b, stored_there),
    ensures
        stored_here == stored_there,
{
    lemma_differences_exact(a, b, stored_here);
    lemma_differences_exact(a, b, stored_there);
}

/// The dot product is symmetric: `a . b` and `b . a` are the same value.
pub proof fn law_dot_symmetric<T: Clone + Default + Add<Output = T> + Mul<Output = T>>(
    zero: T,
    a: Seq<T>,
    b: Seq<T>,
    ab: T,
    ba: T,
)
    requires
        exact_add::<T>(),
        exact_mul::<T>(),
        mul_commutes::<T>(),
        default_is(zero),
        a.len() == b.len(),
        is_dot(a, b, ab),
        is_dot(b, a, ba),
    ensures
        ab == ba,
{
    lemma_dot_exact(zero, a, b, ab);
    lemma_dot_exact(zero, b, a, ba);
    lemma_dot_product_symmetric(zero, a, b);
}

/// With a commutative `*`, [`dot_product`](super::arithmetic::dot_product)
/// does not depend on the order of its operands.
proof fn lemma_dot_product_symmetric<T: Add<Output = T> + Mul<Output = T>>(
    zero: T,
    a: Seq<T>,
    b: Seq<T>,
)
    requires
        mul_commutes::<T>(),
        a.len() == b.len(),
    ensures
        super::arithmetic::dot_product(zero, a, b) == super::arithmetic::dot_product(zero, b, a),
    decreases a.len(),
{
    if a.len() > 0 {
        lemma_dot_product_symmetric(zero, a.drop_last(), b.drop_last());
    }
}

/// Mapping with `f` and then with `g` gives the same vector as mapping
/// once with a function `h` that does both.
pub proof fn law_map_composes<T, U, O, F: Fn(&T) -> U, G: Fn(&U) -> O, H: Fn(&T) -> O>(
    src: Seq<T>,
    f: F,
    g: G,
    h: H,
    by_f: Seq<U>,
    by_f_then_g: Seq<O>,
    by_h: Seq<O>,
)
    requires
        composes(f, g, h),
        mapped(src, f, by_f),
        mapped(by_f, g, by_f_then_g),
        mapped(src, h, by_h),
    ensures
        by_f_then_g == by_h,
{
    assert forall|i: int| 0 <= i < src.len() implies by_f_then_g[i] == by_h[i] by {
        assert(f.ensures((&src[i],), by_f[i]));
        assert(g.ensures((&by_f[i],), by_f_then_g[i]));
        assert(h.ensures((&src[i],), by_h[i]));
        assert(h.ensures((&src[i],), by_f_then_g[i]));
    }
    assert(by_f_then_g =~= by_h);
}

/// `i32` provides what the laws of arithmetic need.
pub proof fn lemma_i32_arithmetic()
    ensures
        exact_add::<i32>(),
        exact_sub::<i32>(),
        exact_mul::<i32>(),
        default_is(0i32),
        add_commutes::<i32>(),
        mul_commutes::<i32>(),
        add_associates::<i32>(),
        add_undoes_sub::<i32>(),
{
    assert forall|x: i32, y: i32| #[trigger] x.mul_spec(y) == y.mul_spec(x) by {
        assert(x * y == y * x) by (nonlinear_arith);
    }
}

/// `i64` provides what the laws of arithmetic need.
pub proof fn lemma_i64_arithmetic()
    ensures
        exact_add::<i64>(),
        exact_sub::<i64>(),
        exact_mul::<i64>(),
        default_is(0i64),
        add_commutes::<i64>(),
        mul_commutes::<i64>(),
        add_associates::<i64>(),
        add_undoes_sub::<i64>(),
{
    assert forall|x: i64, y: i64| #[trigger] x.mul_spec(y) == y.mul_spec(x) by {
        assert(x * y == y * x) by (nonlinear_arith);
    }
}

/// `u64` provides what the laws of arithmetic need.
pub proof fn lemma_u64_arithmetic()
    ensures
        exact_add::<u64>(),
        exact_sub::<u64>(),
        exact_mul::<u64>(),
        default_is(0u64),
        add_commutes::<u64>(),
        mul_commutes::<u64>(),
        add_associates::<u64>(),
        add_undoes_sub::<u64>(),
{
    assert forall|x: u64, y: u64| #[trigger] x.mul_spec(y) == y.mul_spec(x) by {
        assert(x * y == y * x) by (nonlinear_arith);
    }
}

} // verus!
