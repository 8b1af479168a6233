//! The rounding operations of single-precision arithmetic.
//!
//! The library decides everything it can on the bits of a number. What has to
//! round a result is asked of an `Arith`, which the caller supplies. Nothing is
//! assumed of an implementation: every contract in this crate holds whatever
//! the operations return. Where an implementation answers the same question
//! the same way each time (`fixed`), the contracts name the results exactly.

use vstd::prelude::*;
use crate::scalar::Scalar;

verus! {

pub trait Arith {
    /// `a + b`
    fn sum(&self, a: Scalar, b: Scalar) -> Scalar;

    /// `a - b`
    fn difference(&self, a: Scalar, b: Scalar) -> Scalar;

    /// `a * b`
    fn product(&self, a: Scalar, b: Scalar) -> Scalar;

    /// `a / b`
    fn quotient(&self, a: Scalar, b: Scalar) -> Scalar;

    /// The remainder of `a / b`, with the sign of `a`.
    fn remainder(&self, a: Scalar, b: Scalar) -> Scalar;

    /// The square root of `a`.
    fn square_root(&self, a: Scalar) -> Scalar;

    /// `a` raised to the power `b`.
    fn power(&self, a: Scalar, b: Scalar) -> Scalar;

    /// The sine of `a` radians.
    fn sine(&self, a: Scalar) -> Scalar;

    /// The cosine of `a` radians.
    fn cosine(&self, a: Scalar) -> Scalar;

    /// The tangent of `a` radians.
    fn tangent(&self, a: Scalar) -> Scalar;

    /// The angle whose sine is `a`.
    fn arc_sine(&self, a: Scalar) -> Scalar;

    /// The angle of the point `(x, y)` against the positive x axis.
    fn arc_tangent2(&self, y: Scalar, x: Scalar) -> Scalar;

    /// The number nearest to the integer `n`.
    fn from_count(&self, n: u32) -> Scalar;
}

/// What `sum` gives for `a` and `b`.
pub open spec fn sum_of<A: Arith>(ops: &A, a: Scalar, b: Scalar) -> Scalar {
    choose|r: Scalar| call_ensures(A::sum, (ops, a, b), r)
}

/// What `difference` gives for `a` and `b`.
pub open spec fn difference_of<A: Arith>(ops: &A, a: Scalar, b: Scalar) -> Scalar {
    choose|r: Scalar| call_ensures(A::difference, (ops, a, b), r)
}

/// What `product` gives for `a` and `b`.
pub open spec fn product_of<A: Arith>(ops: &A, a: Scalar, b: Scalar) -> Scalar {
    choose|r: Scalar| call_ensures(A::product, (ops, a, b), r)
}

/// What `quotient` gives for `a` and `b`.
pub open spec fn quotient_of<A: Arith>(ops: &A, a: Scalar, b: Scalar) -> Scalar {
    choose|r: Scalar| call_ensures(A::quotient, (ops, a, b), r)
}

/// What `remainder` gives for `a` and `b`.
pub open spec fn remainder_of<A: Arith>(ops: &A, a: Scalar, b: Scalar) -> Scalar {
    choose|r: Scalar| call_ensures(A::remainder, (ops, a, b), r)
}

/// What `power` gives for `a` and `b`.
pub open spec fn power_of<A: Arith>(ops: &A, a: Scalar, b: Scalar) -> Scalar {
    choose|r: Scalar| call_ensures(A::power, (ops, a, b), r)
}

/// What `square_root` gives for `a`.
pub open spec fn square_root_of<A: Arith>(ops: &A, a: Scalar) -> Scalar {
    choose|r: Scalar| call_ensures(A::square_root, (ops, a), r)
}

/// What `sine` gives for `a`.
pub open spec fn sine_of<A: Arith>(ops: &A, a: Scalar) -> Scalar {
    choose|r: Scalar| call_ensures(A::sine, (ops, a), r)
}

/// What `cosine` gives for `a`.
pub open spec fn cosine_of<A: Arith>(ops: &A, a: Scalar) -> Scalar {
    choose|r: Scalar| call_ensures(A::cosine, (ops, a), r)
}

/// What `tangent` gives for `a`.
pub open spec fn tangent_of<A: Arith>(ops: &A, a: Scalar) -> Scalar {
    choose|r: Scalar| call_ensures(A::tangent, (ops, a), r)
}

/// What `arc_sine` gives for `a`.
pub open spec fn arc_sine_of<A: Arith>(ops: &A, a: Scalar) -> Scalar {
    choose|r: Scalar| call_ensures(A::arc_sine, (ops, a), r)
}

/// What `arc_tangent2` gives for `y` and `x`.
pub open spec fn arc_tangent2_of<A: Arith>(ops: &A, y: Scalar, x: Scalar) -> Scalar {
    choose|r: Scalar| call_ensures(A::arc_tangent2, (ops, y, x), r)
}

/// What `from_count` gives for `n`.
pub open spec fn from_count_of<A: Arith>(ops: &A, n: u32) -> Scalar {
    choose|r: Scalar| call_ensures(A::from_count, (ops, n), r)
}

/// The arithmetic is a function: each operation gives one result for
/// given arguments, whenever it is asked. Where this holds, what the library
/// computes is named exactly, over the `.._of` functions above.
pub open spec fn fixed<A: Arith>(ops: &A) -> bool {
    &&& forall|a: Scalar, b: Scalar, r: Scalar| #[trigger]
        call_ensures(A::sum, (ops, a, b), r) ==> r == sum_of(ops, a, b)
    &&& forall|a: Scalar, b: Scalar, r: Scalar| #[trigger]
        call_ensures(A::difference, (ops, a, b), r) ==> r == difference_of(ops, a, b)
    &&& forall|a: Scalar, b: Scalar, r: Scalar| #[trigger]
        call_ensures(A::product, (ops, a, b), r) ==> r == product_of(ops, a, b)
    &&& forall|a: Scalar, b: Scalar, r: Scalar| #[trigger]
        call_ensures(A::quotient, (ops, a, b), r) ==> r == quotient_of(ops, a, b)
    &&& forall|a: Scalar, b: Scalar, r: Scalar| #[trigger]
        call_ensures(A::remainder, (ops, a, b), r) ==> r == remainder_of(ops, a, b)
    &&& forall|a: Scalar, b: Scalar, r: Scalar| #[trigger]
        call_ensures(A::power, (ops, a, b), r) ==> r == power_of(ops, a, b)
    &&& forall|a: Scalar, r: Scalar| #[trigger]
        call_ensures(A::square_root, (ops, a), r) ==> r == square_root_of(ops, a)
    &&& forall|a: Scalar, r: Scalar| #[trigger]
        call_ensures(A::sine, (ops, a), r) ==> r == sine_of(ops, a)
    &&& forall|a: Scalar, r: Scalar| #[trigger]
        call_ensures(A::cosine, (ops, a), r) ==> r == cosine_of(ops, a)
    &&& forall|a: Scalar, r: Scalar| #[trigger]
        call_ensures(A::tangent, (ops, a), r) ==> r == tangent_of(ops, a)
    &&& forall|a: Scalar, r: Scalar| #[trigger]
        call_ensures(A::arc_sine, (ops, a), r) ==> r == arc_sine_of(ops, a)
    &&& forall|y: Scalar, x: Scalar, r: Scalar| #[trigger]
        call_ensures(A::arc_tangent2, (ops, y, x), r) ==> r == arc_tangent2_of(ops, y, x)
    &&& forall|n: u32, r: Scalar| #[trigger]
        call_ensures(A::from_count, (ops, n), r) ==> r == from_count_of(ops, n)
}

} // verus!
