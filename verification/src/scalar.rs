//! The numbers that vectors and matrices are made of.
//!
//! Every builder in this crate is generic in its scalar type and uses nothing
//! of it but the five arithmetic operators. A contract can say what comes out
//! only as far as the operators of the type are described, so each one speaks
//! of two kinds of type. On a `total` type a builder may be called with any
//! operands. On an `exact` type it may be called wherever each step of its
//! computation is defined, and its result is then the stated expression.

use core::ops::{Add, Div, Mul, Neg, Sub};
use vstd::prelude::*;
use vstd::std_specs::ops::{AddSpec, DivSpec, MulSpec, NegSpec, SubSpec};

verus! {

/// A copyable type with negation, addition, subtraction, multiplication and
/// division, each giving the type itself. Every such type is a scalar.
pub trait Scalar:
    Copy
    + Neg<Output = Self>
    + Add<Output = Self>
    + Sub<Output = Self>
    + Mul<Output = Self>
    + Div<Output = Self>
{
}

impl<T> Scalar for T where
    T: Copy
        + Neg<Output = T>
        + Add<Output = T>
        + Sub<Output = T>
        + Mul<Output = T>
        + Div<Output = T>,
{
}

/// The operators of `T` are described exactly: the result of each one is the
/// value that `neg_spec`, `add_spec`, `sub_spec`, `mul_spec` or `div_spec`
/// gives for its operands. The signed primitive integers are exact.
pub open spec fn exact<T: Scalar>() -> bool {
    &&& T::obeys_neg_spec()
    &&& T::obeys_add_spec()
    &&& T::obeys_sub_spec()
    &&& T::obeys_mul_spec()
    &&& T::obeys_div_spec()
}

/// The operators of `T` accept every operand: none of them can overflow or
/// fail. The primitive integers are not total: their results must fit, and
/// they do not divide by zero.
pub open spec fn total<T: Scalar>() -> bool {
    &&& forall|x: T| #[trigger] x.neg_req()
    &&& forall|x: T, y: T| #[trigger] x.add_req(y)
    &&& forall|x: T, y: T| #[trigger] x.sub_req(y)
    &&& forall|x: T, y: T| #[trigger] x.mul_req(y)
    &&& forall|x: T, y: T| #[trigger] x.div_req(y)
}

} // verus!
