//! Vectors of three scalars: cross and dot product, length and scaling.
//!
//! Two of the operations differ from the textbook on purpose. `cross(a, b)` is
//! the cross product with the operands swapped, `b x a`, and `dot(a, b)` is
//! the negated dot product, `-(b . a)`. The view matrix is built on both.

use crate::scalar::{exact, total, Scalar};
use core::ops::{Add, Div, Mul, Neg, Sub};
use vstd::prelude::*;
use vstd::std_specs::ops::{AddSpec, DivSpec, MulSpec, NegSpec, SubSpec};

verus! {

/// Three scalars: a point or a direction in space.
pub type Position<T> = [T; 3];

/// `p * q - r * s` in the arithmetic of `T`.
pub open spec fn minor<T: Scalar>(p: T, q: T, r: T, s: T) -> T {
    p.mul_spec(q).sub_spec(r.mul_spec(s))
}

/// Each step of `minor(p, q, r, s)` is defined.
pub open spec fn minor_defined<T: Scalar>(p: T, q: T, r: T, s: T) -> bool {
    &&& p.mul_req(q)
    &&& r.mul_req(s)
    &&& p.mul_spec(q).sub_req(r.mul_spec(s))
}

/// The cross product with the operands swapped: `b x a`.
pub open spec fn cross_value<T: Scalar>(a: Seq<T>, b: Seq<T>) -> Seq<T> {
    seq![
        minor(b[1], a[2], b[2], a[1]),
        minor(b[2], a[0], b[0], a[2]),
        minor(b[0], a[1], b[1], a[0]),
    ]
}

/// Each step of `cross_value(a, b)` is defined.
pub open spec fn cross_defined<T: Scalar>(a: Seq<T>, b: Seq<T>) -> bool {
    &&& minor_defined(b[1], a[2], b[2], a[1])
    &&& minor_defined(b[2], a[0], b[0], a[2])
    &&& minor_defined(b[0], a[1], b[1], a[0])
}

/// The negated dot product, `-(b . a)`, summed from the left:
/// `(-b0) * a0 - b1 * a1 - b2 * a2`.
pub open spec fn dot_value<T: Scalar>(a: Seq<T>, b: Seq<T>) -> T {
    b[0].neg_spec().mul_spec(a[0]).sub_spec(b[1].mul_spec(a[1])).sub_spec(b[2].mul_spec(a[2]))
}

/// Each step of `dot_value(a, b)` is defined.
pub open spec fn dot_defined<T: Scalar>(a: Seq<T>, b: Seq<T>) -> bool {
    &&& b[0].neg_req()
    &&& b[0].neg_spec().mul_req(a[0])
    &&& b[1].mul_req(a[1])
    &&& b[2].mul_req(a[2])
    &&& b[0].neg_spec().mul_spec(a[0]).sub_req(b[1].mul_spec(a[1]))
    &&& b[0].neg_spec().mul_spec(a[0]).sub_spec(b[1].mul_spec(a[1])).sub_req(b[2].mul_spec(a[2]))
}

/// The sum of the squares of the three components, summed from the left.
pub open spec fn length_squared_value<T: Scalar>(v: Seq<T>) -> T {
    v[0].mul_spec(v[0]).add_spec(v[1].mul_spec(v[1])).add_spec(v[2].mul_spec(v[2]))
}

/// Each step of `length_squared_value(v)` is defined.
pub open spec fn length_squared_defined<T: Scalar>(v: Seq<T>) -> bool {
    &&& v[0].mul_req(v[0])
    &&& v[1].mul_req(v[1])
    &&& v[2].mul_req(v[2])
    &&& v[0].mul_spec(v[0]).add_req(v[1].mul_spec(v[1]))
    &&& v[0].mul_spec(v[0]).add_spec(v[1].mul_spec(v[1])).add_req(v[2].mul_spec(v[2]))
}

/// Each component of `v` divided by `length`.
pub open spec fn normalize_value<T: Scalar>(v: Seq<T>, length: T) -> Seq<T> {
    seq![v[0].div_spec(length), v[1].div_spec(length), v[2].div_spec(length)]
}

/// Each division of `normalize_value(v, length)` is defined.
pub open spec fn normalize_defined<T: Scalar>(v: Seq<T>, length: T) -> bool {
    &&& v[0].div_req(length)
    &&& v[1].div_req(length)
    &&& v[2].div_req(length)
}

/// The negation of each component of `v`.
pub open spec fn negated_value<T: Scalar>(v: Seq<T>) -> Seq<T> {
    seq![v[0].neg_spec(), v[1].neg_spec(), v[2].neg_spec()]
}

/// Each negation of `negated_value(v)` is defined.
pub open spec fn negated_defined<T: Scalar>(v: Seq<T>) -> bool {
    &&& v[0].neg_req()
    &&& v[1].neg_req()
    &&& v[2].neg_req()
}

/// The cross product of `a` and `b` with the operands swapped: `b x a`.
pub fn cross<T: Scalar>(a: Position<T>, b: Position<T>) -> (c: Position<T>)
    requires
        total::<T>() || (exact::<T>() && cross_defined(a@, b@)),
    ensures
        exact::<T>() ==> c@ == cross_value(a@, b@),
{
    let c = [
        b[1].mul(a[2]).sub(b[2].mul(a[1])),
        b[2].mul(a[0]).sub(b[0].mul(a[2])),
        b[0].mul(a[1]).sub(b[1].mul(a[0])),
    ];
    assert(exact::<T>() ==> c@ =~= cross_value(a@, b@));
    c
}

/// The negated dot product of `a` and `b`: `-(b . a)`.
pub fn dot<T: Scalar>(a: Position<T>, b: Position<T>) -> (d: T)
    requires
        total::<T>() || (exact::<T>() && dot_defined(a@, b@)),
    ensures
        exact::<T>() ==> d == dot_value(a@, b@),
{
    b[0].neg().mul(a[0]).sub(b[1].mul(a[1])).sub(b[2].mul(a[2]))
}

/// The square of the Euclidean length of `v`.
pub fn length_squared<T: Scalar>(v: Position<T>) -> (sum: T)
    requires
        total::<T>() || (exact::<T>() && length_squared_defined(v@)),
    ensures
        exact::<T>() ==> sum == length_squared_value(v@),
{
    v[0].mul(v[0]).add(v[1].mul(v[1])).add(v[2].mul(v[2]))
}

/// `v` divided by `length`. Where `length` is the Euclidean length of `v`,
/// the square root of `length_squared(v)`, this is the vector of length one
/// that points along `v`.
pub fn normalize<T: Scalar>(v: Position<T>, length: T) -> (unit: Position<T>)
    requires
        total::<T>() || (exact::<T>() && normalize_defined(v@, length)),
    ensures
        exact::<T>() ==> unit@ == normalize_value(v@, length),
{
    let unit = [v[0].div(length), v[1].div(length), v[2].div(length)];
    assert(exact::<T>() ==> unit@ =~= normalize_value(v@, length));
    unit
}

/// Over the integers `cross` is the textbook cross product of `b` and `a`.
/// Stated for 64-bit integers, for every pair on which it is defined.
pub proof fn cross_of_integers(a: Seq<i64>, b: Seq<i64>)
    requires
        a.len() == 3,
        b.len() == 3,
        cross_defined(a, b),
    ensures
        cross_value(a, b)[0] == b[1] * a[2] - b[2] * a[1],
        cross_value(a, b)[1] == b[2] * a[0] - b[0] * a[2],
        cross_value(a, b)[2] == b[0] * a[1] - b[1] * a[0],
{
}

/// Over the integers `dot` is the negated textbook dot product. Stated for
/// 64-bit integers, for every pair on which it is defined.
pub proof fn dot_of_integers(a: Seq<i64>, b: Seq<i64>)
    requires
        a.len() == 3,
        b.len() == 3,
        dot_defined(a, b),
    ensures
        dot_value(a, b) == -(b[0] * a[0] + b[1] * a[1] + b[2] * a[2]),
{
    assert((-b[0]) * a[0] == -(b[0] * a[0])) by (nonlinear_arith);
}

/// Swapping the operands of `cross` negates the result. Stated for 64-bit
/// integers, for every pair on which both products are defined.
pub proof fn cross_is_anticommutative(a: Seq<i64>, b: Seq<i64>)
    requires
        a.len() == 3,
        b.len() == 3,
        cross_defined(a, b),
        cross_defined(b, a),
    ensures
        negated_defined(cross_value(b, a)),
        cross_value(a, b) == negated_value(cross_value(b, a)),
{
    minor_is_antisymmetric(b[1], a[2], b[2], a[1]);
    minor_is_antisymmetric(b[2], a[0], b[0], a[2]);
    minor_is_antisymmetric(b[0], a[1], b[1], a[0]);
    assert(cross_value(a, b) =~= negated_value(cross_value(b, a)));
}

/// `p * q - r * s` is the negation of `s * r - q * p`, where both are defined.
proof fn minor_is_antisymmetric(p: i64, q: i64, r: i64, s: i64)
    requires
        minor_defined(p, q, r, s),
        minor_defined(s, r, q, p),
    ensures
        minor(s, r, q, p).neg_req(),
        minor(p, q, r, s) == minor(s, r, q, p).neg_spec(),
{
    assert(p * q == q * p) by (nonlinear_arith);
    assert(r * s == s * r) by (nonlinear_arith);
}

/// Swapping the operands of `dot` leaves the result unchanged. Stated for
/// 64-bit integers, for every pair on which both products are defined.
pub proof fn dot_is_symmetric(a: Seq<i64>, b: Seq<i64>)
    requires
        a.len() == 3,
        b.len() == 3,
        dot_defined(a, b),
        dot_defined(b, a),
    ensures
        dot_value(a, b) == dot_value(b, a),
{
    assert((-b[0]) * a[0] == (-a[0]) * b[0]) by (nonlinear_arith);
    assert(b[1] * a[1] == a[1] * b[1]) by (nonlinear_arith);
    assert(b[2] * a[2] == a[2] * b[2]) by (nonlinear_arith);
}

} // verus!
