//! The three 4x4 matrices that place the cube on screen: model, view and
//! projection.
//!
//! A matrix is an array of four rows. Entries that a builder only moves into
//! place are as stated for every scalar type; entries that it computes are as
//! stated for every exact one.

use crate::scalar::{exact, total, Scalar};
use crate::vector::{
    cross, cross_defined, cross_value, dot, dot_defined, dot_value, normalize, normalize_defined,
    normalize_value, Position,
};
use core::ops::{Add, Div, Mul, Neg, Sub};
use vstd::prelude::*;
use vstd::std_specs::ops::{AddSpec, DivSpec, MulSpec, NegSpec, SubSpec};

verus! {

/// Four rows of four scalars.
pub type Matrix<T> = [[T; 4]; 4];

/// Entry `(row, col)` of the matrix that scales uniformly by `scale` and then
/// shifts by `(dx, dy, dz)`: `scale` on the first three diagonal places, `one`
/// on the last, the shift in the first three places of the last row, `zero`
/// elsewhere.
pub open spec fn model_entry<T>(
    scale: T,
    dx: T,
    dy: T,
    dz: T,
    zero: T,
    one: T,
    row: int,
    col: int,
) -> T {
    if row == 3 {
        if col == 0 {
            dx
        } else if col == 1 {
            dy
        } else if col == 2 {
            dz
        } else {
            one
        }
    } else if row == col {
        scale
    } else {
        zero
    }
}

/// Entry `(row, col)` of the identity matrix: `one` on the diagonal, `zero`
/// elsewhere.
pub open spec fn identity_entry<T>(zero: T, one: T, row: int, col: int) -> T {
    if row == col {
        one
    } else {
        zero
    }
}

/// The forward axis of a camera that looks along `target`: `target` scaled by
/// its length, `target_length`. The place of the camera plays no part in it.
pub open spec fn look_forward<T: Scalar>(target: Seq<T>, target_length: T) -> Seq<T> {
    normalize_value(target, target_length)
}

/// The unscaled right axis: `cross` of the forward axis and `up`.
pub open spec fn look_side_value<T: Scalar>(
    target: Seq<T>,
    up: Seq<T>,
    target_length: T,
) -> Seq<T> {
    cross_value(look_forward(target, target_length), up)
}

/// The right axis: the unscaled right axis scaled by its length,
/// `side_length`.
pub open spec fn look_right<T: Scalar>(
    target: Seq<T>,
    up: Seq<T>,
    target_length: T,
    side_length: T,
) -> Seq<T> {
    normalize_value(look_side_value(target, up, target_length), side_length)
}

/// Axis `col` of the camera: the right axis, the up axis, which is `cross` of
/// the right and the forward axis, and the forward axis.
pub open spec fn look_axis<T: Scalar>(
    target: Seq<T>,
    up: Seq<T>,
    target_length: T,
    side_length: T,
    col: int,
) -> Seq<T> {
    if col == 0 {
        look_right(target, up, target_length, side_length)
    } else if col == 1 {
        cross_value(
            look_right(target, up, target_length, side_length),
            look_forward(target, target_length),
        )
    } else {
        look_forward(target, target_length)
    }
}

/// Entry `(row, col)` of the view matrix of the camera at `eye`. The three
/// axes are the first three columns; the last row holds `dot` of each axis
/// with `eye`; the last column is `(zero, zero, zero, one)`.
pub open spec fn look_entry<T: Scalar>(
    eye: Seq<T>,
    target: Seq<T>,
    up: Seq<T>,
    target_length: T,
    side_length: T,
    zero: T,
    one: T,
    row: int,
    col: int,
) -> T {
    if col == 3 {
        if row == 3 {
            one
        } else {
            zero
        }
    } else if row == 3 {
        dot_value(look_axis(target, up, target_length, side_length, col), eye)
    } else {
        look_axis(target, up, target_length, side_length, col)[row]
    }
}

/// Each step of the unscaled right axis is defined.
pub open spec fn look_side_defined<T: Scalar>(
    target: Seq<T>,
    up: Seq<T>,
    target_length: T,
) -> bool {
    &&& normalize_defined(target, target_length)
    &&& cross_defined(look_forward(target, target_length), up)
}

/// Each step of the view matrix is defined.
pub open spec fn look_defined<T: Scalar>(
    eye: Seq<T>,
    target: Seq<T>,
    up: Seq<T>,
    target_length: T,
    side_length: T,
) -> bool {
    &&& look_side_defined(target, up, target_length)
    &&& normalize_defined(look_side_value(target, up, target_length), side_length)
    &&& cross_defined(
        look_axis(target, up, target_length, side_length, 0),
        look_axis(target, up, target_length, side_length, 2),
    )
    &&& dot_defined(look_axis(target, up, target_length, side_length, 0), eye)
    &&& dot_defined(look_axis(target, up, target_length, side_length, 1), eye)
    &&& dot_defined(look_axis(target, up, target_length, side_length, 2), eye)
}

/// The aspect ratio of a viewport: its height divided by its width.
pub open spec fn aspect_value<T: Scalar>(width: T, height: T) -> T {
    height.div_spec(width)
}

/// The focal scale of a field of view: `one` divided by the tangent of half
/// its angle.
pub open spec fn focal_value<T: Scalar>(half_angle_tangent: T, one: T) -> T {
    one.div_spec(half_angle_tangent)
}

/// The depth scale of the frustum between `near` and `far`:
/// `(far + near) / (far - near)`.
pub open spec fn depth_scale_value<T: Scalar>(near: T, far: T) -> T {
    far.add_spec(near).div_spec(far.sub_spec(near))
}

/// The depth shift of the frustum between `near` and `far`:
/// `-(2 * far * near) / (far - near)`, with `one + one` for 2.
pub open spec fn depth_shift_value<T: Scalar>(near: T, far: T, one: T) -> T {
    one.add_spec(one).mul_spec(far).mul_spec(near).neg_spec().div_spec(far.sub_spec(near))
}

/// Entry `(row, col)` of the perspective matrix: the focal scale times the
/// aspect ratio at `(0, 0)`, the focal scale at `(1, 1)`, the depth scale at
/// `(2, 2)`, `one` at `(2, 3)`, the depth shift at `(3, 2)`, `zero` elsewhere.
pub open spec fn projection_entry<T: Scalar>(
    width: T,
    height: T,
    half_angle_tangent: T,
    near: T,
    far: T,
    zero: T,
    one: T,
    row: int,
    col: int,
) -> T {
    if row == 0 && col == 0 {
        focal_value(half_angle_tangent, one).mul_spec(aspect_value(width, height))
    } else if row == 1 && col == 1 {
        focal_value(half_angle_tangent, one)
    } else if row == 2 && col == 2 {
        depth_scale_value(near, far)
    } else if row == 2 && col == 3 {
        one
    } else if row == 3 && col == 2 {
        depth_shift_value(near, far, one)
    } else {
        zero
    }
}

/// The entries of the perspective matrix that are moved into place, not
/// computed.
pub open spec fn projection_entry_is_moved(row: int, col: int) -> bool {
    !(row == col && row < 3) && !(row == 3 && col == 2)
}

/// Each step of the perspective matrix is defined.
pub open spec fn projection_defined<T: Scalar>(
    width: T,
    height: T,
    half_angle_tangent: T,
    near: T,
    far: T,
    one: T,
) -> bool {
    &&& height.div_req(width)
    &&& one.div_req(half_angle_tangent)
    &&& focal_value(half_angle_tangent, one).mul_req(aspect_value(width, height))
    &&& far.sub_req(near)
    &&& far.add_req(near)
    &&& far.add_spec(near).div_req(far.sub_spec(near))
    &&& one.add_req(one)
    &&& one.add_spec(one).mul_req(far)
    &&& one.add_spec(one).mul_spec(far).mul_req(near)
    &&& one.add_spec(one).mul_spec(far).mul_spec(near).neg_req()
    &&& one.add_spec(one).mul_spec(far).mul_spec(near).neg_spec().div_req(far.sub_spec(near))
}

/// The model matrix: uniform scaling by `scale`, then a shift by
/// `(dx, dy, dz)`.
pub fn model<T: Copy>(scale: T, dx: T, dy: T, dz: T, zero: T, one: T) -> (m: Matrix<T>)
    ensures
        forall|row: int, col: int|
            0 <= row < 4 && 0 <= col < 4 ==> #[trigger] m[row][col] == model_entry(
                scale,
                dx,
                dy,
                dz,
                zero,
                one,
                row,
                col,
            ),
{
    [
        [scale, zero, zero, zero],
        [zero, scale, zero, zero],
        [zero, zero, scale, zero],
        [dx, dy, dz, one],
    ]
}

/// The right axis of a camera that looks along `target`, before it is scaled
/// to length one: `cross` of the forward axis and `up`. The square root of
/// its `length_squared` is the `side_length` that `look` asks for.
pub fn look_side<T: Scalar>(
    target: Position<T>,
    up: Position<T>,
    target_length: T,
) -> (side: Position<T>)
    requires
        total::<T>() || (exact::<T>() && look_side_defined(target@, up@, target_length)),
    ensures
        exact::<T>() ==> side@ == look_side_value(target@, up@, target_length),
{
    cross(normalize(target, target_length), up)
}

/// The view matrix of the camera at `eye` that looks along `target`, with
/// `up` pointing roughly upwards.
///
/// `target` is a direction, not a place: the forward axis is `target` scaled
/// to length one, wherever `eye` is. The right axis is `cross` of forward and
/// `up`, scaled to length one, and the up axis is `cross` of right and
/// forward. The caller passes the two lengths: `target_length` is the
/// Euclidean length of `target`, and `side_length` that of
/// `look_side(target, up, target_length)`.
pub fn look<T: Scalar>(
    eye: Position<T>,
    target: Position<T>,
    up: Position<T>,
    target_length: T,
    side_length: T,
    zero: T,
    one: T,
) -> (m: Matrix<T>)
    requires
        total::<T>() || (exact::<T>() && look_defined(
            eye@,
            target@,
            up@,
            target_length,
            side_length,
        )),
    ensures
        forall|row: int, col: int|
            0 <= row < 4 && 0 <= col < 4 && (exact::<T>() || col == 3)
                ==> #[trigger] m[row][col] == look_entry(
                eye@,
                target@,
                up@,
                target_length,
                side_length,
                zero,
                one,
                row,
                col,
            ),
{
    let forward = normalize(target, target_length);
    let right = normalize(cross(forward, up), side_length);
    let above = cross(right, forward);
    [
        [right[0], above[0], forward[0], zero],
        [right[1], above[1], forward[1], zero],
        [right[2], above[2], forward[2], zero],
        [dot(right, eye), dot(above, eye), dot(forward, eye), one],
    ]
}

/// The perspective matrix for a viewport of `dims`, width first, a field of
/// view with the given tangent of half its angle, and the frustum between
/// `near` and `far`. The aspect ratio is height over width.
pub fn projection<T: Scalar>(
    dims: (T, T),
    half_angle_tangent: T,
    near: T,
    far: T,
    zero: T,
    one: T,
) -> (m: Matrix<T>)
    requires
        total::<T>() || (exact::<T>() && projection_defined(
            dims.0,
            dims.1,
            half_angle_tangent,
            near,
            far,
            one,
        )),
    ensures
        forall|row: int, col: int|
            0 <= row < 4 && 0 <= col < 4 && (exact::<T>() || projection_entry_is_moved(row, col))
                ==> #[trigger] m[row][col] == projection_entry(
                dims.0,
                dims.1,
                half_angle_tangent,
                near,
                far,
                zero,
                one,
                row,
                col,
            ),
{
    let (width, height) = dims;
    let aspect = height.div(width);
    let focal = one.div(half_angle_tangent);
    let depth = far.sub(near);
    [
        [focal.mul(aspect), zero, zero, zero],
        [zero, focal, zero, zero],
        [zero, zero, far.add(near).div(depth), one],
        [zero, zero, one.add(one).mul(far).mul(near).neg().div(depth), zero],
    ]
}

/// Scaling by `one` and shifting by `zero` changes nothing: the model matrix
/// is then the identity.
pub proof fn unit_model_is_identity<T>(zero: T, one: T)
    ensures
        forall|row: int, col: int|
            0 <= row < 4 && 0 <= col < 4 ==> #[trigger] model_entry(
                one,
                zero,
                zero,
                zero,
                zero,
                one,
                row,
                col,
            ) == identity_entry(zero, one, row, col),
{
}

/// On a square viewport the perspective matrix scales both screen axes
/// alike: its first two diagonal entries are equal. Stated for 64-bit
/// integers, for every viewport side on which the matrix is defined.
pub proof fn square_viewport_scales_alike(
    side: i64,
    half_angle_tangent: i64,
    near: i64,
    far: i64,
    zero: i64,
    one: i64,
)
    requires
        projection_defined(side, side, half_angle_tangent, near, far, one),
    ensures
        projection_entry(side, side, half_angle_tangent, near, far, zero, one, 0, 0)
            == projection_entry(side, side, half_angle_tangent, near, far, zero, one, 1, 1),
{
    assert(aspect_value(side, side) == 1) by {
        if side > 0 {
            assert(side / side == 1) by (nonlinear_arith)
                requires
                    side > 0,
            ;
        } else {
            assert((-side) / (side as int) == -1) by (nonlinear_arith)
                requires
                    side < 0,
            ;
        }
    }
    let focal = focal_value(half_angle_tangent, one);
    assert(focal * 1 == focal);
}

} // verus!
