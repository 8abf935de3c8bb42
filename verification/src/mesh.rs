//! The cube mesh: eight corners and twelve triangles, two on each face.
//!
//! A corner is named by its number, `0..8`. Each axis of a corner lies either
//! on the low or on the high side of the cube; the triangles are given as
//! thirty-six corner numbers, three per triangle.

use crate::vector::Position;
use vstd::prelude::*;

verus! {

/// A vertex of the mesh: its position in space.
#[derive(Debug, PartialEq)]
pub struct Vertex<T> {
    pub position: Position<T>,
}

impl<T: Copy> Clone for Vertex<T> {
    fn clone(&self) -> (copy: Self)
        ensures
            copy == *self,
    {
        *self
    }
}

impl<T: Copy> Copy for Vertex<T> {

}

/// Number of corners of the cube.
pub const CORNER_COUNT: usize = 8;

/// Number of corner numbers in the triangle list.
pub const INDEX_COUNT: usize = 36;

/// Whether corner `corner` lies on the high side of axis `axis` (0 is x, 1 is
/// y, 2 is z).
///
/// Walking the corners in order, x alternates low, high; y stays high for two
/// corners and then low for two; z is low for the first four corners and high
/// for the last four.
pub open spec fn corner_is_high(corner: int, axis: int) -> bool {
    if axis == 0 {
        corner % 2 == 1
    } else if axis == 1 {
        (corner / 2) % 2 == 0
    } else {
        corner / 4 == 1
    }
}

/// The coordinate of corner `corner` along `axis` in a cube that spans from
/// `low` to `high` on every axis.
pub open spec fn corner_coordinate<T>(low: T, high: T, corner: int, axis: int) -> T {
    if corner_is_high(corner, axis) {
        high
    } else {
        low
    }
}

/// The triangle list: for each of the twelve triangles its three corners.
pub open spec fn triangle_corners() -> Seq<u16> {
    seq![
        0u16, 1, 2,
        2, 3, 1,
        4, 5, 6,
        6, 7, 5,
        0, 1, 4,
        4, 5, 1,
        2, 3, 6,
        6, 7, 3,
        0, 4, 2,
        2, 6, 4,
        5, 1, 7,
        7, 3, 1,
    ]
}

/// The axis that face `face` (`0..6`) is perpendicular to.
pub open spec fn face_axis(face: int) -> int {
    if face < 2 {
        2
    } else if face < 4 {
        1
    } else {
        0
    }
}

/// Whether face `face` (`0..6`) is the high side of its axis.
pub open spec fn face_is_high(face: int) -> bool {
    face == 1 || face == 2 || face == 5
}

/// Whether corner `corner` lies on face `face`.
pub open spec fn corner_on_face(corner: int, face: int) -> bool {
    corner_is_high(corner, face_axis(face)) == face_is_high(face)
}

/// The eight corners of the cube that spans from `low` to `high` on every
/// axis.
pub fn cube_vertices<T: Copy>(low: T, high: T) -> (corners: [Vertex<T>; CORNER_COUNT])
    ensures
        forall|corner: int, axis: int|
            0 <= corner < 8 && 0 <= axis < 3 ==> #[trigger] corners[corner].position[axis]
                == corner_coordinate(low, high, corner, axis),
{
    [
        Vertex { position: [low, high, low] },
        Vertex { position: [high, high, low] },
        Vertex { position: [low, low, low] },
        Vertex { position: [high, low, low] },
        Vertex { position: [low, high, high] },
        Vertex { position: [high, high, high] },
        Vertex { position: [low, low, high] },
        Vertex { position: [high, low, high] },
    ]
}

/// The triangle list of the cube.
pub fn cube_indices() -> (indices: [u16; INDEX_COUNT])
    ensures
        indices@ == triangle_corners(),
{
    let indices: [u16; INDEX_COUNT] = [
        0, 1, 2,
        2, 3, 1,
        4, 5, 6,
        6, 7, 5,
        0, 1, 4,
        4, 5, 1,
        2, 3, 6,
        6, 7, 3,
        0, 4, 2,
        2, 6, 4,
        5, 1, 7,
        7, 3, 1,
    ];
    assert(indices@ =~= triangle_corners());
    indices
}

/// Every entry of the triangle list names a corner of the cube.
pub proof fn indices_name_corners()
    ensures
        triangle_corners().len() == 36,
        forall|k: int| 0 <= k < 36 ==> 0 <= #[trigger] triangle_corners()[k] < 8,
{
}

/// No two corners coincide: they differ in the side of at least one axis.
pub proof fn corners_are_distinct(first: int, second: int)
    requires
        0 <= first < 8,
        0 <= second < 8,
        first != second,
    ensures
        exists|axis: int|
            0 <= axis < 3 && corner_is_high(first, axis) != #[trigger] corner_is_high(
                second,
                axis,
            ),
{
    if corner_is_high(first, 0) != corner_is_high(second, 0) {
    } else if corner_is_high(first, 1) != corner_is_high(second, 1) {
    } else {
        assert(corner_is_high(first, 2) != corner_is_high(second, 2));
    }
}

/// The three corners of a triangle are three different corners.
pub proof fn triangles_are_proper(triangle: int)
    requires
        0 <= triangle < 12,
    ensures
        triangle_corners()[3 * triangle] != triangle_corners()[3 * triangle + 1],
        triangle_corners()[3 * triangle] != triangle_corners()[3 * triangle + 2],
        triangle_corners()[3 * triangle + 1] != triangle_corners()[3 * triangle + 2],
{
}

/// Triangles `2 * face` and `2 * face + 1` lie on face `face`: all six of
/// their corners are on it.
pub proof fn triangles_lie_on_faces(k: int)
    requires
        0 <= k < 36,
    ensures
        corner_on_face(triangle_corners()[k] as int, k / 6),
{
}

/// The two triangles of a face leave none of its four corners out.
pub proof fn faces_are_covered(face: int, corner: int)
    requires
        0 <= face < 6,
        0 <= corner < 8,
        corner_on_face(corner, face),
    ensures
        exists|k: int| 6 * face <= k < 6 * face + 6 && #[trigger] triangle_corners()[k] == corner,
{
    let list = triangle_corners();
    let start = 6 * face;
    // The first triangle of a face names three of its corners, and the
    // second corner of the second triangle names the fourth.
    if list[start] == corner {
    } else if list[start + 1] == corner {
    } else if list[start + 2] == corner {
    } else {
        assert(list[start + 4] == corner);
    }
}

} // verus!
