//! The cube: eight corners, each with a position and a colour, and the
//! twelve triangles that cover its six faces.
//!
//! Every coordinate is one of `-1` and `1` and every colour channel one of
//! `0` and `1`, so the mesh is held in whole numbers.

use vstd::prelude::*;

verus! {

/// What a vertex attribute means to the shader program.
#[derive(Clone, Copy, Debug, PartialEq, Eq, Structural)]
pub enum Semantics {
    /// Where the vertex lies: x, y, z.
    Position,
    /// What colour it has: red, green, blue.
    Color,
}

/// Number of vertices of the cube.
pub const VERTEX_COUNT: usize = 8;

/// Number of indices of the cube: three for each of twelve triangles.
pub const INDEX_COUNT: usize = 36;

/// Number of triangles of the cube.
pub const TRIANGLE_COUNT: usize = 12;

/// Positions of the eight corners.
pub const CUBE_POSITIONS: [[i8; 3]; 8] = [
    [-1, 1, 1],
    [-1, -1, 1],
    [1, -1, 1],
    [1, 1, 1],
    [1, 1, -1],
    [1, -1, -1],
    [-1, -1, -1],
    [-1, 1, -1],
];

/// Colours of the eight corners.
pub const CUBE_COLORS: [[i8; 3]; 8] = [
    [0, 1, 1],
    [1, 1, 0],
    [1, 0, 1],
    [1, 1, 1],
    [0, 1, 0],
    [0, 0, 1],
    [1, 0, 0],
    [0, 0, 0],
];

/// The triangle list: each run of three indices names one triangle.
pub const CUBE_INDICES: [u16; 36] = [
    0, 1, 2, 2, 3, 0,
    3, 2, 5, 5, 4, 3,
    4, 5, 6, 6, 7, 4,
    7, 6, 1, 1, 0, 7,
    2, 1, 6, 6, 5, 2,
    7, 0, 3, 3, 4, 7,
];

/// The attribute of corner `vertex` that `semantics` names.
pub open spec fn attribute_of(vertex: int, semantics: Semantics) -> Seq<i8> {
    match semantics {
        Semantics::Position => CUBE_POSITIONS@[vertex]@,
        Semantics::Color => CUBE_COLORS@[vertex]@,
    }
}

/// The three corners of triangle `t`.
pub open spec fn triangle_of(t: int) -> Seq<u16> {
    seq![CUBE_INDICES@[3 * t], CUBE_INDICES@[3 * t + 1], CUBE_INDICES@[3 * t + 2]]
}

/// Whether three corners lie on one face of the cube: they agree in one
/// coordinate.
pub open spec fn on_one_face(a: int, b: int, c: int) -> bool {
    exists|axis: int|
        0 <= axis < 3 && #[trigger] CUBE_POSITIONS@[a]@[axis] == CUBE_POSITIONS@[b]@[axis]
            && CUBE_POSITIONS@[a]@[axis] == CUBE_POSITIONS@[c]@[axis]
}

/// Whether a triangle is drawable: its corners are three different
/// vertices of the cube.
pub open spec fn is_proper(triangle: Seq<u16>) -> bool {
    &&& triangle.len() == 3
    &&& triangle[0] < VERTEX_COUNT
    &&& triangle[1] < VERTEX_COUNT
    &&& triangle[2] < VERTEX_COUNT
    &&& triangle[0] != triangle[1]
    &&& triangle[1] != triangle[2]
    &&& triangle[0] != triangle[2]
}

/// Reads one attribute of one corner. There are eight corners.
pub fn attribute(vertex: usize, semantics: Semantics) -> (value: Option<[i8; 3]>)
    ensures
        value is Some <==> vertex < VERTEX_COUNT,
        value matches Some(v) ==> v@ == attribute_of(vertex as int, semantics),
{
    if vertex >= VERTEX_COUNT {
        None
    } else {
        match semantics {
            Semantics::Position => Some(CUBE_POSITIONS[vertex]),
            Semantics::Color => Some(CUBE_COLORS[vertex]),
        }
    }
}

/// Reads the three corners of one triangle. There are twelve triangles,
/// each of them drawable and flat on a face of the cube.
pub fn triangle(t: usize) -> (corners: Option<[u16; 3]>)
    ensures
        corners is Some <==> t < TRIANGLE_COUNT,
        corners matches Some(c) ==> c@ == triangle_of(t as int) && is_proper(c@) && on_one_face(
            c@[0] as int,
            c@[1] as int,
            c@[2] as int,
        ),
{
    if t >= TRIANGLE_COUNT {
        None
    } else {
        let corners: [u16; 3] = [
            CUBE_INDICES[3 * t],
            CUBE_INDICES[3 * t + 1],
            CUBE_INDICES[3 * t + 2],
        ];
        proof {
            assert(corners@ =~= triangle_of(t as int));
            lemma_triangles_are_faces(t as int);
        }
        Some(corners)
    }
}

/// Every index of the triangle list names a vertex of the cube.
pub proof fn lemma_indices_in_range(i: int)
    requires
        0 <= i < INDEX_COUNT,
    ensures
        CUBE_INDICES@[i] < VERTEX_COUNT,
{
}

/// Every corner is a corner of the cube from `-1` to `1`, and every colour
/// channel is off or fully on.
pub proof fn lemma_corners_are_unit(vertex: int, axis: int)
    requires
        0 <= vertex < VERTEX_COUNT,
        0 <= axis < 3,
    ensures
        CUBE_POSITIONS@[vertex]@[axis] == -1 || CUBE_POSITIONS@[vertex]@[axis] == 1,
        CUBE_COLORS@[vertex]@[axis] == 0 || CUBE_COLORS@[vertex]@[axis] == 1,
{
}

/// No two corners share a position.
pub proof fn lemma_corners_differ(a: int, b: int)
    requires
        0 <= a < b < VERTEX_COUNT,
    ensures
        CUBE_POSITIONS@[a]@ != CUBE_POSITIONS@[b]@,
{
    let p = CUBE_POSITIONS@[a]@;
    let q = CUBE_POSITIONS@[b]@;
    assert(p[0] != q[0] || p[1] != q[1] || p[2] != q[2]);
}

/// Every triangle of the list is drawable and lies flat on one face of the
/// cube.
pub proof fn lemma_triangles_are_faces(t: int)
    requires
        0 <= t < TRIANGLE_COUNT,
    ensures
        is_proper(triangle_of(t)),
        on_one_face(triangle_of(t)[0] as int, triangle_of(t)[1] as int, triangle_of(t)[2] as int),
{
    let a = triangle_of(t)[0] as int;
    let b = triangle_of(t)[1] as int;
    let c = triangle_of(t)[2] as int;
    let axis: int = if t < 2 {
        2
    } else if t < 4 {
        0
    } else if t < 6 {
        2
    } else if t < 8 {
        0
    } else {
        1
    };
    assert(CUBE_POSITIONS@[a]@[axis] == CUBE_POSITIONS@[b]@[axis]);
    assert(CUBE_POSITIONS@[a]@[axis] == CUBE_POSITIONS@[c]@[axis]);
}

} // verus!
