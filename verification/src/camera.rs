//! What the camera is given for one frame, as exact numbers.
//!
//! The world stands still and the camera looks down the negative z axis from
//! five units away. The cube is turned about the x axis, then about the y
//! axis, and seen through a perspective of sixty degrees. Until its first
//! update a scene is seen turned sixty degrees about the y axis.

use vstd::prelude::*;
use crate::viewport::VirtualViewport;

verus! {

/// Field of view, in degrees.
pub const FIELD_OF_VIEW_DEGREES: u32 = 60;

/// Distance of the near plane, in tenths of a unit.
pub const NEAR_PLANE_TENTHS: u32 = 1;

/// Distance of the far plane, in units.
pub const FAR_PLANE: u32 = 1000;

/// Where the cube stands on the z axis as the camera sees it: five units
/// ahead.
pub const VIEW_SHIFT_Z: i32 = -5;

/// Turn about the y axis of the view that a scene starts with, in
/// thousandths of a degree: sixty degrees.
pub const INITIAL_VIEW_Y_ANGLE: i32 = 60_000;

/// Background colour as red, green, blue and alpha, in tenths.
pub const CLEAR_COLOR_TENTHS: [u8; 4] = [8, 9, 9, 10];

/// A perspective projection: the field of view, the virtual viewport whose
/// shape it has, and the two clipping planes.
#[derive(Clone, Copy, Debug, PartialEq, Eq, Structural)]
pub struct Projection {
    pub fov_degrees: u32,
    pub viewport: VirtualViewport,
    pub near_tenths: u32,
    pub far: u32,
}

/// A view: a shift along the z axis applied after a turn about the x axis,
/// applied after a turn about the y axis. Angles are in thousandths of a
/// degree.
#[derive(Clone, Copy, Debug, PartialEq, Eq, Structural)]
pub struct ViewTransform {
    pub shift_z: i32,
    pub x_angle: i32,
    pub y_angle: i32,
}

/// The projection through `viewport`.
pub open spec fn projection_of(viewport: VirtualViewport) -> Projection {
    Projection {
        fov_degrees: FIELD_OF_VIEW_DEGREES,
        viewport,
        near_tenths: NEAR_PLANE_TENTHS,
        far: FAR_PLANE,
    }
}

/// The view of a cube turned by `x_angle` and `y_angle`.
pub open spec fn view_of(x_angle: int, y_angle: int) -> ViewTransform {
    ViewTransform { shift_z: VIEW_SHIFT_Z, x_angle: x_angle as i32, y_angle: y_angle as i32 }
}

/// The view that a scene starts with, before its first update: the cube
/// five units ahead and turned sixty degrees about the y axis.
pub open spec fn initial_view_of() -> ViewTransform {
    ViewTransform { shift_z: VIEW_SHIFT_Z, x_angle: 0, y_angle: INITIAL_VIEW_Y_ANGLE }
}

/// Builds the projection through `viewport`.
pub fn projection(viewport: VirtualViewport) -> (p: Projection)
    ensures
        p == projection_of(viewport),
{
    Projection {
        fov_degrees: FIELD_OF_VIEW_DEGREES,
        viewport,
        near_tenths: NEAR_PLANE_TENTHS,
        far: FAR_PLANE,
    }
}

/// Builds the view of a cube turned by `x_angle` and `y_angle`.
pub fn view(x_angle: i32, y_angle: i32) -> (v: ViewTransform)
    ensures
        v == view_of(x_angle as int, y_angle as int),
{
    ViewTransform { shift_z: VIEW_SHIFT_Z, x_angle, y_angle }
}

/// Builds the view that a scene starts with.
pub fn initial_view() -> (v: ViewTransform)
    ensures
        v == initial_view_of(),
{
    ViewTransform { shift_z: VIEW_SHIFT_Z, x_angle: 0, y_angle: INITIAL_VIEW_Y_ANGLE }
}

} // verus!
