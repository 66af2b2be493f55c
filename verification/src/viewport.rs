//! The virtual viewport.
//!
//! The projection is not built from the window's pixel size but from a
//! virtual viewport of the same shape that always fits an 8 by 6 reference
//! frame and touches it on one side. A window wider than 4:3 keeps the full
//! width of 8 and loses height; any other window keeps the full height of 6
//! and loses width. Geometry therefore keeps its proportions whatever the
//! shape of the window.

use vstd::prelude::*;

verus! {

/// Width of the reference frame.
pub const REFERENCE_WIDTH: u64 = 8;

/// Height of the reference frame.
pub const REFERENCE_HEIGHT: u64 = 6;

/// The side on which a virtual viewport touches the reference frame.
#[derive(Clone, Copy, Debug, PartialEq, Eq, Structural)]
pub enum Anchor {
    /// The width is 8 and the height follows from the window's shape.
    Width,
    /// The height is 6 and the width follows from the window's shape.
    Height,
}

/// A virtual viewport as two fractions over one denominator:
/// its width is `width_num / den` and its height is `height_num / den`.
#[derive(Clone, Copy, Debug, PartialEq, Eq, Structural)]
pub struct VirtualViewport {
    pub width_num: u64,
    pub height_num: u64,
    pub den: u64,
}

/// Whether a `width` by `height` window is strictly wider than the 4:3
/// reference shape, that is whether `width / height > 8 / 6`.
pub open spec fn wider_than_reference(width: int, height: int) -> bool {
    REFERENCE_HEIGHT * width > REFERENCE_WIDTH * height
}

/// The side that a `width` by `height` window is anchored on. A window of
/// exactly the reference shape is anchored on its height.
pub open spec fn anchor_of(width: int, height: int) -> Anchor {
    if wider_than_reference(width, height) {
        Anchor::Width
    } else {
        Anchor::Height
    }
}

/// The virtual viewport of a `width` by `height` window: the window's size
/// scaled by `8 / width` where it is anchored on its width and by
/// `6 / height` where it is anchored on its height.
pub open spec fn fitted(width: u32, height: u32) -> VirtualViewport {
    match anchor_of(width as int, height as int) {
        Anchor::Width => VirtualViewport {
            width_num: (REFERENCE_WIDTH * width) as u64,
            height_num: (REFERENCE_WIDTH * height) as u64,
            den: width as u64,
        },
        Anchor::Height => VirtualViewport {
            width_num: (REFERENCE_HEIGHT * width) as u64,
            height_num: (REFERENCE_HEIGHT * height) as u64,
            den: height as u64,
        },
    }
}

impl VirtualViewport {
    /// Both sides are positive fractions.
    pub open spec fn wf(&self) -> bool {
        &&& self.den > 0
        &&& self.width_num > 0
        &&& self.height_num > 0
    }

    /// The viewport lies within the reference frame and touches it: the
    /// width is at most 8, the height at most 6, and one of them is equal.
    pub open spec fn fits_reference(&self) -> bool {
        &&& self.width_num <= REFERENCE_WIDTH * self.den
        &&& self.height_num <= REFERENCE_HEIGHT * self.den
        &&& (self.width_num == REFERENCE_WIDTH * self.den || self.height_num
            == REFERENCE_HEIGHT * self.den)
    }

    /// The two viewports have the same width and the same height, as
    /// fractions.
    pub open spec fn same_size_as(&self, other: VirtualViewport) -> bool {
        &&& self.width_num * other.den == other.width_num * self.den
        &&& self.height_num * other.den == other.height_num * self.den
    }

    /// The viewport has the shape of a `width` by `height` window:
    /// `width_num / height_num == width / height`, cross-multiplied.
    pub open spec fn has_shape_of(&self, width: int, height: int) -> bool {
        self.width_num * height == self.height_num * width
    }
}

/// Decides on which side a `width` by `height` window is anchored.
pub fn anchor_for(width: u32, height: u32) -> (a: Anchor)
    ensures
        a == anchor_of(width as int, height as int),
{
    let lhs: u64 = REFERENCE_HEIGHT * (width as u64);
    let rhs: u64 = REFERENCE_WIDTH * (height as u64);
    if lhs > rhs {
        Anchor::Width
    } else {
        Anchor::Height
    }
}

/// Computes the virtual viewport of a window that has area.
pub(crate) fn fit(width: u32, height: u32) -> (v: VirtualViewport)
    requires
        width > 0,
        height > 0,
    ensures
        v == fitted(width, height),
        v.wf(),
{
    let w: u64 = width as u64;
    let h: u64 = height as u64;
    match anchor_for(width, height) {
        Anchor::Width => VirtualViewport {
            width_num: REFERENCE_WIDTH * w,
            height_num: REFERENCE_WIDTH * h,
            den: w,
        },
        Anchor::Height => VirtualViewport {
            width_num: REFERENCE_HEIGHT * w,
            height_num: REFERENCE_HEIGHT * h,
            den: h,
        },
    }
}

/// Computes the virtual viewport of a `width` by `height` window.
///
/// A window without area has no shape and gets no viewport.
pub fn virtual_viewport(width: u32, height: u32) -> (v: Option<VirtualViewport>)
    ensures
        v == (if width == 0 || height == 0 {
            None
        } else {
            Some(fitted(width, height))
        }),
        v matches Some(viewport) ==> viewport.wf(),
{
    if width == 0 || height == 0 {
        None
    } else {
        Some(fit(width, height))
    }
}

/// The virtual viewport of a window with area is well formed, has the
/// window's shape, and fits the reference frame touching it on one side.
pub proof fn lemma_fitted_keeps_shape(width: u32, height: u32)
    requires
        width > 0,
        height > 0,
    ensures
        fitted(width, height).wf(),
        fitted(width, height).has_shape_of(width as int, height as int),
        fitted(width, height).fits_reference(),
{
    let v = fitted(width, height);
    let w = width as int;
    let h = height as int;
    if wider_than_reference(w, h) {
        assert((8 * w) * h == (8 * h) * w) by (nonlinear_arith);
    } else {
        assert((6 * w) * h == (6 * h) * w) by (nonlinear_arith);
    }
}

/// The anchor is decided by the window's shape alone: scaling both sides of
/// the window by the same factor changes neither the anchor nor the size of
/// the virtual viewport.
pub proof fn lemma_fitted_ignores_scale(width: u32, height: u32, factor: u32)
    requires
        width > 0,
        height > 0,
        factor > 0,
        width * factor <= u32::MAX,
        height * factor <= u32::MAX,
    ensures
        anchor_of(width * factor, height * factor) == anchor_of(width as int, height as int),
        fitted((width * factor) as u32, (height * factor) as u32).same_size_as(
            fitted(width, height),
        ),
{
    let w = width as int;
    let h = height as int;
    let f = factor as int;
    assert(6 * (w * f) > 8 * (h * f) <==> 6 * w > 8 * h) by (nonlinear_arith)
        requires
            f > 0,
    ;
    assert((8 * (w * f)) * w == (8 * w) * (w * f)) by (nonlinear_arith);
    assert((8 * (h * f)) * w == (8 * h) * (w * f)) by (nonlinear_arith);
    assert((6 * (w * f)) * h == (6 * w) * (h * f)) by (nonlinear_arith);
    assert((6 * (h * f)) * h == (6 * h) * (h * f)) by (nonlinear_arith);
}

} // verus!
