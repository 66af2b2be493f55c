//! The scene: which way the cube is asked to spin, how far it has turned,
//! and the virtual viewport it is seen through.

use vstd::prelude::*;
use crate::angle::{
    advance, advanced, in_wrap_range, lemma_advanced_splits, lemma_advanced_splits_exactly,
    lemma_wrap_properties, FULL_TURN,
};
use crate::camera::{
    initial_view, initial_view_of, projection, projection_of, view, view_of, Projection,
    ViewTransform,
};
use crate::viewport::{fit, fitted, lemma_fitted_keeps_shape, virtual_viewport, VirtualViewport};

verus! {

/// Spin velocity of a new scene, in degrees per second: half a turn.
pub const SPIN_VELOCITY: u32 = 180;

/// Width in pixels of the window that a new scene expects.
pub const WINDOW_WIDTH: u32 = 1280;

/// Height in pixels of the window that a new scene expects.
pub const WINDOW_HEIGHT: u32 = 720;

/// The two axes of spin, as the user sees them.
#[derive(Clone, Copy, Debug, PartialEq, Eq, Structural)]
pub enum Axis {
    /// Left and right: turns the cube about its vertical axis.
    Horizontal,
    /// Up and down: turns the cube about its horizontal axis.
    Vertical,
}

/// The two ways to spin along an axis.
#[derive(Clone, Copy, Debug, PartialEq, Eq, Structural)]
pub enum Direction {
    Negative,
    Positive,
}

/// The net spin along one axis: `+1` for the positive intent, `-1` for the
/// negative one, and their sum where both or neither are held.
pub open spec fn net_spin(negative: bool, positive: bool) -> int {
    (if positive {
        1int
    } else {
        0int
    }) - (if negative {
        1int
    } else {
        0int
    })
}

/// What a scene is, as mathematics.
pub struct SceneModel {
    /// Degrees per second, which is thousandths of a degree per millisecond.
    pub spin_velocity: int,
    pub spin_h_neg: bool,
    pub spin_h_pos: bool,
    pub spin_v_neg: bool,
    pub spin_v_pos: bool,
    /// Turn about the x axis, in thousandths of a degree.
    pub x_angle: int,
    /// Turn about the y axis, in thousandths of a degree.
    pub y_angle: int,
    pub viewport: VirtualViewport,
    /// The view that is drawn. An update sets it to the view of the two
    /// angles; nothing else touches it.
    pub view: ViewTransform,
}

impl SceneModel {
    /// Both angles are wrapped and the viewport is a pair of positive
    /// fractions.
    pub open spec fn wf(self) -> bool {
        &&& 0 <= self.spin_velocity <= u32::MAX
        &&& in_wrap_range(self.x_angle)
        &&& in_wrap_range(self.y_angle)
        &&& self.viewport.wf()
    }

    /// The scene before any key was pressed.
    pub open spec fn initial() -> SceneModel {
        SceneModel {
            spin_velocity: SPIN_VELOCITY as int,
            spin_h_neg: false,
            spin_h_pos: false,
            spin_v_neg: false,
            spin_v_pos: false,
            x_angle: 0,
            y_angle: 0,
            viewport: fitted(WINDOW_WIDTH, WINDOW_HEIGHT),
            view: initial_view_of(),
        }
    }

    /// The net spin left and right.
    pub open spec fn horizontal_spin(self) -> int {
        net_spin(self.spin_h_neg, self.spin_h_pos)
    }

    /// The net spin up and down.
    pub open spec fn vertical_spin(self) -> int {
        net_spin(self.spin_v_neg, self.spin_v_pos)
    }

    /// The intent flag for one direction along one axis.
    pub open spec fn spin(self, axis: Axis, direction: Direction) -> bool {
        match (axis, direction) {
            (Axis::Horizontal, Direction::Negative) => self.spin_h_neg,
            (Axis::Horizontal, Direction::Positive) => self.spin_h_pos,
            (Axis::Vertical, Direction::Negative) => self.spin_v_neg,
            (Axis::Vertical, Direction::Positive) => self.spin_v_pos,
        }
    }

    /// The scene with one intent flag set to `on` and nothing else changed.
    pub open spec fn set_spin(self, axis: Axis, direction: Direction, on: bool) -> SceneModel {
        match (axis, direction) {
            (Axis::Horizontal, Direction::Negative) => SceneModel { spin_h_neg: on, ..self },
            (Axis::Horizontal, Direction::Positive) => SceneModel { spin_h_pos: on, ..self },
            (Axis::Vertical, Direction::Negative) => SceneModel { spin_v_neg: on, ..self },
            (Axis::Vertical, Direction::Positive) => SceneModel { spin_v_pos: on, ..self },
        }
    }

    /// The view that is drawn: that of the two angles as the last update
    /// left them, and before the first update the initial view.
    pub open spec fn view_transform(self) -> ViewTransform {
        self.view
    }

    /// Whether the view that is drawn is the view of the two angles.
    pub open spec fn view_is_current(self) -> bool {
        self.view == view_of(self.x_angle, self.y_angle)
    }

    /// The projection through the viewport as it is now.
    pub open spec fn projection(self) -> Projection {
        projection_of(self.viewport)
    }

    /// The scene after `elapsed_ms` milliseconds: horizontal spin turns the
    /// cube about the y axis, vertical spin about the x axis, both at the
    /// spin velocity, both angles are wrapped keeping their sign, and the
    /// view becomes the view of the two angles.
    pub open spec fn update(self, elapsed_ms: int) -> SceneModel {
        let x_angle = advanced(
            self.x_angle,
            self.spin_velocity * self.vertical_spin(),
            elapsed_ms,
        );
        let y_angle = advanced(
            self.y_angle,
            self.spin_velocity * self.horizontal_spin(),
            elapsed_ms,
        );
        SceneModel { x_angle, y_angle, view: view_of(x_angle, y_angle), ..self }
    }

    /// The scene after its window took the size `width` by `height`. A
    /// window without area leaves the viewport as it was.
    pub open spec fn recompute_projection(self, width: u32, height: u32) -> SceneModel {
        if width == 0 || height == 0 {
            self
        } else {
            SceneModel { viewport: fitted(width, height), ..self }
        }
    }
}

/// One change to a scene.
pub enum SceneOp {
    /// Set the intent for one direction along one axis.
    SetSpin(Axis, Direction, bool),
    /// Let this many milliseconds pass.
    Update(int),
    /// Give the window this width and height.
    Resize(u32, u32),
}

impl SceneModel {
    /// The scene after one change.
    pub open spec fn apply(self, op: SceneOp) -> SceneModel {
        match op {
            SceneOp::SetSpin(axis, direction, on) => self.set_spin(axis, direction, on),
            SceneOp::Update(elapsed_ms) => self.update(elapsed_ms),
            SceneOp::Resize(width, height) => self.recompute_projection(width, height),
        }
    }

    /// The scene after a run of changes, in order.
    pub open spec fn run(self, ops: Seq<SceneOp>) -> SceneModel
        decreases ops.len(),
    {
        if ops.len() == 0 {
            self
        } else {
            self.run(ops.drop_last()).apply(ops.last())
        }
    }
}

/// After an update both angles lie in the wrap range, whatever they were
/// before and however much time has passed, and a well-formed scene stays
/// well formed.
pub proof fn lemma_update_wraps(s: SceneModel, elapsed_ms: int)
    ensures
        in_wrap_range(s.update(elapsed_ms).x_angle),
        in_wrap_range(s.update(elapsed_ms).y_angle),
        s.wf() ==> s.update(elapsed_ms).wf(),
{
    lemma_wrap_properties(s.x_angle + (s.spin_velocity * s.vertical_spin()) * elapsed_ms);
    lemma_wrap_properties(s.y_angle + (s.spin_velocity * s.horizontal_spin()) * elapsed_ms);
}

/// Each single change keeps a well-formed scene well formed.
pub proof fn lemma_apply_keeps_wf(s: SceneModel, op: SceneOp)
    requires
        s.wf(),
    ensures
        s.apply(op).wf(),
{
    match op {
        SceneOp::SetSpin(axis, direction, on) => {},
        SceneOp::Update(elapsed_ms) => {
            lemma_update_wraps(s, elapsed_ms);
        },
        SceneOp::Resize(width, height) => {
            if width > 0 && height > 0 {
                lemma_fitted_keeps_shape(width, height);
            }
        },
    }
}

/// Whatever run of intent changes, updates and resizes a well-formed scene
/// goes through, it is well formed after each of them: both angles stay in
/// the wrap range and the viewport stays a pair of positive fractions.
pub proof fn lemma_run_keeps_wf(s: SceneModel, ops: Seq<SceneOp>)
    requires
        s.wf(),
    ensures
        forall|n: int| 0 <= n <= ops.len() ==> (#[trigger] s.run(ops.take(n))).wf(),
{
    assert forall|n: int| 0 <= n <= ops.len() implies (#[trigger] s.run(ops.take(n))).wf() by {
        lemma_whole_run_keeps_wf(s, ops.take(n));
    }
}

proof fn lemma_whole_run_keeps_wf(s: SceneModel, ops: Seq<SceneOp>)
    requires
        s.wf(),
    ensures
        s.run(ops).wf(),
    decreases ops.len(),
{
    if ops.len() > 0 {
        lemma_whole_run_keeps_wf(s, ops.drop_last());
        lemma_apply_keeps_wf(s.run(ops.drop_last()), ops.last());
    }
}

/// Opposed intents cancel: with both intents of an axis set, the net spin
/// along it is zero and an update leaves its angle as it was.
pub proof fn lemma_opposed_intents_cancel(s: SceneModel, elapsed_ms: int)
    requires
        s.wf(),
    ensures
        s.spin_h_neg && s.spin_h_pos ==> s.horizontal_spin() == 0 && s.update(elapsed_ms).y_angle
            == s.y_angle,
        s.spin_v_neg && s.spin_v_pos ==> s.vertical_spin() == 0 && s.update(elapsed_ms).x_angle
            == s.x_angle,
{
    lemma_rest_keeps_angle(s, elapsed_ms);
}

/// An axis without net spin keeps its angle through an update.
pub proof fn lemma_rest_keeps_angle(s: SceneModel, elapsed_ms: int)
    requires
        s.wf(),
    ensures
        s.horizontal_spin() == 0 ==> s.update(elapsed_ms).y_angle == s.y_angle,
        s.vertical_spin() == 0 ==> s.update(elapsed_ms).x_angle == s.x_angle,
{
    assert((s.spin_velocity * 0) * elapsed_ms == 0) by (nonlinear_arith);
}

/// An update over no time changes no angle, whatever the intents: it only
/// sets the view to the view of the angles, so a second one changes nothing
/// at all.
pub proof fn lemma_update_zero_keeps_angles(s: SceneModel)
    requires
        s.wf(),
    ensures
        s.update(0) == (SceneModel { view: view_of(s.x_angle, s.y_angle), ..s }),
        s.update(0).x_angle == s.x_angle,
        s.update(0).y_angle == s.y_angle,
        s.view_is_current() ==> s.update(0) == s,
        s.update(0).update(0) == s.update(0),
{
    assert((s.spin_velocity * s.vertical_spin()) * 0 == 0) by (nonlinear_arith);
    assert((s.spin_velocity * s.horizontal_spin()) * 0 == 0) by (nonlinear_arith);
}

/// The view follows from the angles alone: every update leaves the view of
/// the angles it leaves, however much time has passed, and leaves the
/// projection as it was.
pub proof fn lemma_view_follows_angles(s: SceneModel, elapsed_ms: int)
    ensures
        s.update(elapsed_ms).view_is_current(),
        s.update(elapsed_ms).view_transform() == view_of(
            s.update(elapsed_ms).x_angle,
            s.update(elapsed_ms).y_angle,
        ),
        s.update(elapsed_ms).projection() == s.projection(),
{
}

/// Only an update touches the view: setting an intent or resizing the
/// window leaves it as it was, be it the initial view or a later one.
pub proof fn lemma_view_waits_for_update(s: SceneModel, op: SceneOp)
    requires
        !(op is Update),
    ensures
        s.apply(op).view_transform() == s.view_transform(),
        s.apply(op).x_angle == s.x_angle,
        s.apply(op).y_angle == s.y_angle,
        s.view_is_current() ==> s.apply(op).view_is_current(),
{
}

/// A new scene is drawn turned sixty degrees about the y axis although its
/// angles are zero; its first update brings the view and the angles
/// together.
pub proof fn lemma_initial_view()
    ensures
        SceneModel::initial().view_transform() == initial_view_of(),
        SceneModel::initial().x_angle == 0,
        SceneModel::initial().y_angle == 0,
        !SceneModel::initial().view_is_current(),
        SceneModel::initial().update(0).view_transform() == view_of(0, 0),
{
    lemma_fitted_keeps_shape(WINDOW_WIDTH, WINDOW_HEIGHT);
    lemma_update_zero_keeps_angles(SceneModel::initial());
}

/// Two updates in a row end where one update over both spans ends, up to
/// whole turns, and exactly so for an axis whose angle has the sign of its
/// spin: the frame rate does not change where the cube points.
pub proof fn lemma_update_splits(s: SceneModel, first_ms: int, second_ms: int)
    requires
        s.wf(),
        first_ms >= 0,
        second_ms >= 0,
    ensures
        (s.update(first_ms).update(second_ms).x_angle - s.update(first_ms + second_ms).x_angle) % (
        FULL_TURN as int) == 0,
        (s.update(first_ms).update(second_ms).y_angle - s.update(first_ms + second_ms).y_angle) % (
        FULL_TURN as int) == 0,
        s.x_angle * s.vertical_spin() >= 0 ==> s.update(first_ms).update(second_ms).x_angle
            == s.update(first_ms + second_ms).x_angle,
        s.y_angle * s.horizontal_spin() >= 0 ==> s.update(first_ms).update(second_ms).y_angle
            == s.update(first_ms + second_ms).y_angle,
{
    let v = s.spin_velocity * s.vertical_spin();
    let h = s.spin_velocity * s.horizontal_spin();
    lemma_advanced_splits(s.x_angle, v, first_ms, second_ms);
    lemma_advanced_splits(s.y_angle, h, first_ms, second_ms);
    if s.x_angle * s.vertical_spin() >= 0 {
        lemma_rate_has_sign_of_spin(s.x_angle, s.spin_velocity, s.vertical_spin());
        lemma_advanced_splits_exactly(s.x_angle, v, first_ms, second_ms);
    }
    if s.y_angle * s.horizontal_spin() >= 0 {
        lemma_rate_has_sign_of_spin(s.y_angle, s.spin_velocity, s.horizontal_spin());
        lemma_advanced_splits_exactly(s.y_angle, h, first_ms, second_ms);
    }
}

proof fn lemma_rate_has_sign_of_spin(angle: int, velocity: int, spin: int)
    by (nonlinear_arith)
    requires
        velocity >= 0,
        -1 <= spin <= 1,
        angle * spin >= 0,
    ensures
        (angle >= 0 && velocity * spin >= 0) || (angle <= 0 && velocity * spin <= 0),
{
}

/// An update turns each angle by the velocity times the net spin times the
/// elapsed time, up to whole turns.
pub proof fn lemma_update_turns_by_rate(s: SceneModel, elapsed_ms: int)
    ensures
        (s.x_angle + s.spin_velocity * s.vertical_spin() * elapsed_ms - s.update(
            elapsed_ms,
        ).x_angle) % (FULL_TURN as int) == 0,
        (s.y_angle + s.spin_velocity * s.horizontal_spin() * elapsed_ms - s.update(
            elapsed_ms,
        ).y_angle) % (FULL_TURN as int) == 0,
{
    lemma_wrap_properties(s.x_angle + (s.spin_velocity * s.vertical_spin()) * elapsed_ms);
    lemma_wrap_properties(s.y_angle + (s.spin_velocity * s.horizontal_spin()) * elapsed_ms);
}

/// Spin intents, angles and viewport of the cube.
pub struct SceneState {
    spin_velocity: u32,
    spin_h_neg: bool,
    spin_h_pos: bool,
    spin_v_neg: bool,
    spin_v_pos: bool,
    x_angle: i32,
    y_angle: i32,
    viewport: VirtualViewport,
    view: ViewTransform,
}

impl View for SceneState {
    type V = SceneModel;

    closed spec fn view(&self) -> SceneModel {
        SceneModel {
            spin_velocity: self.spin_velocity as int,
            spin_h_neg: self.spin_h_neg,
            spin_h_pos: self.spin_h_pos,
            spin_v_neg: self.spin_v_neg,
            spin_v_pos: self.spin_v_pos,
            x_angle: self.x_angle as int,
            y_angle: self.y_angle as int,
            viewport: self.viewport,
            view: self.view,
        }
    }
}

impl SceneState {
    /// Every value of this type is well formed.
    #[verifier::type_invariant]
    pub open spec fn inv(&self) -> bool {
        self@.wf()
    }

    /// A scene at rest, seen through the viewport of the expected window and
    /// drawn with the initial view.
    pub fn new() -> (s: SceneState)
        ensures
            s@ == SceneModel::initial(),
            s@.wf(),
    {
        SceneState {
            spin_velocity: SPIN_VELOCITY,
            spin_h_neg: false,
            spin_h_pos: false,
            spin_v_neg: false,
            spin_v_pos: false,
            x_angle: 0,
            y_angle: 0,
            viewport: fit(WINDOW_WIDTH, WINDOW_HEIGHT),
            view: initial_view(),
        }
    }

    /// Sets one of the four intent flags.
    pub fn set_spin(&mut self, axis: Axis, direction: Direction, on: bool)
        ensures
            final(self)@ == old(self)@.set_spin(axis, direction, on),
            final(self)@.wf(),
    {
        proof {
            use_type_invariant(&*self);
        }
        match (axis, direction) {
            (Axis::Horizontal, Direction::Negative) => {
                self.spin_h_neg = on;
            },
            (Axis::Horizontal, Direction::Positive) => {
                self.spin_h_pos = on;
            },
            (Axis::Vertical, Direction::Negative) => {
                self.spin_v_neg = on;
            },
            (Axis::Vertical, Direction::Positive) => {
                self.spin_v_pos = on;
            },
        }
    }

    /// The net spin along `axis`, in `-1 ..= 1`.
    pub fn net_spin(&self, axis: Axis) -> (n: i8)
        ensures
            n == (match axis {
                Axis::Horizontal => self@.horizontal_spin(),
                Axis::Vertical => self@.vertical_spin(),
            }),
            -1 <= n <= 1,
    {
        let (negative, positive) = match axis {
            Axis::Horizontal => (self.spin_h_neg, self.spin_h_pos),
            Axis::Vertical => (self.spin_v_neg, self.spin_v_pos),
        };
        let up: i8 = if positive {
            1
        } else {
            0
        };
        let down: i8 = if negative {
            1
        } else {
            0
        };
        up - down
    }

    /// Turns the cube for `elapsed_ms` milliseconds and sets the view to the
    /// view of the angles reached.
    pub fn update(&mut self, elapsed_ms: u128)
        ensures
            final(self)@ == old(self)@.update(elapsed_ms as int),
            final(self)@.wf(),
    {
        proof {
            use_type_invariant(&*self);
        }
        let horizontal: i64 = self.net_spin(Axis::Horizontal) as i64;
        let vertical: i64 = self.net_spin(Axis::Vertical) as i64;
        let velocity: i64 = self.spin_velocity as i64;
        assert(-0x1_0000_0000 <= velocity * vertical <= 0x1_0000_0000) by (nonlinear_arith)
            requires
                0 <= velocity <= 0x1_0000_0000,
                -1 <= vertical <= 1,
        ;
        assert(-0x1_0000_0000 <= velocity * horizontal <= 0x1_0000_0000) by (nonlinear_arith)
            requires
                0 <= velocity <= 0x1_0000_0000,
                -1 <= horizontal <= 1,
        ;
        self.x_angle = advance(self.x_angle, velocity * vertical, elapsed_ms);
        self.y_angle = advance(self.y_angle, velocity * horizontal, elapsed_ms);
        self.view = view(self.x_angle, self.y_angle);
    }

    /// Takes the viewport of a `width` by `height` window. Returns whether
    /// the viewport was replaced: a window without area is ignored.
    pub fn recompute_projection(&mut self, width: u32, height: u32) -> (replaced: bool)
        ensures
            final(self)@ == old(self)@.recompute_projection(width, height),
            replaced == (width > 0 && height > 0),
            final(self)@.wf(),
    {
        proof {
            use_type_invariant(&*self);
        }
        match virtual_viewport(width, height) {
            Some(viewport) => {
                self.viewport = viewport;
                true
            },
            None => false,
        }
    }

    /// Whether the intent to spin along `axis` in `direction` is set.
    pub fn spin(&self, axis: Axis, direction: Direction) -> (on: bool)
        ensures
            on == self@.spin(axis, direction),
    {
        match (axis, direction) {
            (Axis::Horizontal, Direction::Negative) => self.spin_h_neg,
            (Axis::Horizontal, Direction::Positive) => self.spin_h_pos,
            (Axis::Vertical, Direction::Negative) => self.spin_v_neg,
            (Axis::Vertical, Direction::Positive) => self.spin_v_pos,
        }
    }

    /// Spin velocity in degrees per second.
    pub fn spin_velocity(&self) -> (v: u32)
        ensures
            v == self@.spin_velocity,
    {
        self.spin_velocity
    }

    /// The virtual viewport, a pair of positive fractions.
    pub fn viewport(&self) -> (v: VirtualViewport)
        ensures
            v == self@.viewport,
            v.wf(),
    {
        proof {
            use_type_invariant(self);
        }
        self.viewport
    }

    /// The view that is drawn.
    pub fn view_transform(&self) -> (v: ViewTransform)
        ensures
            v == self@.view_transform(),
    {
        self.view
    }

    /// The projection through the viewport as it is now.
    pub fn projection(&self) -> (p: Projection)
        ensures
            p == self@.projection(),
            p.viewport.wf(),
    {
        proof {
            use_type_invariant(self);
        }
        projection(self.viewport)
    }

    /// Turn about the x axis, in thousandths of a degree.
    pub fn x_angle(&self) -> (a: i32)
        ensures
            a == self@.x_angle,
            in_wrap_range(a as int),
    {
        proof {
            use_type_invariant(self);
        }
        self.x_angle
    }

    /// Turn about the y axis, in thousandths of a degree.
    pub fn y_angle(&self) -> (a: i32)
        ensures
            a == self@.y_angle,
            in_wrap_range(a as int),
    {
        proof {
            use_type_invariant(self);
        }
        self.y_angle
    }
}

} // verus!
