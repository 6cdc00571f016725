//! Orbit, pan and zoom of a camera from one frame of pointer input.

use crate::components::camera::{PanOrbitCamera, MIN_RADIUS};
use crate::fixed::Fixed;
use crate::vector::{Vector2, Vector3};
use vstd::prelude::*;

verus! {

/// The raw value of a half turn in radians.
pub const PI: i64 = 3_141_593;

/// The raw value of a full turn in radians.
pub const TAU: i64 = 6_283_185;

/// The raw value of the share of the radius that one step of scroll takes:
/// 0.2.
pub const ZOOM_RATE: i64 = 200_000;

/// What the pointer did in one frame: the motion and the scroll, each summed
/// over the frame, which of the two buttons are held, and whether the orbit
/// button went down or up in this frame.
#[derive(Clone, Copy, Debug, PartialEq, Eq, Structural)]
pub struct MouseInput {
    pub motion: Vector2,
    pub scroll: Fixed,
    pub pan_held: bool,
    pub orbit_held: bool,
    pub orbit_changed: bool,
}

/// What the camera sees through: the window's width and height, the field
/// of view, the aspect ratio, and the camera's own right and up directions
/// as they lie in the world.
#[derive(Clone, Copy, Debug, PartialEq, Eq, Structural)]
pub struct Viewport {
    pub window: Vector2,
    pub fov: Fixed,
    pub aspect_ratio: Fixed,
    pub right: Vector3,
    pub up: Vector3,
}

/// What a frame asks of the camera's orientation and position. The new
/// orientation is the yaw turn, then the old orientation, then the pitch
/// turn; `moved` tells whether the camera's place has to be worked out anew.
#[derive(Clone, Copy, Debug, PartialEq, Eq, Structural)]
pub struct CameraMotion {
    pub yaw: Fixed,
    pub pitch: Fixed,
    pub moved: bool,
}

/// The sum of the pointer motions of one frame, in the order they came.
pub open spec fn motion_sum(events: Seq<Vector2>) -> Vector2
    decreases events.len(),
{
    if events.len() == 0 {
        Vector2::zero()
    } else {
        motion_sum(events.drop_last()).plus(events.last())
    }
}

/// The sum of the scroll steps of one frame, in the order they came.
pub open spec fn scroll_sum(events: Seq<Fixed>) -> Fixed
    decreases events.len(),
{
    if events.len() == 0 {
        Fixed { raw: 0 }
    } else {
        scroll_sum(events.drop_last()).plus(events.last())
    }
}

/// The sum of the pointer motions of one frame.
pub fn accumulated_motion(events: &Vec<Vector2>) -> (total: Vector2)
    ensures
        total == motion_sum(events@),
{
    let mut total: Vector2 = Vector2::zero();
    let mut i: usize = 0;
    while i < events.len()
        invariant
            i <= events@.len(),
            total == motion_sum(events@.take(i as int)),
        decreases events@.len() - i,
    {
        proof {
            assert(events@.take(i + 1).drop_last() == events@.take(i as int));
        }
        total = total.plus(events[i]);
        i = i + 1;
    }
    proof {
        assert(events@.take(i as int) == events@);
    }
    total
}

/// The sum of the scroll steps of one frame.
pub fn accumulated_scroll(events: &Vec<Fixed>) -> (total: Fixed)
    ensures
        total == scroll_sum(events@),
{
    let mut total: Fixed = Fixed::zero();
    let mut i: usize = 0;
    while i < events.len()
        invariant
            i <= events@.len(),
            total == scroll_sum(events@.take(i as int)),
        decreases events@.len() - i,
    {
        proof {
            assert(events@.take(i + 1).drop_last() == events@.take(i as int));
        }
        total = total.plus(events[i]);
        i = i + 1;
    }
    proof {
        assert(events@.take(i as int) == events@);
    }
    total
}

impl MouseInput {
    /// Whether the frame turns the camera or shifts its focus, and so
    /// divides by the window's size.
    pub open spec fn spec_uses_window(self) -> bool {
        (self.pan_held || self.orbit_held) && !self.motion.is_zero()
    }

    /// Whether the frame turns the camera or shifts its focus.
    #[verifier::when_used_as_spec(spec_uses_window)]
    pub fn uses_window(self) -> (r: bool)
        ensures
            r == self.spec_uses_window(),
    {
        (self.pan_held || self.orbit_held) && !self.motion.is_zero()
    }

    /// The input of one frame from what the pointer reported in it: the
    /// motions and scroll steps in the order they came, which buttons are
    /// held, and whether the orbit button went down or came up.
    pub fn gather(
        motions: &Vec<Vector2>,
        scrolls: &Vec<Fixed>,
        pan_held: bool,
        orbit_held: bool,
        orbit_just_pressed: bool,
        orbit_just_released: bool,
    ) -> (input: MouseInput)
        ensures
            input.motion == motion_sum(motions@),
            input.scroll == scroll_sum(scrolls@),
            input.pan_held == pan_held,
            input.orbit_held == orbit_held,
            input.orbit_changed == (orbit_just_pressed || orbit_just_released),
    {
        MouseInput {
            motion: accumulated_motion(motions),
            scroll: accumulated_scroll(scrolls),
            pan_held,
            orbit_held,
            orbit_changed: orbit_just_pressed || orbit_just_released,
        }
    }
}

/// The motion that turns the camera: all of it while the pan button is held.
pub open spec fn rotation_move(input: MouseInput) -> Vector2 {
    if input.pan_held {
        input.motion
    } else {
        Vector2::zero()
    }
}

/// The motion that shifts the focus: all of it while the orbit button is
/// held and the pan button is not.
pub open spec fn pan_move(input: MouseInput) -> Vector2 {
    if !input.pan_held && input.orbit_held {
        input.motion
    } else {
        Vector2::zero()
    }
}

/// The upside-down mark after the frame: taken anew from the up direction
/// where the orbit button went down or up, kept otherwise. The camera is
/// upside down when its up direction does not point upward in the world.
pub open spec fn upside_down_after(camera: PanOrbitCamera, input: MouseInput, view: Viewport) -> bool {
    if input.orbit_changed {
        view.up.y.raw <= 0
    } else {
        camera.upside_down
    }
}

/// The yaw in radians: the share `dx / width` of a full turn, reversed for
/// a camera that is upside down.
pub open spec fn yaw_angle(dx: Fixed, width: Fixed, upside_down: bool) -> Fixed {
    let angle = dx.ratio(Fixed { raw: TAU }, width);
    if upside_down {
        angle.negated()
    } else {
        angle
    }
}

/// The pitch in radians: the share `dy / height` of a half turn.
pub open spec fn pitch_angle(dy: Fixed, height: Fixed) -> Fixed {
    dy.ratio(Fixed { raw: PI }, height)
}

/// The focus after a pan. The motion is scaled by the field of view (and
/// the aspect ratio, across) over the window's size; the focus moves against
/// the motion along `right`, with it along `up`, in proportion to the radius.
pub open spec fn panned_focus(camera: PanOrbitCamera, pan: Vector2, view: Viewport) -> Vector3 {
    let across = pan.x.ratio(view.fov.times(view.aspect_ratio), view.window.x);
    let along = pan.y.ratio(view.fov, view.window.y);
    let shift = view.right.scaled(across.negated()).plus(view.up.scaled(along));
    camera.focus.plus(shift.scaled(camera.radius))
}

/// The radius after a scroll: `radius - scroll * radius * 0.2`, and no less
/// than the smallest radius.
pub open spec fn zoomed_radius(radius: Fixed, scroll: Fixed) -> Fixed {
    radius.minus(scroll.times(radius).times(Fixed { raw: ZOOM_RATE })).at_least(
        Fixed { raw: MIN_RADIUS },
    )
}

/// The camera after the frame.
pub open spec fn camera_after(camera: PanOrbitCamera, input: MouseInput, view: Viewport) -> PanOrbitCamera {
    PanOrbitCamera {
        focus: if pan_move(input).is_zero() {
            camera.focus
        } else {
            panned_focus(camera, pan_move(input), view)
        },
        radius: if input.scroll.raw == 0 {
            camera.radius
        } else {
            zoomed_radius(camera.radius, input.scroll)
        },
        upside_down: upside_down_after(camera, input, view),
    }
}

/// What the frame asks of the camera's orientation and position.
pub open spec fn motion_of(camera: PanOrbitCamera, input: MouseInput, view: Viewport) -> CameraMotion {
    let turn = rotation_move(input);
    if turn.is_zero() {
        CameraMotion {
            yaw: Fixed { raw: 0 },
            pitch: Fixed { raw: 0 },
            moved: !pan_move(input).is_zero() || input.scroll.raw != 0,
        }
    } else {
        CameraMotion {
            yaw: yaw_angle(turn.x, view.window.x, upside_down_after(camera, input, view)),
            pitch: pitch_angle(turn.y, view.window.y),
            moved: true,
        }
    }
}

/// One frame of camera control.
///
/// The upside-down mark is renewed where the orbit button went down or up.
/// Motion with the pan button held turns the camera: the result carries the
/// yaw and pitch. Motion with only the orbit button held shifts the focus.
/// Scroll changes the radius, which never falls below the smallest radius;
/// a camera that kept its distance before the frame keeps it after.
/// A frame without any of these leaves focus and radius as they were and
/// asks for nothing.
///
/// The window must have a width and a height other than zero in a frame
/// that turns or shifts the camera.
pub fn camera_movement_system(camera: &mut PanOrbitCamera, input: &MouseInput, view: &Viewport) -> (motion: CameraMotion)
    requires
        input.uses_window() ==> view.window.x.raw != 0 && view.window.y.raw != 0,
    ensures
        *final(camera) == camera_after(*old(camera), *input, *view),
        motion == motion_of(*old(camera), *input, *view),
        input.scroll.raw != 0 ==> final(camera).radius.raw >= MIN_RADIUS,
        old(camera).wf() ==> final(camera).wf(),
        input.motion.is_zero() && input.scroll.raw == 0 ==> {
            &&& final(camera).focus == old(camera).focus
            &&& final(camera).radius == old(camera).radius
            &&& motion == (CameraMotion { yaw: Fixed { raw: 0 }, pitch: Fixed { raw: 0 }, moved: false })
        },
{
    let mut pan: Vector2 = Vector2::zero();
    let mut turn: Vector2 = Vector2::zero();
    if input.pan_held {
        turn = input.motion;
    } else if input.orbit_held {
        pan = input.motion;
    }
    if input.orbit_changed {
        camera.upside_down = view.up.y.raw <= 0;
    }
    let mut motion = CameraMotion { yaw: Fixed::zero(), pitch: Fixed::zero(), moved: false };
    if !turn.is_zero() {
        let angle: Fixed = turn.x.ratio(Fixed { raw: TAU }, view.window.x);
        motion.yaw = if camera.upside_down {
            angle.negated()
        } else {
            angle
        };
        motion.pitch = turn.y.ratio(Fixed { raw: PI }, view.window.y);
        motion.moved = true;
    } else if !pan.is_zero() {
        let across: Fixed = pan.x.ratio(view.fov.times(view.aspect_ratio), view.window.x);
        let along: Fixed = pan.y.ratio(view.fov, view.window.y);
        let shift: Vector3 = view.right.scaled(across.negated()).plus(view.up.scaled(along));
        camera.focus = camera.focus.plus(shift.scaled(camera.radius));
        motion.moved = true;
    }
    if !input.scroll.is_zero() {
        let step: Fixed = input.scroll.times(camera.radius).times(Fixed { raw: ZOOM_RATE });
        camera.radius = camera.radius.minus(step).at_least(Fixed { raw: MIN_RADIUS });
        motion.moved = true;
    }
    motion
}

} // verus!
