//! The state of a camera that orbits a focus point.

use crate::fixed::{Fixed, SCALE};
use crate::vector::Vector3;
use vstd::prelude::*;

verus! {

/// The raw value of the smallest radius that zooming leaves: 0.05.
pub const MIN_RADIUS: i64 = 50_000;

/// The raw value of the radius of a camera made by `default`: 5.
pub const DEFAULT_RADIUS: i64 = 5_000_000;

/// A camera that looks at `focus` from the distance `radius`.
/// `upside_down` records whether the camera's own up direction pointed
/// downward in the world when orbiting last started or ended.
#[derive(Clone, Copy, Debug, PartialEq, Eq, Structural)]
pub struct PanOrbitCamera {
    pub focus: Vector3,
    pub radius: Fixed,
    pub upside_down: bool,
}

impl PanOrbitCamera {
    /// Whether the camera keeps its distance: the radius is no less than
    /// the smallest radius.
    pub open spec fn wf(self) -> bool {
        self.radius.raw >= MIN_RADIUS
    }

    /// Where the camera stands: the focus, moved by the radius along
    /// `backward`, the camera's own depth axis seen in the world.
    pub open spec fn spec_position(self, backward: Vector3) -> Vector3 {
        self.focus.plus(backward.scaled(self.radius))
    }

    /// Where the camera stands, given its depth axis `backward`.
    #[verifier::when_used_as_spec(spec_position)]
    pub fn position(self, backward: Vector3) -> (eye: Vector3)
        ensures
            eye == self.spec_position(backward),
    {
        self.focus.plus(backward.scaled(self.radius))
    }
}

impl Default for PanOrbitCamera {
    /// A camera that looks at the origin from the default radius, upright.
    fn default() -> (camera: PanOrbitCamera)
        ensures
            camera.focus == Vector3::zero(),
            camera.radius.raw == DEFAULT_RADIUS,
            !camera.upside_down,
            camera.wf(),
    {
        PanOrbitCamera {
            focus: Vector3::zero(),
            radius: Fixed { raw: DEFAULT_RADIUS },
            upside_down: false,
        }
    }
}

} // verus!
