//! Keyboard control of the controllable bodies.

use crate::components::controllable::Controllable;
use crate::fixed::Fixed;
use crate::vector::Vector3;
use vstd::prelude::*;

verus! {

/// The raw magnitude of the torque that a steering key sets: 0.3.
pub const STEER_TORQUE: i64 = 300_000;

/// The raw upward component of the impulse that the jump key gives: 2.
pub const JUMP_IMPULSE: i64 = 2_000_000;

/// The keys that the system reads: whether each steering key is held, and
/// whether the jump key went down in this frame.
#[derive(Clone, Copy, Debug, PartialEq, Eq, Structural)]
pub struct KeyInput {
    pub w: bool,
    pub s: bool,
    pub a: bool,
    pub d: bool,
    pub space_just_pressed: bool,
}

/// The torque about the body's own X axis of raw value `about_x`.
pub open spec fn pitch_torque(about_x: int) -> Vector3 {
    Vector3 { x: Fixed { raw: about_x as i64 }, y: Fixed { raw: 0 }, z: Fixed { raw: 0 } }
}

/// The torque about the body's own Z axis of raw value `about_z`.
pub open spec fn roll_torque(about_z: int) -> Vector3 {
    Vector3 { x: Fixed { raw: 0 }, y: Fixed { raw: 0 }, z: Fixed { raw: about_z as i64 } }
}

/// The torque on a body after the keys were read. A roll key decides before
/// a pitch key, `a` before `d` and `w` before `s`; with no steering key held
/// the torque stays as it was.
pub open spec fn steered_torque(keys: KeyInput, torque: Vector3) -> Vector3 {
    if keys.a {
        roll_torque(STEER_TORQUE as int)
    } else if keys.d {
        roll_torque(-STEER_TORQUE)
    } else if keys.w {
        pitch_torque(-STEER_TORQUE)
    } else if keys.s {
        pitch_torque(STEER_TORQUE as int)
    } else {
        torque
    }
}

/// The impulse that the keys ask for: straight up when the jump key went
/// down in this frame, none otherwise.
pub open spec fn jump_impulse(keys: KeyInput) -> Option<Vector3> {
    if keys.space_just_pressed {
        Some(Vector3 { x: Fixed { raw: 0 }, y: Fixed { raw: JUMP_IMPULSE }, z: Fixed { raw: 0 } })
    } else {
        None
    }
}

/// The torque on one body after the keys were read.
pub fn steer(keys: &KeyInput, torque: Vector3) -> (steered: Vector3)
    ensures
        steered == steered_torque(*keys, torque),
{
    let mut steered: Vector3 = torque;
    if keys.w {
        steered = Vector3::new(Fixed { raw: -STEER_TORQUE }, Fixed::zero(), Fixed::zero());
    } else if keys.s {
        steered = Vector3::new(Fixed { raw: STEER_TORQUE }, Fixed::zero(), Fixed::zero());
    }
    if keys.a {
        steered = Vector3::new(Fixed::zero(), Fixed::zero(), Fixed { raw: STEER_TORQUE });
    } else if keys.d {
        steered = Vector3::new(Fixed::zero(), Fixed::zero(), Fixed { raw: -STEER_TORQUE });
    }
    steered
}

/// One frame of keyboard control. Sets the torque of every controllable body
/// from the steering keys, and returns the impulse to give each of them, if
/// the jump key asks for one. The impulse is returned and not applied: how
/// far it moves a body depends on the body's mass.
pub fn ball_move_system(keys: &KeyInput, bodies: &mut Vec<Controllable>) -> (impulse: Option<Vector3>)
    ensures
        final(bodies)@.len() == old(bodies)@.len(),
        forall|k: int|
            0 <= k < old(bodies)@.len() ==> (#[trigger] final(bodies)@[k]).torque == steered_torque(
                *keys,
                old(bodies)@[k].torque,
            ),
        impulse == jump_impulse(*keys),
{
    let count: usize = bodies.len();
    let mut i: usize = 0;
    while i < count
        invariant
            i <= count,
            count == bodies@.len(),
            count == old(bodies)@.len(),
            forall|k: int|
                0 <= k < i ==> (#[trigger] bodies@[k]).torque == steered_torque(
                    *keys,
                    old(bodies)@[k].torque,
                ),
            forall|k: int| i <= k < count ==> #[trigger] bodies@[k] == old(bodies)@[k],
        decreases count - i,
    {
        let body: Controllable = bodies[i];
        bodies.set(i, Controllable { torque: steer(keys, body.torque) });
        i = i + 1;
    }
    if keys.space_just_pressed {
        Some(Vector3::new(Fixed::zero(), Fixed { raw: JUMP_IMPULSE }, Fixed::zero()))
    } else {
        None
    }
}

} // verus!
