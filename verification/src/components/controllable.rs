//! The body that the keyboard steers.

use crate::vector::Vector3;
use vstd::prelude::*;

verus! {

/// A body that answers to the keyboard, with the torque that acts on it.
#[derive(Clone, Copy, Debug, PartialEq, Eq, Structural)]
pub struct Controllable {
    pub torque: Vector3,
}

} // verus!
