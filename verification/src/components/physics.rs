//! Bodies that pull and bodies that are pulled.

use crate::fixed::Fixed;
use crate::vector::Vector3;
use vstd::prelude::*;

verus! {

/// A point source of gravity: where it is, and its strength `f`, the
/// gravitational constant times its mass.
#[derive(Clone, Copy, Debug, PartialEq, Eq, Structural)]
pub struct GravitationalBody {
    pub position: Vector3,
    pub f: Fixed,
}

/// A body that gravity acts on: where it is, and the force that has been
/// gathered on it for the current frame.
#[derive(Clone, Copy, Debug, PartialEq, Eq, Structural)]
pub struct AttractedBody {
    pub position: Vector3,
    pub force: Vector3,
}

} // verus!
