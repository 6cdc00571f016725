//! Rules of a small physics scene, in fixed-point arithmetic: a camera that
//! orbits, pans and zooms about a focus point, point-source gravity between
//! bodies, and keyboard control of a body.
//!
//! Each rule is a function from plain values to plain values. The program
//! around the library reads the input devices and the scene, hands the
//! values in, and carries out what comes back. Numbers are [`fixed::Fixed`]:
//! millionths, with saturating arithmetic that rounds toward zero.

pub mod components;
pub mod fixed;
pub mod root;
pub mod systems;
pub mod vector;
