//! The data that the systems read and write.

pub mod camera;
pub mod controllable;
pub mod physics;

pub use self::camera::PanOrbitCamera;
pub use self::controllable::Controllable;
pub use self::physics::{AttractedBody, GravitationalBody};
