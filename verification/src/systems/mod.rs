//! The per-frame rules.

pub mod camera;
pub mod input;
pub mod physics;

pub use self::camera::camera_movement_system;
pub use self::input::ball_move_system;
pub use self::physics::gravity_system;
