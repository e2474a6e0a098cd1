//! A two-dimensional scene with one camera and one player sprite.
//!
//! The scene is started once and then advanced one tick at a time. The
//! camera either drifts at a constant velocity or follows the keyboard; the
//! player never moves. All lengths are fixed-point values in thousandths of a
//! world unit and all angles are in milliradians, so every update is exact.
pub mod entities;
pub mod geometry;
pub mod input;
pub mod laws;
pub mod scene;

pub use entities::{
    add_camera, add_player, keyboard_pose, move_camera, respond_to_keyboard, velocity_pose,
    Camera, Player, PAN_STEP, PLAYER_SCALE_X, PLAYER_SCALE_Y, ROTATION_STEP,
};
pub use geometry::{Vec2, MILLIS_PER_UNIT};
pub use input::{Key, KeyInput};
pub use scene::{create_app, create_app_with_velocity, App, CameraControl};
