//! Scene plan and camera control for a small 3D demo, in fixed-point
//! arithmetic.
//!
//! The library decides *what* the scene holds and *how far* the camera turns
//! and moves in a frame. Quantities are [`fixed::Fixed`] numbers, angles are
//! in radians, and positions on a circle are kept in cylindrical form, so no
//! trigonometry is needed here: turning an angle into a quaternion or a point
//! is left to the rendering side.

pub mod fixed;
pub mod first_person;
pub mod input;
pub mod orbit;
pub mod scene;

pub use first_person::{first_person_camera_system, FirstPersonCamera};
pub use orbit::camera_rotation_system;
pub use scene::{load_gltf, setup, MyAssetPack};
