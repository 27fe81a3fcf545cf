//! The verified core of a free-flying camera: which intents the held keys add
//! up to, and which steps one frame applies to the camera for them.
//!
//! The numbers are the renderer's business. It hands key events to a
//! [`CameraController`], asks it once per frame for the steps to apply, and
//! turns each [`Step`] into a change of its own eye and target.

pub mod controller;
pub mod intent;
pub mod laws;
pub mod motion;
pub mod pose;

pub use controller::CameraController;
pub use intent::Intent;
pub use motion::{Axis, Step};
