//! A first-person character controller on fixed-point numbers.
//!
//! Each frame the controller turns input into movement actions, turns the
//! view, decides afresh which characters stand on the ground, applies the
//! actions to the velocities, damps the motion in the ground plane, and
//! places the cameras. The physics engine, the renderer and the input devices
//! stay outside: they hand in plain values and take plain values back.
//!
//! Every quantity (angles in radians, speeds, accelerations, seconds) is a
//! [`scalar::Scalar`]: a signed count of billionths. Sums saturate, products
//! round toward zero, and every contract says so to the last digit.
//!
//! The up axis is `y`. Forward is the negative `z` axis, strafing to the right
//! the positive `x` axis, for movement and camera alike.

pub mod angle;
pub mod camera;
pub mod character;
pub mod controller;
pub mod cursor;
pub mod grounded;
pub mod keybinds;
pub mod look;
pub mod math;
pub mod movement;
pub mod movement_laws;
pub mod plugin;
pub mod scalar;
