//! Deterministic per-frame motion for a small 3D scene: one controllable cube
//! under gravity and friction, and a camera that follows it and looks around
//! with the mouse.
//!
//! Every real quantity is a fixed-point number held in an `i64`, counted in
//! millionths: lengths in units, velocities in units per second, angles in
//! radians (see [`fixed`]). A frame is one sixtieth of a second.
//!
//! A frame runs four stages, in this order: the input mapper ([`input`]), the
//! look controller ([`look`]), the follow controller ([`follow`]) and the
//! integrator ([`integrator`]). [`scene`] holds the entities and runs the
//! stages over them. The host reads keys, mouse and window, hands them in as
//! plain values, and turns yaw and pitch into rotations.

pub mod cursor;
pub mod fixed;
pub mod follow;
pub mod input;
pub mod integrator;
pub mod look;
pub mod scene;
pub mod settings;
pub mod vector;
