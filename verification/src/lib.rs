//! Guidance core of an autonomous fighter: intercept solving, target
//! tracking, priority scoring, heading control and state estimation.
pub mod scalar;
pub mod value;
pub mod vec2;
pub mod intercept;
pub mod mat2;
pub mod pid;
pub mod target;
pub mod tracked_target;
pub mod fighter;
pub mod mat4;
pub mod kalman;
