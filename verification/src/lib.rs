//! The verified core of a small OpenGL demo that spins a textured quad in a
//! window.
//!
//! Everything that talks to the GPU, the window system or the clock lives in
//! the program around this crate. What is left, and proved here, is the data
//! that program hands to the GPU and the decisions it takes between calls.

pub mod geometry;
pub mod input;
pub mod program;
pub mod texture;
