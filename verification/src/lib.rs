//! Orchestration of a two-stage GPU pipeline: a compute stage traces rays into
//! an off-screen texture and a render stage draws that texture on screen.
//!
//! The crate decides *what* is submitted each frame and in which order; the
//! surrounding program performs the device calls.
pub mod gpu;
pub mod ray_tracer;
