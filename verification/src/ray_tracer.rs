//! Scene-side definitions: the output image and vector arithmetic.
pub mod camera;
pub mod vectors;
