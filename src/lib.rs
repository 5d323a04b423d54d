//! A minimal ray-casting renderer: the integer side of the pipeline.
//!
//! The pixel buffer, the pixel grid that rays are cast through, the
//! resolution of mesh faces into vertex indices, the choice of the nearest
//! hit of each ray, and the assembly of the final image from those hits.
pub mod pixel;
pub mod grid;
pub mod scene;
pub mod frame;
pub mod nearest;
