//! Rendering of a signed-distance scene by sphere tracing.

pub mod bytes;
pub mod march;
pub mod ray;
pub mod render;
pub mod sdf;
pub mod vector;
