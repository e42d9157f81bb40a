//! Numeric groundwork for a small ray tracer: a three-component vector, its
//! exact arithmetic on integer components, and the raster of a gradient image.

pub mod exact;
pub mod laws;
pub mod raster;
pub mod text;
pub mod vec3;
