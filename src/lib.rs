//! A path-tracing renderer's discrete core: the text image format, the
//! row-major pixel image a render fills, the control of the recursive
//! integrator, and the choices made while populating a scene.

pub mod ppm;
pub mod image;
pub mod path;
pub mod camera;
pub mod scene;
