//! Geometry, selection and colour-encoding core of a 2D point-cloud viewer.

pub mod scalar;
pub mod points;
pub mod camera;
pub mod selection;
pub mod vertex;
pub mod color;
pub mod hover;
pub mod coloring;
pub mod interaction;
pub mod render;
pub mod palette;
