//! How the Cairo value types are laid out in the serde data model.
pub mod matrix;
pub mod rectangle;
pub mod rectangle_int;
pub mod path_segment;
pub mod path;
pub mod pattern;
pub mod solid_pattern;
pub mod gradient;
pub mod linear_gradient;
pub mod radial_gradient;
pub mod mesh;
pub mod region;
