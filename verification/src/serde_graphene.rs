//! How the Graphene geometry types are laid out in the serde data model.
pub mod box_;
pub mod euler;
pub mod matrix;
pub mod plane;
pub mod point;
pub mod point3d;
pub mod quad;
pub mod quaternion;
pub mod ray;
pub mod rect;
pub mod size;
pub mod sphere;
pub mod triangle;
pub mod vec2;
pub mod vec3;
pub mod vec4;
