//! The vector types of the library.
pub mod vec3;

pub use vec3::Vec3;
