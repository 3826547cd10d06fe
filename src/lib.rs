pub mod bounce;
pub mod image;
pub mod raytracer;

pub use bounce::{BounceAction, HitKind, RayBouncer};
pub use image::rgba_buffer;
pub use raytracer::Raytracer;
