//! Core of an image-annotation viewer: a clamped zoom/pan viewport transform,
//! the bidirectional mapping between screen space and image-pixel space, and a
//! deduplicated, insertion-ordered store of annotated points.
//!
//! All coordinates and scale factors are fixed-point integers counted in
//! milliunits: an `i64` value of `1000` stands for one screen point, one image
//! pixel, or a scale factor of one. This keeps every quantity a plain integer,
//! makes point identity exact, and lets every operation carry a precise
//! contract. The hosting UI converts its own coordinate types to and from
//! milliunits at the boundary.

pub mod geom;
pub mod math;
pub mod points;
pub mod viewport;
pub mod mapping;
pub mod store;
pub mod driver;
