//! Decision logic, indexing and output framing of a path tracer that renders
//! spheres under a sky gradient.
//!
//! The floating-point geometry, the materials' vector arithmetic and the
//! camera live beside this library; it holds what can be stated and proved
//! over integers: how a path ends, which hit is the nearest and at which root,
//! how glass chooses between reflection and refraction, which random draws
//! each sample owns, the order of the pixels and the text of the image.
pub mod trace;
pub mod nearest;
pub mod scatter;
pub mod raster;
pub mod ppm;

pub use trace::{Action, Event, PathTracer, Terminal};
pub use nearest::{choose_root, distance_key, nearest_hit, Root};
pub use scatter::{dielectric_bounce, Bounce};
pub use raster::ImageLayout;
pub use ppm::{header, pixel_line};
