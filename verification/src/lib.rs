//! The verified core of a Monte-Carlo ray tracer.
//!
//! The library holds the parts of the tracer that decide rather than
//! calculate: which of several surfaces a ray meets first, which of a
//! sphere's two crossings counts as the hit, how a light path grows bounce by
//! bounce and when it ends, and in which order the pixels of an image are
//! rendered. It also holds the materials as data and keeps their parameters,
//! and the values of the colour channels, in their ranges. Vector algebra,
//! intersection formulas and colours are the caller's. Where the library has
//! to order scalars, such as two ray parameters, it is handed an integer key
//! for each of them (see [`scalar`]).
pub mod hittable;
pub mod hittable_list;
pub mod material;
pub mod path;
pub mod raster;
pub mod scalar;
pub mod sphere;
