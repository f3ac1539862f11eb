//! Records of a city, brought in from the systems that keep them, and the
//! geometry that goes with them.
//!
//! The geometry comes in three models and goes out in a fourth: an
//! analytical model for the spatial algorithms ([`analytic`]), a rendering
//! model for the map display ([`render`]), the flat model of shape files
//! ([`legacy`]), and GeoJSON for interchange ([`interchange`]). [`convert`]
//! takes a value from one to another, [`assembly`] puts the rings of a flat
//! polygon record together, and [`bounds`] finds one rectangle around many
//! parts.
//!
//! Coordinates are 64-bit binary floating-point numbers. The library carries
//! each one as its bit pattern, a `u64`, so that every conversion can be
//! stated and proved exactly; [`float`] gives those patterns their order.
pub mod analytic;
pub mod assembly;
pub mod bounds;
pub mod civil;
pub mod convert;
pub mod data;
pub mod error;
pub mod float;
pub mod import;
pub mod interchange;
pub mod legacy;
pub mod order;
pub mod parse;
pub mod paths;
pub mod record;
pub mod render;
pub mod text;
pub mod utils;

/// What most callers need.
pub mod prelude;
