//! The assets of the utilities.
pub mod cctv;
pub mod entity;
pub mod wastewater;
