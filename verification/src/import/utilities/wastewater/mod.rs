//! The assets of the wastewater utility.
pub mod device;
pub mod event;
pub mod junction;
pub mod line;
pub mod manhole_card;
pub mod owner;
