//! Regional data of the Bureau of Economic Analysis.
pub mod bea;
pub mod cainc5n_code_keys;

pub use bea::{BeaColumns, BeaData, BeaDataRaw, BeaDatum, BeaDatumRaw};
pub use cainc5n_code_keys::{deserialize_code_keys, match_code_key, Cainc5nCodeKey};
