//! Core of an Ion Schema Language engine's value-level machinery: typed
//! ranges with inclusive/exclusive boundaries and `min`/`max` sentinels,
//! the plain-value model of Ion elements the ranges are parsed from and
//! matched against, and the violation trees reported by validation.

pub mod element;
pub mod ion_path;
pub mod isl;
pub mod result;
pub mod text;
pub mod violation;
