//! The components of a layout.

pub mod splits;
