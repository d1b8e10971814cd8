//! The values that settings take, and how a component describes its
//! settings.

pub mod color;
pub mod field;
pub mod value;

pub use color::{Color, Gradient, ListGradient};
pub use field::{Field, SettingsDescription};
pub use value::{ColumnKind, Value};
