//! Values whose validity is checked only when the caller asks for it.
pub mod dubious;
