//! The steps that bring assets stored in an older layout into the current
//! one.

pub mod v1;
pub mod v2;
