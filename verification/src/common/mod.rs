//! What both halves of the library stand on.

pub mod json;
pub mod text;
