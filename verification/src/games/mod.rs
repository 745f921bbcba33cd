//! Game integrations.

pub mod integrations;
pub mod manifest;
