//! Package manifests, their dependencies and the store.

pub mod hash;
pub mod install;
pub mod manifest;
pub mod resolver;
pub mod storage;
