//! The package and plugin core of a game launcher.
//!
//! `packages` reads package manifests, lists what a package needs, and
//! decides step by step how a content-addressed store takes it in.  `games`
//! reads the manifest of a game integration and runs its script in an
//! interpreter of its own, behind a fixed set of entry points.  Reading
//! files and talking to servers is left to the caller: the library is handed
//! what was read and says what to do next.

pub mod common;
pub mod games;
pub mod packages;
