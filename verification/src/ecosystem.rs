//! Ecosystems whose manifests carry a release version: the release kinds,
//! the version arithmetic, and one recipe per supported package manager.

pub mod next_version;
pub mod types;
pub mod recipes;
