//! Release automation for Cargo and npm projects: bumps the version in the
//! project manifest, plans the lockfile refresh, and prepares the commit and
//! annotated tag contents that mark a release.

pub mod text;
pub mod ecosystem;
pub mod errors;
pub mod git;
pub mod credentials;
pub mod signing;
