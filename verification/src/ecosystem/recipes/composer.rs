//! The Composer recipe (PHP): the version lives in `composer.json`. Only
//! reading the version is supported.

use std::path::PathBuf;

use vstd::prelude::*;

use crate::ecosystem::types::ReleaseKind;

verus! {

/// The part of `composer.json` that is read: its `version` member.
pub struct PackageVersion {
    pub version: String,
}

/// A PHP project whose version lives in `composer.json`.
pub struct ComposerEcosystem<'a> {
    directory: PathBuf,
    release_type: &'a ReleaseKind,
}

impl<'a> ComposerEcosystem<'a> {
    /// The project directory.
    pub closed spec fn directory(&self) -> PathBuf {
        self.directory
    }

    /// The kind of release being made.
    pub closed spec fn release_type(&self) -> ReleaseKind {
        *self.release_type
    }

    /// A recipe for the project in `directory`, making a release of the
    /// given kind.
    pub fn new(directory: PathBuf, release_type: &'a ReleaseKind) -> (r: Self)
        ensures
            r.directory() == directory,
            r.release_type() == *release_type,
    {
        ComposerEcosystem { directory, release_type }
    }

    /// The project directory.
    pub fn get_directory(&self) -> (r: &PathBuf)
        ensures
            *r == self.directory(),
    {
        &self.directory
    }

    /// The kind of release being made.
    pub fn get_release_type(&self) -> (r: &ReleaseKind)
        ensures
            *r == self.release_type(),
    {
        self.release_type
    }

    /// The manifest's file name in the project directory.
    pub fn manifest_file_name() -> (r: &'static str)
        ensures
            r@ == "composer.json"@,
    {
        "composer.json"
    }

    /// The current version: the `version` member of the parsed manifest.
    pub fn current_version_of(package: PackageVersion) -> (r: String)
        ensures
            r@ == package.version@,
    {
        package.version
    }
}

} // verus!
