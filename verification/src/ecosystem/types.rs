//! The kinds of release and the ecosystems that can be detected in a project.

use vstd::prelude::*;

verus! {

#[verifier::external_type_specification]
#[verifier::external_body]
pub struct ExPathBuf(std::path::PathBuf);

/// Which component of a `major.minor.patch` version a release increments.
#[derive(Debug, Clone, Copy, PartialEq, Eq, Structural)]
pub enum ReleaseKind {
    Major,
    Minor,
    Patch,
}

/// The name of a release kind on the command line.
pub open spec fn spec_release_kind_name(kind: ReleaseKind) -> Seq<char> {
    match kind {
        ReleaseKind::Major => "major"@,
        ReleaseKind::Minor => "minor"@,
        ReleaseKind::Patch => "patch"@,
    }
}

/// The help text of a release kind on the command line.
pub open spec fn spec_release_kind_help(kind: ReleaseKind) -> Seq<char> {
    match kind {
        ReleaseKind::Major => "Bump major version (X.0.0)"@,
        ReleaseKind::Minor => "Bump minor version (x.Y.0)"@,
        ReleaseKind::Patch => "Bump patch version (x.y.Z)"@,
    }
}

impl ReleaseKind {
    /// Every release kind, in the order they are listed.
    pub fn value_variants() -> (r: Vec<ReleaseKind>)
        ensures
            r@ == seq![ReleaseKind::Major, ReleaseKind::Minor, ReleaseKind::Patch],
    {
        let mut v: Vec<ReleaseKind> = Vec::new();
        v.push(ReleaseKind::Major);
        v.push(ReleaseKind::Minor);
        v.push(ReleaseKind::Patch);
        assert(v@ =~= seq![ReleaseKind::Major, ReleaseKind::Minor, ReleaseKind::Patch]);
        v
    }

    /// The release kind's name on the command line.
    pub fn name(&self) -> (r: &'static str)
        ensures
            r@ == spec_release_kind_name(*self),
    {
        match self {
            ReleaseKind::Major => "major",
            ReleaseKind::Minor => "minor",
            ReleaseKind::Patch => "patch",
        }
    }

    /// The release kind's help text on the command line.
    pub fn help(&self) -> (r: &'static str)
        ensures
            r@ == spec_release_kind_help(*self),
    {
        match self {
            ReleaseKind::Major => "Bump major version (X.0.0)",
            ReleaseKind::Minor => "Bump minor version (x.Y.0)",
            ReleaseKind::Patch => "Bump patch version (x.y.Z)",
        }
    }
}

/// How an external command ended: it could not be started (with the reason),
/// or it ran and exited, successfully or not (with its status as displayed).
pub enum CommandOutcome {
    SpawnFailed(String),
    Exited { success: bool, status: String },
}

/// The package ecosystems this tool can release.
#[derive(Debug, Clone, Copy, PartialEq, Eq, Structural)]
pub enum EcosystemType {
    Cargo,
    Npm,
}

/// Which ecosystem a directory belongs to, given which manifests it holds:
/// a Cargo manifest wins over an npm one.
pub open spec fn spec_detect(has_cargo_manifest: bool, has_npm_manifest: bool) -> Option<EcosystemType> {
    if has_cargo_manifest {
        Some(EcosystemType::Cargo)
    } else if has_npm_manifest {
        Some(EcosystemType::Npm)
    } else {
        None
    }
}

impl EcosystemType {
    /// Picks the ecosystem of a directory from whether it holds a
    /// `Cargo.toml` and whether it holds a `package.json`.
    pub fn detect(has_cargo_manifest: bool, has_npm_manifest: bool) -> (r: Option<Self>)
        ensures
            r == spec_detect(has_cargo_manifest, has_npm_manifest),
    {
        if has_cargo_manifest {
            Some(EcosystemType::Cargo)
        } else if has_npm_manifest {
            Some(EcosystemType::Npm)
        } else {
            None
        }
    }
}

} // verus!
