//! The Cargo recipe: the version lives in `[package]` of `Cargo.toml`, and
//! `cargo check --workspace` refreshes `Cargo.lock` after a bump.

use std::path::PathBuf;

use vstd::prelude::*;

use crate::ecosystem::next_version::{
    bump_overflows, get_next_version, spec_bump_overflows, spec_next_version,
};
use crate::ecosystem::recipes::toml_document::{
    parse_toml, render_toml, set_string_at, string_at, toml_parse_failure, toml_render,
    toml_string_at,
};
use crate::ecosystem::types::{CommandOutcome, ReleaseKind};
use crate::errors::{
    pair_result_view, strings_result_view, strings_view, string_result_view, AppError, ErrorView,
};

verus! {

/// The version of a Cargo manifest text, when the text parses and
/// `package.version` is a string.
pub open spec fn cargo_manifest_version(text: Seq<char>) -> Option<Seq<char>> {
    if toml_parse_failure(text) is None {
        toml_string_at(text, Seq::empty(), "package"@, "version"@)
    } else {
        None
    }
}

/// What reading the current version from `Cargo.toml` at `path` with
/// contents `text` gives.
pub open spec fn spec_cargo_current_version(path: Seq<char>, text: Seq<char>) -> Result<
    Seq<char>,
    ErrorView,
> {
    match toml_parse_failure(text) {
        Some(reason) => Err(ErrorView::ParseFile { path, reason }),
        None => match toml_string_at(text, Seq::empty(), "package"@, "version"@) {
            Some(v) => Ok(v),
            None => Err(ErrorView::MissingField { field: "package.version"@, path }),
        },
    }
}

/// Whether bumping the manifest text would overflow its version.
pub open spec fn cargo_bump_overflows(text: Seq<char>, kind: ReleaseKind) -> bool {
    match cargo_manifest_version(text) {
        Some(v) => spec_bump_overflows(v, kind),
        None => false,
    }
}

/// What bumping `Cargo.toml` at `path` with contents `text` gives: the next
/// version and the manifest with `package.version` replaced by it.
pub open spec fn spec_cargo_bump(path: Seq<char>, text: Seq<char>, kind: ReleaseKind) -> Result<
    (Seq<char>, Seq<char>),
    ErrorView,
> {
    match spec_cargo_current_version(path, text) {
        Err(e) => Err(e),
        Ok(current) => {
            let next = spec_next_version(current, kind);
            Ok((next, toml_render(text, seq![("package"@, "version"@, next)])))
        },
    }
}

/// Whether the rewritten manifest `out` reads back as `text` with its
/// version set to `next`: it parses, `package.version` is `next`, and every
/// other string entry of a top-level table is as in `text`.
pub open spec fn rereads_with_package_version(text: Seq<char>, out: Seq<char>, next: Seq<char>) -> bool {
    &&& toml_parse_failure(out) is None
    &&& cargo_manifest_version(out) == Some(next)
    &&& forall|t: Seq<char>, k: Seq<char>|
        (t, k) != ("package"@, "version"@) ==> #[trigger] toml_string_at(out, Seq::empty(), t, k)
            == toml_string_at(text, Seq::empty(), t, k)
}

/// The lockfile refresh command as shown in error messages.
pub open spec fn cargo_command_line() -> Seq<char> {
    "cargo check --workspace"@
}

/// The files a Cargo release stages.
pub open spec fn spec_cargo_staged() -> Seq<Seq<char>> {
    seq!["Cargo.toml"@, "Cargo.lock"@]
}

/// What the end of `cargo check --workspace` means for the release: a command
/// that could not start fails it; once it ran, its exit status is not looked
/// at and the manifest and lockfile are staged.
pub open spec fn spec_cargo_sync(outcome: CommandOutcome) -> Result<Seq<Seq<char>>, ErrorView> {
    match outcome {
        CommandOutcome::SpawnFailed(reason) => Err(
            ErrorView::CommandFailed { cmd: cargo_command_line(), reason: reason@ },
        ),
        CommandOutcome::Exited { .. } => Ok(spec_cargo_staged()),
    }
}

/// A Rust project whose version lives in `Cargo.toml`.
pub struct RustEcosystem<'a> {
    directory: PathBuf,
    release_type: &'a ReleaseKind,
}

impl<'a> RustEcosystem<'a> {
    /// The project directory.
    pub closed spec fn directory(&self) -> PathBuf {
        self.directory
    }

    /// The kind of release being made.
    pub closed spec fn release_type(&self) -> ReleaseKind {
        *self.release_type
    }

    /// A recipe for the project in `directory`, making a release of the
    /// given kind.
    pub fn new(directory: PathBuf, release_type: &'a ReleaseKind) -> (r: Self)
        ensures
            r.directory() == directory,
            r.release_type() == *release_type,
    {
        RustEcosystem { directory, release_type }
    }

    /// The project directory.
    pub fn get_directory(&self) -> (r: &PathBuf)
        ensures
            *r == self.directory(),
    {
        &self.directory
    }

    /// The kind of release being made.
    pub fn get_release_type(&self) -> (r: &ReleaseKind)
        ensures
            *r == self.release_type(),
    {
        self.release_type
    }

    /// The manifest's file name in the project directory.
    pub fn manifest_file_name() -> (r: &'static str)
        ensures
            r@ == "Cargo.toml"@,
    {
        "Cargo.toml"
    }

    /// The current version, read from the contents `text` of the manifest at
    /// `path`: a parse failure or a missing (or non-string)
    /// `package.version` is an error that names the path.
    pub fn current_version_in(&self, path: &str, text: &str) -> (r: Result<String, AppError>)
        ensures
            string_result_view(r) == spec_cargo_current_version(path@, text@),
    {
        match parse_toml(text) {
            Err(reason) => Err(AppError::ParseFile { path: String::from_str(path), reason }),
            Ok(doc) => match string_at(&doc, "package", "version") {
                Some(v) => Ok(v),
                None => Err(
                    AppError::MissingField {
                        field: String::from_str("package.version"),
                        path: String::from_str(path),
                    },
                ),
            },
        }
    }

    /// Whether bumping the manifest with contents `text` would overflow the
    /// version component that the release increments.
    pub fn bump_would_overflow(&self, text: &str) -> (r: bool)
        ensures
            r == cargo_bump_overflows(text@, self.release_type()),
    {
        match parse_toml(text) {
            Err(_) => false,
            Ok(doc) => match string_at(&doc, "package", "version") {
                Some(v) => bump_overflows(v.as_str(), self.release_type),
                None => false,
            },
        }
    }

    /// Bumps the manifest at `path` with contents `text`: `package.version` is
    /// replaced by the next version, the rest of the text kept as it was.
    /// Gives the next version and the new contents.
    pub fn bump_manifest(&self, path: &str, text: &str) -> (r: Result<(String, String), AppError>)
        requires
            !cargo_bump_overflows(text@, self.release_type()),
        ensures
            pair_result_view(r) == spec_cargo_bump(path@, text@, self.release_type()),
            r matches Ok((next, out)) ==> rereads_with_package_version(text@, out@, next@),
    {
        let mut doc = match parse_toml(text) {
            Err(reason) => {
                return Err(AppError::ParseFile { path: String::from_str(path), reason });
            },
            Ok(doc) => doc,
        };
        let current = match string_at(&doc, "package", "version") {
            None => {
                return Err(
                    AppError::MissingField {
                        field: String::from_str("package.version"),
                        path: String::from_str(path),
                    },
                );
            },
            Some(v) => v,
        };
        let next = get_next_version(current.as_str(), self.release_type);
        let ghost original = doc;
        set_string_at(&mut doc, "package", "version", next.as_str());
        assert(doc.edits() =~= seq![("package"@, "version"@, next@)]);
        assert(original.edits() =~= Seq::<(Seq<char>, Seq<char>, Seq<char>)>::empty());
        let out = render_toml(&doc);
        Ok((next, out))
    }

    /// The version that follows the current one in the manifest at `path`
    /// with contents `text`, or the error reading the current version gives;
    /// `None` where the increment would overflow.
    pub fn try_next_version_in(&self, path: &str, text: &str) -> (r: Option<Result<String, AppError>>)
        ensures
            match r {
                None => cargo_bump_overflows(text@, self.release_type()),
                Some(res) => !cargo_bump_overflows(text@, self.release_type()) && string_result_view(res)
                    == match spec_cargo_current_version(path@, text@) {
                    Ok(current) => Ok(spec_next_version(current, self.release_type())),
                    Err(e) => Err(e),
                },
            },
    {
        if self.bump_would_overflow(text) {
            return None;
        }
        match self.current_version_in(path, text) {
            Ok(current) => Some(Ok(get_next_version(current.as_str(), self.release_type))),
            Err(e) => Some(Err(e)),
        }
    }

    /// Bumps the manifest as `bump_manifest` does where the version does not
    /// overflow, and gives `None` where it does.
    pub fn try_bump_manifest(&self, path: &str, text: &str) -> (r: Option<Result<(String, String), AppError>>)
        ensures
            match r {
                None => cargo_bump_overflows(text@, self.release_type()),
                Some(res) => !cargo_bump_overflows(text@, self.release_type()) && pair_result_view(res)
                    == spec_cargo_bump(path@, text@, self.release_type()),
            },
    {
        if self.bump_would_overflow(text) {
            None
        } else {
            Some(self.bump_manifest(path, text))
        }
    }

    /// The program that refreshes the lockfile.
    pub fn sync_program() -> (r: String)
        ensures
            r@ == "cargo"@,
    {
        String::from_str("cargo")
    }

    /// Its arguments.
    pub fn sync_args() -> (r: Vec<String>)
        ensures
            strings_view(r@) == seq!["check"@, "--workspace"@],
    {
        let mut v: Vec<String> = Vec::new();
        v.push(String::from_str("check"));
        v.push(String::from_str("--workspace"));
        assert(strings_view(v@) =~= seq!["check"@, "--workspace"@]);
        v
    }

    /// The files to stage once the lockfile refresh has run, or the error
    /// when it could not start.
    pub fn sync_result(outcome: CommandOutcome) -> (r: Result<Vec<String>, AppError>)
        ensures
            strings_result_view(r) == spec_cargo_sync(outcome),
    {
        match outcome {
            CommandOutcome::SpawnFailed(reason) => Err(
                AppError::CommandFailed {
                    cmd: String::from_str("cargo check --workspace"),
                    reason,
                },
            ),
            CommandOutcome::Exited { .. } => {
                let mut v: Vec<String> = Vec::new();
                v.push(String::from_str("Cargo.toml"));
                v.push(String::from_str("Cargo.lock"));
                assert(strings_view(v@) =~= spec_cargo_staged());
                Ok(v)
            },
        }
    }
}


/// A bump computes the next version of exactly the version that reading
/// the manifest gives, and fails exactly where reading fails.
pub proof fn lemma_cargo_bump_follows_current_version(path: Seq<char>, text: Seq<char>, kind: ReleaseKind)
    ensures
        match spec_cargo_bump(path, text, kind) {
            Ok((next, _)) => spec_cargo_current_version(path, text) matches Ok(current) && next
                == spec_next_version(current, kind),
            Err(e) => spec_cargo_current_version(path, text) == Err::<Seq<char>, ErrorView>(e),
        },
{
}


/// Once `cargo check --workspace` has run, whatever its exit status, the
/// release stages both the manifest it bumped and the lockfile cargo
/// refreshed, and nothing else.
pub proof fn lemma_cargo_stages_manifest_and_lockfile(success: bool, status: String)
    ensures
        spec_cargo_sync(CommandOutcome::Exited { success, status }) == Ok::<
            Seq<Seq<char>>,
            ErrorView,
        >(seq!["Cargo.toml"@, "Cargo.lock"@]),
{
}

} // verus!
