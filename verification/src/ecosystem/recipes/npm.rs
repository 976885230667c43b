//! The npm recipe: the version lives in `package.json`, and the lockfile of
//! whichever Node package manager the project uses is refreshed after a bump.

use std::path::PathBuf;

use vstd::prelude::*;

use crate::ecosystem::next_version::{
    bump_overflows, get_next_version, spec_bump_overflows, spec_next_version,
};
use crate::ecosystem::recipes::json_document::{
    json_parse_failure, json_pretty, json_string_member, json_values_equal, parse_json, JsonDocument,
    same_json_value, set_string_member, string_member, to_pretty_json,
};
use crate::ecosystem::recipes::version_literal::{
    last_version_value, lemma_found_version_span, splice_version, spliced_version,
};
use crate::ecosystem::types::{CommandOutcome, ReleaseKind};
use crate::errors::{
    pair_result_view, strings_view, string_result_view, unit_result_view, AppError, ErrorView,
};

verus! {

/// The lockfiles of the Node package managers, in the order they are looked
/// for.
#[derive(Debug, Clone, Copy, PartialEq, Eq, Structural)]
pub enum NpmLockfile {
    Pnpm,
    Npm,
    Yarn,
}

/// The file name of a lockfile.
pub open spec fn spec_lockfile_name(l: NpmLockfile) -> Seq<char> {
    match l {
        NpmLockfile::Pnpm => "pnpm-lock.yaml"@,
        NpmLockfile::Npm => "package-lock.json"@,
        NpmLockfile::Yarn => "yarn.lock"@,
    }
}

/// The program that refreshes a lockfile.
pub open spec fn spec_lockfile_program(l: NpmLockfile) -> Seq<char> {
    match l {
        NpmLockfile::Pnpm => "pnpm"@,
        NpmLockfile::Npm => "npm"@,
        NpmLockfile::Yarn => "yarn"@,
    }
}

/// The arguments that make the program refresh only the lockfile.
pub open spec fn spec_lockfile_args(l: NpmLockfile) -> Seq<Seq<char>> {
    match l {
        NpmLockfile::Pnpm => seq!["install"@, "--lockfile-only"@],
        NpmLockfile::Npm => seq!["install"@, "--package-lock-only"@],
        NpmLockfile::Yarn => seq!["install"@, "--pure-lockfile"@, "--offline"@],
    }
}

/// The refresh command as shown in error messages.
pub open spec fn spec_lockfile_command_line(l: NpmLockfile) -> Seq<char> {
    match l {
        NpmLockfile::Pnpm => "pnpm install --lockfile-only"@,
        NpmLockfile::Npm => "npm install --package-lock-only"@,
        NpmLockfile::Yarn => "yarn install --pure-lockfile --offline"@,
    }
}

/// Whether a list of file names holds the given name.
pub open spec fn has_name(files: Seq<String>, name: Seq<char>) -> bool {
    exists|i: int| 0 <= i < files.len() && #[trigger] files[i]@ == name
}

/// The lockfile a directory with the given file names uses: pnpm's first,
/// then npm's, then yarn's.
pub open spec fn spec_detect_lockfile(files: Seq<String>) -> Option<NpmLockfile> {
    if has_name(files, "pnpm-lock.yaml"@) {
        Some(NpmLockfile::Pnpm)
    } else if has_name(files, "package-lock.json"@) {
        Some(NpmLockfile::Npm)
    } else if has_name(files, "yarn.lock"@) {
        Some(NpmLockfile::Yarn)
    } else {
        None
    }
}

/// What a lockfile refresh that ended with `outcome` means for the release.
pub open spec fn spec_check_outcome(l: NpmLockfile, outcome: CommandOutcome) -> Result<(), ErrorView> {
    match outcome {
        CommandOutcome::SpawnFailed(reason) => Err(
            ErrorView::CommandFailed { cmd: spec_lockfile_command_line(l), reason: reason@ },
        ),
        CommandOutcome::Exited { success, status } => if success {
            Ok(())
        } else {
            Err(
                ErrorView::CommandFailed {
                    cmd: spec_lockfile_command_line(l),
                    reason: "exited with status "@ + status@,
                },
            )
        },
    }
}

/// Whether a list of file names holds the given name.
fn contains_name(files: &Vec<String>, name: &str) -> (r: bool)
    ensures
        r == has_name(files@, name@),
{
    let target = String::from_str(name);
    let mut i: usize = 0;
    while i < files.len()
        invariant
            i <= files@.len(),
            target@ == name@,
            forall|j: int| 0 <= j < i ==> files@[j]@ != name@,
        decreases files.len() - i,
    {
        if files[i] == target {
            return true;
        }
        i = i + 1;
    }
    false
}

impl NpmLockfile {
    /// Picks the lockfile to refresh from the names of the files in the
    /// project directory: `pnpm-lock.yaml`, else `package-lock.json`, else
    /// `yarn.lock`, else none.
    pub fn detect(files: &Vec<String>) -> (r: Option<NpmLockfile>)
        ensures
            r == spec_detect_lockfile(files@),
    {
        if contains_name(files, "pnpm-lock.yaml") {
            Some(NpmLockfile::Pnpm)
        } else if contains_name(files, "package-lock.json") {
            Some(NpmLockfile::Npm)
        } else if contains_name(files, "yarn.lock") {
            Some(NpmLockfile::Yarn)
        } else {
            None
        }
    }

    /// The lockfile's file name.
    pub fn file_name(&self) -> (r: String)
        ensures
            r@ == spec_lockfile_name(*self),
    {
        match self {
            NpmLockfile::Pnpm => String::from_str("pnpm-lock.yaml"),
            NpmLockfile::Npm => String::from_str("package-lock.json"),
            NpmLockfile::Yarn => String::from_str("yarn.lock"),
        }
    }

    /// The program that refreshes the lockfile.
    pub fn program(&self) -> (r: String)
        ensures
            r@ == spec_lockfile_program(*self),
    {
        match self {
            NpmLockfile::Pnpm => String::from_str("pnpm"),
            NpmLockfile::Npm => String::from_str("npm"),
            NpmLockfile::Yarn => String::from_str("yarn"),
        }
    }

    /// The arguments that refresh only the lockfile.
    pub fn args(&self) -> (r: Vec<String>)
        ensures
            strings_view(r@) == spec_lockfile_args(*self),
    {
        let mut v: Vec<String> = Vec::new();
        v.push(String::from_str("install"));
        match self {
            NpmLockfile::Pnpm => {
                v.push(String::from_str("--lockfile-only"));
            },
            NpmLockfile::Npm => {
                v.push(String::from_str("--package-lock-only"));
            },
            NpmLockfile::Yarn => {
                v.push(String::from_str("--pure-lockfile"));
                v.push(String::from_str("--offline"));
            },
        }
        assert(strings_view(v@) =~= spec_lockfile_args(*self));
        v
    }

    /// The refresh command as shown in error messages.
    pub fn command_line(&self) -> (r: String)
        ensures
            r@ == spec_lockfile_command_line(*self),
    {
        match self {
            NpmLockfile::Pnpm => String::from_str("pnpm install --lockfile-only"),
            NpmLockfile::Npm => String::from_str("npm install --package-lock-only"),
            NpmLockfile::Yarn => String::from_str("yarn install --pure-lockfile --offline"),
        }
    }

    /// Turns the end of a refresh into the release's outcome: a command that
    /// could not start or that exited unsuccessfully fails the release.
    pub fn check_outcome(&self, outcome: CommandOutcome) -> (r: Result<(), AppError>)
        ensures
            unit_result_view(r) == spec_check_outcome(*self, outcome),
    {
        match outcome {
            CommandOutcome::SpawnFailed(reason) => Err(
                AppError::CommandFailed { cmd: self.command_line(), reason },
            ),
            CommandOutcome::Exited { success, status } => {
                if success {
                    Ok(())
                } else {
                    let mut reason = String::from_str("exited with status ");
                    reason.append(status.as_str());
                    Err(AppError::CommandFailed { cmd: self.command_line(), reason })
                }
            },
        }
    }
}


/// The version member of a JSON manifest text, when the text parses and the
/// member is a string.
pub open spec fn npm_manifest_version(text: Seq<char>) -> Option<Seq<char>> {
    if json_parse_failure(text) is None {
        json_string_member(text, Seq::empty(), "version"@)
    } else {
        None
    }
}

/// What reading the current version from `package.json` at `path` with
/// contents `text` gives.
pub open spec fn spec_npm_current_version(path: Seq<char>, text: Seq<char>) -> Result<
    Seq<char>,
    ErrorView,
> {
    match json_parse_failure(text) {
        Some(reason) => Err(ErrorView::ParseFile { path, reason }),
        None => match json_string_member(text, Seq::empty(), "version"@) {
            Some(v) => Ok(v),
            None => Err(ErrorView::MissingField { field: "version"@, path }),
        },
    }
}

/// Whether bumping the manifest text would overflow its version.
pub open spec fn npm_bump_overflows(text: Seq<char>, kind: ReleaseKind) -> bool {
    match npm_manifest_version(text) {
        Some(v) => spec_bump_overflows(v, kind),
        None => false,
    }
}

/// The single edit a bump makes to the manifest document.
pub open spec fn version_edit(next: Seq<char>) -> Seq<(Seq<char>, Seq<char>)> {
    seq![("version"@, next)]
}

/// The text a bump writes for the manifest `text` whose version `current`
/// becomes `next`. The text is kept as it was written, with only the
/// characters of the version string replaced, wherever that string is found
/// (see `version_literal`) and `serde_json` reads the result as exactly the
/// edited document; otherwise the edited document is pretty-printed.
pub open spec fn npm_rewrite(text: Seq<char>, current: Seq<char>, next: Seq<char>) -> Seq<char> {
    match spliced_version(text, current, next) {
        Some(c) => if json_parse_failure(c) is None && json_values_equal(
            c,
            Seq::empty(),
            text,
            version_edit(next),
        ) {
            c
        } else {
            json_pretty(text, version_edit(next))
        },
        None => json_pretty(text, version_edit(next)),
    }
}

/// What bumping `package.json` at `path` with contents `text` gives: the next
/// version and the rewritten manifest. It fails exactly where reading the
/// current version fails.
pub open spec fn spec_npm_bump(path: Seq<char>, text: Seq<char>, kind: ReleaseKind) -> Result<
    (Seq<char>, Seq<char>),
    ErrorView,
> {
    match spec_npm_current_version(path, text) {
        Err(e) => Err(e),
        Ok(current) => {
            let next = spec_next_version(current, kind);
            Ok((next, npm_rewrite(text, current, next)))
        },
    }
}

/// Whether the rewritten manifest `out` reads back as `text` with its version
/// set to `next`: it parses, its `version` member is `next`, and every other
/// string member of the top-level object is as in `text`.
pub open spec fn rereads_with_version(text: Seq<char>, out: Seq<char>, next: Seq<char>) -> bool {
    &&& json_parse_failure(out) is None
    &&& json_string_member(out, Seq::empty(), "version"@) == Some(next)
    &&& forall|k: Seq<char>|
        k != "version"@ ==> #[trigger] json_string_member(out, Seq::empty(), k)
            == json_string_member(text, Seq::empty(), k)
}

/// The files a release stages for an npm project: the manifest, then the
/// lockfile that was refreshed, if any.
pub open spec fn spec_npm_staged(lockfile: Option<NpmLockfile>) -> Seq<Seq<char>> {
    match lockfile {
        Some(l) => seq!["package.json"@, spec_lockfile_name(l)],
        None => seq!["package.json"@],
    }
}

/// A Node.js project whose version lives in `package.json`.
pub struct NpmRecipe<'a> {
    directory: PathBuf,
    release_type: &'a ReleaseKind,
}

impl<'a> NpmRecipe<'a> {
    /// The project directory.
    pub closed spec fn directory(&self) -> PathBuf {
        self.directory
    }

    /// The kind of release being made.
    pub closed spec fn release_type(&self) -> ReleaseKind {
        *self.release_type
    }

    /// A recipe for the project in `directory`, making a release of the
    /// given kind.
    pub fn new(directory: PathBuf, release_type: &'a ReleaseKind) -> (r: Self)
        ensures
            r.directory() == directory,
            r.release_type() == *release_type,
    {
        NpmRecipe { directory, release_type }
    }

    /// The project directory.
    pub fn get_directory(&self) -> (r: &PathBuf)
        ensures
            *r == self.directory(),
    {
        &self.directory
    }

    /// The kind of release being made.
    pub fn get_release_type(&self) -> (r: &ReleaseKind)
        ensures
            *r == self.release_type(),
    {
        self.release_type
    }

    /// The manifest's file name in the project directory.
    pub fn manifest_file_name() -> (r: &'static str)
        ensures
            r@ == "package.json"@,
    {
        "package.json"
    }

    /// The current version, read from the contents `text` of the manifest at
    /// `path`: a parse failure or a missing (or non-string) `version` member
    /// is an error that names the path.
    pub fn current_version_in(&self, path: &str, text: &str) -> (r: Result<String, AppError>)
        ensures
            string_result_view(r) == spec_npm_current_version(path@, text@),
    {
        match parse_json(text) {
            Err(reason) => Err(AppError::ParseFile { path: String::from_str(path), reason }),
            Ok(doc) => {
                let version = String::from_str("version");
                match string_member(&doc, version.as_str()) {
                    Some(v) => Ok(v),
                    None => Err(AppError::MissingField { field: version, path: String::from_str(path) }),
                }
            },
        }
    }

    /// Whether bumping the manifest with contents `text` would overflow the
    /// version component that the release increments.
    pub fn bump_would_overflow(&self, text: &str) -> (r: bool)
        ensures
            r == npm_bump_overflows(text@, self.release_type()),
    {
        match parse_json(text) {
            Err(_) => false,
            Ok(doc) => match string_member(&doc, "version") {
                Some(v) => bump_overflows(v.as_str(), self.release_type),
                None => false,
            },
        }
    }

    /// Bumps the manifest at `path` with contents `text`: the version string
    /// is replaced by the next version, keeping the rest of the text as
    /// written. Gives the next version and the new contents, which read back
    /// as the manifest's document with only its version changed.
    pub fn bump_manifest(&self, path: &str, text: &str) -> (r: Result<(String, String), AppError>)
        requires
            !npm_bump_overflows(text@, self.release_type()),
        ensures
            pair_result_view(r) == spec_npm_bump(path@, text@, self.release_type()),
            spec_npm_current_version(path@, text@) is Ok ==> r is Ok,
            r matches Ok((next, out)) ==> rereads_with_version(text@, out@, next@)
                && json_values_equal(out@, Seq::empty(), text@, version_edit(next@)),
    {
        let mut doc = match parse_json(text) {
            Err(reason) => {
                return Err(AppError::ParseFile { path: String::from_str(path), reason });
            },
            Ok(doc) => doc,
        };
        let key = String::from_str("version");
        let current = match string_member(&doc, key.as_str()) {
            None => {
                return Err(AppError::MissingField { field: key, path: String::from_str(path) });
            },
            Some(v) => v,
        };
        let next = get_next_version(current.as_str(), self.release_type);
        let ghost original = doc;
        set_string_member(&mut doc, key.as_str(), next.as_str());
        assert(doc.edits() =~= version_edit(next@));
        assert(original.edits() =~= Seq::<(Seq<char>, Seq<char>)>::empty());
        let out = Self::rewrite(&doc, text, current.as_str(), next.as_str());
        Ok((next, out))
    }

    /// Writes the bumped document out: the original text with the version
    /// string replaced when `serde_json` confirms that this text is the
    /// bumped document, the pretty-printed document otherwise.
    fn rewrite(doc: &JsonDocument, text: &str, current: &str, next: &str) -> (out: String)
        requires
            doc.source() == text@,
            doc.edits() == version_edit(next@),
            json_string_member(text@, version_edit(next@), "version"@) == Some(next@),
            forall|k: Seq<char>|
                k != "version"@ ==> #[trigger] json_string_member(text@, version_edit(next@), k)
                    == json_string_member(text@, Seq::empty(), k),
        ensures
            out@ == npm_rewrite(text@, current@, next@),
            rereads_with_version(text@, out@, next@),
            json_values_equal(out@, Seq::empty(), text@, version_edit(next@)),
    {
        match splice_version(text, current, next) {
            Some(candidate) => {
                match parse_json(candidate.as_str()) {
                    Ok(reread) => {
                        if same_json_value(&reread, doc) {
                            return candidate;
                        }
                    },
                    Err(_) => {},
                }
            },
            None => {},
        }
        to_pretty_json(doc)
    }

    /// The version that follows the current one in the manifest at `path`
    /// with contents `text`, or the error reading the current version gives;
    /// `None` where the increment would overflow.
    pub fn try_next_version_in(&self, path: &str, text: &str) -> (r: Option<Result<String, AppError>>)
        ensures
            match r {
                None => npm_bump_overflows(text@, self.release_type()),
                Some(res) => !npm_bump_overflows(text@, self.release_type()) && string_result_view(res)
                    == match spec_npm_current_version(path@, text@) {
                    Ok(current) => Ok(spec_next_version(current, self.release_type())),
                    Err(e) => Err(e),
                },
            },
    {
        if self.bump_would_overflow(text) {
            return None;
        }
        match self.current_version_in(path, text) {
            Ok(current) => Some(Ok(get_next_version(current.as_str(), self.release_type))),
            Err(e) => Some(Err(e)),
        }
    }

    /// Bumps the manifest as `bump_manifest` does where the version does not
    /// overflow, and gives `None` where it does.
    pub fn try_bump_manifest(&self, path: &str, text: &str) -> (r: Option<Result<(String, String), AppError>>)
        ensures
            match r {
                None => npm_bump_overflows(text@, self.release_type()),
                Some(res) => !npm_bump_overflows(text@, self.release_type()) && pair_result_view(res)
                    == spec_npm_bump(path@, text@, self.release_type()),
            },
    {
        if self.bump_would_overflow(text) {
            None
        } else {
            Some(self.bump_manifest(path, text))
        }
    }

    /// The files to stage after the lockfile refresh: `package.json`, then
    /// the refreshed lockfile, if any.
    pub fn staged_files(lockfile: Option<NpmLockfile>) -> (r: Vec<String>)
        ensures
            strings_view(r@) == spec_npm_staged(lockfile),
    {
        let mut v: Vec<String> = Vec::new();
        v.push(String::from_str("package.json"));
        match lockfile {
            Some(l) => {
                v.push(l.file_name());
            },
            None => {},
        }
        assert(strings_view(v@) =~= spec_npm_staged(lockfile));
        v
    }
}


/// A bump computes the next version of exactly the version that reading
/// the manifest gives, and fails exactly where reading fails.
pub proof fn lemma_npm_bump_follows_current_version(path: Seq<char>, text: Seq<char>, kind: ReleaseKind)
    ensures
        match spec_npm_bump(path, text, kind) {
            Ok((next, _)) => spec_npm_current_version(path, text) matches Ok(current) && next
                == spec_next_version(current, kind),
            Err(e) => spec_npm_current_version(path, text) == Err::<Seq<char>, ErrorView>(e),
        },
{
}


/// Formatting is kept: where the version string is found in the manifest and
/// `serde_json` reads the spliced text as the bumped document, the bump
/// writes the manifest exactly as it was, with only the characters of the
/// old version string replaced by the new version.
pub proof fn lemma_npm_rewrite_keeps_text(text: Seq<char>, current: Seq<char>, next: Seq<char>)
    requires
        spliced_version(text, current, next) matches Some(c) && json_parse_failure(c) is None
            && json_values_equal(c, Seq::empty(), text, version_edit(next)),
    ensures
        exists|s: int, e: int|
            0 <= s <= e <= text.len() && #[trigger] text.subrange(s, e) == current && npm_rewrite(
                text,
                current,
                next,
            ) == text.take(s) + next + text.skip(e),
{
    lemma_found_version_span(text, current, text.len() as int);
    let (s, e) = last_version_value(text, current, text.len() as int)->0;
    assert(text.subrange(s, e) == current);
}


/// Words joined with single spaces.
pub open spec fn join_words(words: Seq<Seq<char>>) -> Seq<char>
    decreases words.len(),
{
    if words.len() == 0 {
        Seq::empty()
    } else if words.len() == 1 {
        words[0]
    } else {
        join_words(words.drop_last()) + " "@ + words.last()
    }
}

/// The command run to refresh a lockfile is the one its error messages
/// name: the program, then its arguments, separated by spaces. Each
/// lockfile has its own program.
pub proof fn lemma_lockfile_command_is_program_and_args(l: NpmLockfile, m: NpmLockfile)
    ensures
        spec_lockfile_command_line(l) == join_words(seq![spec_lockfile_program(l)] + spec_lockfile_args(l)),
        l != m ==> spec_lockfile_program(l) != spec_lockfile_program(m),
{
    reveal_strlit("pnpm");
    reveal_strlit("npm");
    reveal_strlit("yarn");
    reveal_strlit(" ");
    reveal_strlit("install");
    reveal_strlit("--lockfile-only");
    reveal_strlit("--package-lock-only");
    reveal_strlit("--pure-lockfile");
    reveal_strlit("--offline");
    reveal_strlit("pnpm install --lockfile-only");
    reveal_strlit("npm install --package-lock-only");
    reveal_strlit("yarn install --pure-lockfile --offline");
    let w = seq![spec_lockfile_program(l)] + spec_lockfile_args(l);
    match l {
        NpmLockfile::Yarn => {
            let w3 = seq!["yarn"@];
            let w2 = seq!["yarn"@, "install"@];
            let w1 = seq!["yarn"@, "install"@, "--pure-lockfile"@];
            assert(w =~= w1.push("--offline"@));
            assert(w.drop_last() =~= w1);
            assert(w1.drop_last() =~= w2);
            assert(w2.drop_last() =~= w3);
            assert(join_words(w3) == "yarn"@);
            assert(join_words(w2) == "yarn"@ + " "@ + "install"@);
            assert(join_words(w1) == join_words(w2) + " "@ + "--pure-lockfile"@);
            assert(join_words(w) == join_words(w1) + " "@ + "--offline"@);
        },
        NpmLockfile::Pnpm => {
            let w2 = seq!["pnpm"@];
            let w1 = seq!["pnpm"@, "install"@];
            assert(w =~= w1.push("--lockfile-only"@));
            assert(w.drop_last() =~= w1);
            assert(w1.drop_last() =~= w2);
            assert(join_words(w2) == "pnpm"@);
            assert(join_words(w1) == "pnpm"@ + " "@ + "install"@);
            assert(join_words(w) == join_words(w1) + " "@ + "--lockfile-only"@);
        },
        NpmLockfile::Npm => {
            let w2 = seq!["npm"@];
            let w1 = seq!["npm"@, "install"@];
            assert(w =~= w1.push("--package-lock-only"@));
            assert(w.drop_last() =~= w1);
            assert(w1.drop_last() =~= w2);
            assert(join_words(w2) == "npm"@);
            assert(join_words(w1) == "npm"@ + " "@ + "install"@);
            assert(join_words(w) == join_words(w1) + " "@ + "--package-lock-only"@);
        },
    }
    assert(spec_lockfile_command_line(l) =~= join_words(w));
    if l != m {
        assert(spec_lockfile_program(l).len() != spec_lockfile_program(m).len() || spec_lockfile_program(
            l,
        )[0] != spec_lockfile_program(m)[0]);
    }
}

/// The lockfile refreshed and staged is a file that is in the project: its
/// name is among the directory's file names. So every file staged beside
/// `package.json` is one that is there.
pub proof fn lemma_staged_lockfile_is_present(files: Seq<String>)
    ensures
        spec_detect_lockfile(files) matches Some(l) ==> has_name(files, spec_lockfile_name(l)),
        ({
            let staged = spec_npm_staged(spec_detect_lockfile(files));
            &&& staged[0] == "package.json"@
            &&& forall|i: int| 1 <= i < staged.len() ==> has_name(files, #[trigger] staged[i])
        }),
{
}

} // verus!
