//! The errors a release can end with.

use vstd::prelude::*;

verus! {

/// Why a release step failed. Each variant keeps the text that is shown to
/// the user: paths as displayed and the reasons reported by the failing step.
#[derive(Debug, PartialEq, Eq)]
pub enum AppError {
    /// No git repository at the given directory.
    RepoNotFound(String),
    /// A git operation failed with the given message.
    Git(String),
    /// A file could not be read.
    ReadFile { path: String, reason: String },
    /// A file could not be written.
    WriteFile { path: String, reason: String },
    /// A file could not be parsed (or re-serialised).
    ParseFile { path: String, reason: String },
    /// A required field is absent or not a string.
    MissingField { field: String, path: String },
    /// An external command could not run or reported failure.
    CommandFailed { cmd: String, reason: String },
    /// The git identity (`user.name` / `user.email`) is not configured.
    NoSignature,
    /// Pushing the release to the upstream remote failed.
    PushFailed(String),
    /// Signing the release commit or tag failed.
    SignFailed(String),
}


/// An `AppError` with its texts taken as character sequences.
pub enum ErrorView {
    RepoNotFound(Seq<char>),
    Git(Seq<char>),
    ReadFile { path: Seq<char>, reason: Seq<char> },
    WriteFile { path: Seq<char>, reason: Seq<char> },
    ParseFile { path: Seq<char>, reason: Seq<char> },
    MissingField { field: Seq<char>, path: Seq<char> },
    CommandFailed { cmd: Seq<char>, reason: Seq<char> },
    NoSignature,
    PushFailed(Seq<char>),
    SignFailed(Seq<char>),
}

impl View for AppError {
    type V = ErrorView;

    open spec fn view(&self) -> ErrorView {
        match self {
            AppError::RepoNotFound(p) => ErrorView::RepoNotFound(p@),
            AppError::Git(m) => ErrorView::Git(m@),
            AppError::ReadFile { path, reason } => ErrorView::ReadFile { path: path@, reason: reason@ },
            AppError::WriteFile { path, reason } => ErrorView::WriteFile {
                path: path@,
                reason: reason@,
            },
            AppError::ParseFile { path, reason } => ErrorView::ParseFile {
                path: path@,
                reason: reason@,
            },
            AppError::MissingField { field, path } => ErrorView::MissingField {
                field: field@,
                path: path@,
            },
            AppError::CommandFailed { cmd, reason } => ErrorView::CommandFailed {
                cmd: cmd@,
                reason: reason@,
            },
            AppError::NoSignature => ErrorView::NoSignature,
            AppError::PushFailed(m) => ErrorView::PushFailed(m@),
            AppError::SignFailed(m) => ErrorView::SignFailed(m@),
        }
    }
}

/// A result carrying a string, with both sides taken as views.
pub open spec fn string_result_view(r: Result<String, AppError>) -> Result<Seq<char>, ErrorView> {
    match r {
        Ok(s) => Ok(s@),
        Err(e) => Err(e@),
    }
}

/// A result carrying nothing, with the error taken as its view.
pub open spec fn unit_result_view(r: Result<(), AppError>) -> Result<(), ErrorView> {
    match r {
        Ok(_) => Ok(()),
        Err(e) => Err(e@),
    }
}

/// A result carrying a list of strings, with both sides taken as views.
pub open spec fn strings_result_view(r: Result<Vec<String>, AppError>) -> Result<
    Seq<Seq<char>>,
    ErrorView,
> {
    match r {
        Ok(v) => Ok(strings_view(v@)),
        Err(e) => Err(e@),
    }
}

/// A result carrying a pair of strings, with both sides taken as views.
pub open spec fn pair_result_view(r: Result<(String, String), AppError>) -> Result<
    (Seq<char>, Seq<char>),
    ErrorView,
> {
    match r {
        Ok(p) => Ok((p.0@, p.1@)),
        Err(e) => Err(e@),
    }
}

/// A list of strings taken as character sequences.
pub open spec fn strings_view(v: Seq<String>) -> Seq<Seq<char>> {
    v.map_values(|s: String| s@)
}

} // verus!
