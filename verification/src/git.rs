//! The git side of a release: the texts of release commits and tags, the
//! refspecs pushed, and the decisions taken while signing, authenticating
//! and moving `HEAD`.

use vstd::prelude::*;

use crate::errors::{AppError, ErrorView};
use crate::text::{
    all_digits, digits_value, lemma_decimal2_two_digits,
    decimal2, ends_with_newline, ensure_final_newline, push_char, push_decimal2,
    push_signed_decimal, signed_decimal, string_of, with_final_newline,
};

verus! {

/// The parts of a git signature that its text is made of: the name and
/// e-mail (absent when not valid UTF-8), the time in seconds since the epoch,
/// the offset from UTC in minutes and the sign character of the offset.
pub struct GitSignature {
    pub name: Option<String>,
    pub email: Option<String>,
    pub seconds: i64,
    pub offset_minutes: i32,
    pub sign: char,
}

/// An optional text, empty when absent.
pub open spec fn text_or_empty(o: Option<String>) -> Seq<char> {
    match o {
        Some(s) => s@,
        None => Seq::empty(),
    }
}

/// The magnitude of a UTC offset in minutes.
pub open spec fn offset_magnitude(o: i32) -> nat {
    if o < 0 {
        (-o) as nat
    } else {
        o as nat
    }
}

/// The text git writes for a signature:
/// `name <email> seconds ±HHMM`.
pub open spec fn spec_format_git_signature(sig: GitSignature) -> Seq<char> {
    let m = offset_magnitude(sig.offset_minutes);
    text_or_empty(sig.name) + " <"@ + text_or_empty(sig.email) + "> "@ + signed_decimal(
        sig.seconds as int,
    ) + seq![' ', sig.sign] + decimal2(m / 60) + decimal2(m % 60)
}

/// Formats a signature as git writes it in commit and tag headers.
pub fn format_git_signature(sig: &GitSignature) -> (r: String)
    ensures
        r@ == spec_format_git_signature(*sig),
{
    let mut out = String::new();
    match &sig.name {
        Some(n) => out.append(n.as_str()),
        None => {},
    }
    out.append(" <");
    match &sig.email {
        Some(e) => out.append(e.as_str()),
        None => {},
    }
    out.append("> ");
    push_signed_decimal(&mut out, sig.seconds);
    push_char(&mut out, ' ');
    push_char(&mut out, sig.sign);
    let o = sig.offset_minutes;
    let magnitude: u32 = if o < 0 {
        ((-(o + 1)) as u32) + 1
    } else {
        o as u32
    };
    push_decimal2(&mut out, (magnitude / 60) as u64);
    push_decimal2(&mut out, (magnitude % 60) as u64);
    assert(out@ =~= spec_format_git_signature(*sig));
    out
}

/// The header and message of an annotated tag before any signature:
/// `object`, `type`, `tag` and `tagger` lines, a blank line, the message.
pub open spec fn tag_payload_body(
    name: Seq<char>,
    target_id: Seq<char>,
    target_type: Seq<char>,
    tagger: GitSignature,
    message: Seq<char>,
) -> Seq<char> {
    "object "@ + target_id + "\ntype "@ + target_type + "\ntag "@ + name + "\ntagger "@
        + spec_format_git_signature(tagger) + "\n\n"@ + message
}

/// The payload of an annotated tag, which always ends with a line feed.
pub open spec fn spec_annotated_tag_payload(
    name: Seq<char>,
    target_id: Seq<char>,
    target_type: Seq<char>,
    tagger: GitSignature,
    message: Seq<char>,
) -> Seq<char> {
    with_final_newline(tag_payload_body(name, target_id, target_type, tagger, message))
}

/// The payload of an annotated tag named `name` on the object `target_id`
/// (a hexadecimal object id) of type `target_type`.
pub fn annotated_tag_payload(
    name: &str,
    target_id: &str,
    target_type: &str,
    tagger: &GitSignature,
    message: &str,
) -> (r: String)
    ensures
        r@ == spec_annotated_tag_payload(name@, target_id@, target_type@, *tagger, message@),
{
    let mut buf = string_of("object ");
    buf.append(target_id);
    buf.append("\ntype ");
    buf.append(target_type);
    buf.append("\ntag ");
    buf.append(name);
    buf.append("\ntagger ");
    let sig = format_git_signature(tagger);
    buf.append(sig.as_str());
    buf.append("\n\n");
    buf.append(message);
    assert(buf@ =~= tag_payload_body(name@, target_id@, target_type@, *tagger, message@));
    ensure_final_newline(&mut buf);
    buf
}

/// The name of the tag that marks a release of `version`.
pub open spec fn spec_tag_name(version: Seq<char>) -> Seq<char> {
    "v"@ + version
}

/// The message of the commit and tag of a release of `version`.
pub open spec fn spec_release_message(version: Seq<char>) -> Seq<char> {
    "Release: v"@ + version
}

/// The reference a tag is stored under.
pub open spec fn spec_tag_ref(tag_name: Seq<char>) -> Seq<char> {
    "refs/tags/"@ + tag_name
}

/// The tag name of a release: `v` followed by the version.
pub fn tag_name(version: &str) -> (r: String)
    ensures
        r@ == spec_tag_name(version@),
{
    let mut s = string_of("v");
    s.append(version);
    s
}

/// The message of a release commit and tag: `Release: v<version>`.
pub fn release_message(version: &str) -> (r: String)
    ensures
        r@ == spec_release_message(version@),
{
    let mut s = string_of("Release: v");
    s.append(version);
    s
}

/// The reference of a tag: `refs/tags/<name>`.
pub fn tag_ref(tag_name: &str) -> (r: String)
    ensures
        r@ == spec_tag_ref(tag_name@),
{
    let mut s = string_of("refs/tags/");
    s.append(tag_name);
    s
}

/// The contents of a signed tag object: the payload, then the armoured
/// signature, ending with a line feed.
pub open spec fn spec_signed_tag_content(payload: Seq<char>, signature: Seq<char>) -> Seq<char> {
    with_final_newline(payload + signature)
}

/// Appends the signature to the tag payload, ending the result with a line
/// feed.
pub fn signed_tag_content(payload: &str, signature: &str) -> (r: String)
    ensures
        r@ == spec_signed_tag_content(payload@, signature@),
{
    let mut s = string_of(payload);
    s.append(signature);
    ensure_final_newline(&mut s);
    s
}

/// Whatever goes in, the tag texts this module builds end with a line feed.
pub proof fn lemma_tag_texts_end_with_newline(
    name: Seq<char>,
    target_id: Seq<char>,
    target_type: Seq<char>,
    tagger: GitSignature,
    message: Seq<char>,
    signature: Seq<char>,
)
    ensures
        ends_with_newline(spec_annotated_tag_payload(name, target_id, target_type, tagger, message)),
        ends_with_newline(
            spec_signed_tag_content(
                spec_annotated_tag_payload(name, target_id, target_type, tagger, message),
                signature,
            ),
        ),
{
}


/// The branch refspec and the tag reference pushed for a release: the local
/// branch is pushed to its upstream merge reference (itself when it has
/// none), and the release tag `refs/tags/v<version>` alongside.
pub open spec fn spec_push_refspecs(
    local_ref: Seq<char>,
    merge_ref: Option<Seq<char>>,
    version: Seq<char>,
) -> (Seq<char>, Seq<char>) {
    let target = match merge_ref {
        Some(m) => m,
        None => local_ref,
    };
    (local_ref + ":"@ + target, "refs/tags/v"@ + version)
}

/// Builds the refspecs pushed for a release.
pub fn push_refspecs(local_ref: &str, merge_ref: Option<&str>, version: &str) -> (r: (
    String,
    String,
))
    ensures
        (r.0@, r.1@) == spec_push_refspecs(
            local_ref@,
            match merge_ref {
                Some(m) => Some(m@),
                None => None,
            },
            version@,
        ),
{
    let mut branch = string_of(local_ref);
    branch.append(":");
    match merge_ref {
        Some(m) => branch.append(m),
        None => branch.append(local_ref),
    }
    let mut tag = string_of("refs/tags/v");
    tag.append(version);
    (branch, tag)
}

/// The branch name shown to the user: the reference's short name when it
/// has one, otherwise the full reference name.
pub fn branch_display_name(shorthand: Option<&str>, local_ref: &str) -> (r: String)
    ensures
        r@ == match shorthand {
            Some(s) => s@,
            None => local_ref@,
        },
{
    match shorthand {
        Some(s) => string_of(s),
        None => string_of(local_ref),
    }
}

/// The error for pushing from a detached `HEAD`.
pub fn detached_head_error() -> (r: AppError)
    ensures
        r@ == ErrorView::PushFailed("HEAD is detached; check out a branch before using --push"@),
{
    AppError::PushFailed(string_of("HEAD is detached; check out a branch before using --push"))
}

/// The error for a branch that has no upstream remote.
pub fn no_upstream_error(branch: &str) -> (r: AppError)
    ensures
        r@ == ErrorView::PushFailed("branch '"@ + branch@ + "' has no upstream remote"@),
{
    let mut m = string_of("branch '");
    m.append(branch);
    m.append("' has no upstream remote");
    AppError::PushFailed(m)
}

/// The error for an upstream remote that cannot be found.
pub fn remote_not_found_error(remote: &str, reason: &str) -> (r: AppError)
    ensures
        r@ == ErrorView::PushFailed("remote '"@ + remote@ + "' not found: "@ + reason@),
{
    let mut m = string_of("remote '");
    m.append(remote);
    m.append("' not found: ");
    m.append(reason);
    AppError::PushFailed(m)
}

/// The message for a reference the remote refused to update.
pub fn rejected_update_message(reference: &str, status: &str) -> (r: String)
    ensures
        r@ == "rejected "@ + reference@ + ": "@ + status@,
{
    let mut m = string_of("rejected ");
    m.append(reference);
    m.append(": ");
    m.append(status);
    m
}

/// What is printed once a release is made: whether it was pushed, or how to
/// publish it.
pub open spec fn spec_released_message(version: Seq<char>, pushed: bool) -> Seq<char> {
    if pushed {
        "Released v"@ + version + " and pushed."@
    } else {
        "Released v"@ + version + ". Run `git push --follow-tags` to publish."@
    }
}

/// The closing message of a release.
pub fn released_message(version: &str, pushed: bool) -> (r: String)
    ensures
        r@ == spec_released_message(version@, pushed),
{
    let mut m = string_of("Released v");
    m.append(version);
    if pushed {
        m.append(" and pushed.");
    } else {
        m.append(". Run `git push --follow-tags` to publish.");
    }
    m
}


/// What `HEAD` is when a signed commit has been written and has to become
/// the new tip: a branch, a detached commit, a branch not born yet, or
/// unreadable for another reason.
#[derive(Debug, Clone, Copy, PartialEq, Eq, Structural)]
pub enum HeadState {
    Branch,
    Detached,
    Unborn,
    Unreadable,
}

/// How `HEAD` is moved to the new commit: the branch's target is set, `HEAD`
/// is detached at the commit, the branch `HEAD` names is created at the
/// commit, or the error reading `HEAD` is reported.
#[derive(Debug, Clone, Copy, PartialEq, Eq, Structural)]
pub enum HeadUpdate {
    SetBranchTarget,
    DetachAt,
    CreateSymbolicTarget,
    ReportError,
}

/// The move of `HEAD` for each state it can be in.
pub open spec fn spec_head_update(head: HeadState) -> HeadUpdate {
    match head {
        HeadState::Branch => HeadUpdate::SetBranchTarget,
        HeadState::Detached => HeadUpdate::DetachAt,
        HeadState::Unborn => HeadUpdate::CreateSymbolicTarget,
        HeadState::Unreadable => HeadUpdate::ReportError,
    }
}

/// Decides how `HEAD` moves to a newly written commit.
pub fn head_update(head: HeadState) -> (r: HeadUpdate)
    ensures
        r == spec_head_update(head),
{
    match head {
        HeadState::Branch => HeadUpdate::SetBranchTarget,
        HeadState::Detached => HeadUpdate::DetachAt,
        HeadState::Unborn => HeadUpdate::CreateSymbolicTarget,
        HeadState::Unreadable => HeadUpdate::ReportError,
    }
}

/// The error for an unborn `HEAD` that does not name a branch.
pub fn unborn_head_not_symbolic_error() -> (r: AppError)
    ensures
        r@ == ErrorView::SignFailed("HEAD is unborn but not symbolic"@),
{
    AppError::SignFailed(string_of("HEAD is unborn but not symbolic"))
}

/// The error for a commit buffer that is not valid UTF-8.
pub fn commit_buffer_not_utf8_error() -> (r: AppError)
    ensures
        r@ == ErrorView::SignFailed("commit buffer is not valid UTF-8"@),
{
    AppError::SignFailed(string_of("commit buffer is not valid UTF-8"))
}

/// The file names of the SSH identities tried, in order, under `~/.ssh`.
pub open spec fn spec_ssh_identity_names() -> Seq<Seq<char>> {
    seq!["id_ed25519"@, "id_ecdsa"@, "id_rsa"@]
}

/// The file names of the SSH identities tried, in order.
pub fn ssh_identity_names() -> (r: Vec<String>)
    ensures
        r@.map_values(|s: String| s@) == spec_ssh_identity_names(),
{
    let mut v: Vec<String> = Vec::new();
    v.push(string_of("id_ed25519"));
    v.push(string_of("id_ecdsa"));
    v.push(string_of("id_rsa"));
    assert(v@.map_values(|s: String| s@) =~= spec_ssh_identity_names());
    v
}


/// A signature ends with its UTC offset as a sign and exactly four digits,
/// two for the hours and two for the minutes, which together give the
/// offset (for offsets below one hundred hours); before them stand the name,
/// the e-mail in angle brackets and the time in seconds.
pub proof fn lemma_signature_offset_digits(sig: GitSignature)
    requires
        offset_magnitude(sig.offset_minutes) < 6000,
    ensures
        ({
            let out = spec_format_git_signature(sig);
            let n = out.len() as int;
            let hours = out.subrange(n - 4, n - 2);
            let minutes = out.subrange(n - 2, n);
            &&& n >= 6
            &&& out[n - 5] == sig.sign
            &&& out[n - 6] == ' '
            &&& all_digits(hours) && all_digits(minutes)
            &&& digits_value(minutes) < 60
            &&& digits_value(hours) * 60 + digits_value(minutes) == offset_magnitude(
                sig.offset_minutes,
            )
            &&& out.subrange(0, n - 6) == text_or_empty(sig.name) + " <"@ + text_or_empty(sig.email)
                + "> "@ + signed_decimal(sig.seconds as int)
        }),
{
    let m = offset_magnitude(sig.offset_minutes);
    lemma_decimal2_two_digits(m / 60);
    lemma_decimal2_two_digits(m % 60);
    let p = text_or_empty(sig.name) + " <"@ + text_or_empty(sig.email) + "> "@ + signed_decimal(
        sig.seconds as int,
    );
    let out = spec_format_git_signature(sig);
    let n = out.len() as int;
    assert(out =~= p + seq![' ', sig.sign] + decimal2(m / 60) + decimal2(m % 60));
    assert(out.subrange(n - 4, n - 2) =~= decimal2(m / 60));
    assert(out.subrange(n - 2, n) =~= decimal2(m % 60));
    assert(out.subrange(0, n - 6) =~= p);
    assert(m == (m / 60) * 60 + m % 60);
}

} // verus!
