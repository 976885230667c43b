//! Signing release commits and tags with OpenPGP through `gpg`: which
//! command to run, given the git configuration, and what its output means.

use vstd::prelude::*;
use vstd::utf8::{decode_utf8, valid_utf8};

use crate::errors::{string_result_view, AppError, ErrorView};
use crate::text::{contains_seq, contains_str, eq_ignore_ascii_case, eq_ignore_ascii_case_spec, string_of};

verus! {

/// The signing program and its arguments.
pub struct GpgInvocation {
    pub program: String,
    pub args: Vec<String>,
}

/// An optional configuration value that is present and not empty.
pub open spec fn non_empty(o: Option<Seq<char>>) -> bool {
    o matches Some(v) && v.len() > 0
}

/// The program that signs: `gpg.program` when set and not empty, `gpg`
/// otherwise.
pub open spec fn spec_gpg_program(program: Option<Seq<char>>) -> Seq<char> {
    if non_empty(program) {
        program->0
    } else {
        "gpg"@
    }
}

/// The arguments for a detached, ASCII-armoured signature, by the key
/// `user.signingkey` when set and not empty.
pub open spec fn spec_gpg_args(signing_key: Option<Seq<char>>) -> Seq<Seq<char>> {
    if non_empty(signing_key) {
        seq!["--detach-sign"@, "--armor"@, "--local-user"@, signing_key->0]
    } else {
        seq!["--detach-sign"@, "--armor"@]
    }
}

/// The message for an SSH signing configuration, which is not supported.
pub open spec fn ssh_format_message() -> Seq<char> {
    "gpg.format=ssh is not supported; --sign uses OpenPGP via gpg"@
}

/// Whether `gpg.format` asks for SSH signatures (in any letter case).
pub open spec fn asks_for_ssh(format: Option<Seq<char>>) -> bool {
    format matches Some(f) && eq_ignore_ascii_case_spec(f, "ssh"@)
}

/// An optional string slice taken as an optional character sequence.
pub open spec fn opt_view(o: Option<&str>) -> Option<Seq<char>> {
    match o {
        Some(s) => Some(s@),
        None => None,
    }
}

/// Chooses the signing command from the configuration values `gpg.format`,
/// `gpg.program` and `user.signingkey` (each absent when unset or
/// unreadable). SSH signing is refused.
pub fn gpg_invocation(format: Option<&str>, program: Option<&str>, signing_key: Option<&str>) -> (r: Result<GpgInvocation, AppError>)
    ensures
        asks_for_ssh(opt_view(format)) ==> (r matches Err(e) && e@ == ErrorView::SignFailed(
            ssh_format_message(),
        )),
        !asks_for_ssh(opt_view(format)) ==> (r matches Ok(inv) && inv.program@ == spec_gpg_program(
            opt_view(program),
        ) && inv.args@.map_values(|a: String| a@) == spec_gpg_args(opt_view(signing_key))),
{
    match format {
        Some(f) => {
            if eq_ignore_ascii_case(f, "ssh") {
                return Err(
                    AppError::SignFailed(
                        string_of("gpg.format=ssh is not supported; --sign uses OpenPGP via gpg"),
                    ),
                );
            }
        },
        None => {},
    }
    let prog = match program {
        Some(p) => if p.unicode_len() > 0 {
            string_of(p)
        } else {
            string_of("gpg")
        },
        None => string_of("gpg"),
    };
    let mut args: Vec<String> = Vec::new();
    args.push(string_of("--detach-sign"));
    args.push(string_of("--armor"));
    match signing_key {
        Some(k) => {
            if k.unicode_len() > 0 {
                args.push(string_of("--local-user"));
                args.push(string_of(k));
            }
        },
        None => {},
    }
    assert(args@.map_values(|a: String| a@) =~= spec_gpg_args(opt_view(signing_key)));
    Ok(GpgInvocation { program: prog, args })
}

/// How a run of the signing program ended, step by step: it could not be
/// started, its input could not be opened or written, waiting for it
/// failed, or it finished (successfully or not, with its status as
/// displayed and the bytes it wrote to its output).
pub enum GpgOutcome {
    SpawnFailed(String),
    NoStdin,
    WriteFailed(String),
    WaitFailed(String),
    Finished { success: bool, status: String, stdout: Vec<u8> },
}

/// The text an ASCII-armoured OpenPGP signature contains.
pub open spec fn pgp_marker() -> Seq<char> {
    "BEGIN PGP SIGNATURE"@
}

/// What a run of the signing program `program` that ended with `outcome`
/// gives: the signature, or why there is none.
pub open spec fn spec_gpg_signature(program: Seq<char>, outcome: GpgOutcome) -> Result<
    Seq<char>,
    ErrorView,
> {
    match outcome {
        GpgOutcome::SpawnFailed(e) => Err(
            ErrorView::SignFailed("could not run `"@ + program + "`: "@ + e@),
        ),
        GpgOutcome::NoStdin => Err(ErrorView::SignFailed("failed to open gpg stdin"@)),
        GpgOutcome::WriteFailed(e) => Err(ErrorView::SignFailed("failed to write to gpg: "@ + e@)),
        GpgOutcome::WaitFailed(e) => Err(
            ErrorView::SignFailed("failed to wait for `"@ + program + "`: "@ + e@),
        ),
        GpgOutcome::Finished { success, status, stdout } => if !success {
            Err(ErrorView::SignFailed("`"@ + program + "` exited with status "@ + status@))
        } else if !valid_utf8(stdout@) {
            Err(ErrorView::SignFailed("gpg produced a non-UTF-8 signature"@))
        } else if !contains_seq(decode_utf8(stdout@), pgp_marker()) {
            Err(
                ErrorView::SignFailed(
                    "gpg produced no signature (is user.signingkey set and is the secret key available?)"@,
                ),
            )
        } else {
            Ok(decode_utf8(stdout@))
        },
    }
}

/// Decodes bytes as UTF-8 with `String::from_utf8`, which accepts exactly
/// the well-formed UTF-8 byte sequences.
#[verifier::external_body]
fn utf8_string(bytes: Vec<u8>) -> (r: Option<String>)
    ensures
        r is Some <==> valid_utf8(bytes@),
        r matches Some(s) ==> s@ == decode_utf8(bytes@),
{
    match String::from_utf8(bytes) {
        Ok(s) => Some(s),
        Err(_) => None,
    }
}

/// Turns the end of a run of the signing program into the signature, or the
/// error that explains why there is none.
pub fn gpg_signature(program: &str, outcome: GpgOutcome) -> (r: Result<String, AppError>)
    ensures
        string_result_view(r) == spec_gpg_signature(program@, outcome),
{
    match outcome {
        GpgOutcome::SpawnFailed(e) => {
            let mut m = string_of("could not run `");
            m.append(program);
            m.append("`: ");
            m.append(e.as_str());
            Err(AppError::SignFailed(m))
        },
        GpgOutcome::NoStdin => Err(AppError::SignFailed(string_of("failed to open gpg stdin"))),
        GpgOutcome::WriteFailed(e) => {
            let mut m = string_of("failed to write to gpg: ");
            m.append(e.as_str());
            Err(AppError::SignFailed(m))
        },
        GpgOutcome::WaitFailed(e) => {
            let mut m = string_of("failed to wait for `");
            m.append(program);
            m.append("`: ");
            m.append(e.as_str());
            Err(AppError::SignFailed(m))
        },
        GpgOutcome::Finished { success, status, stdout } => {
            if !success {
                let mut m = string_of("`");
                m.append(program);
                m.append("` exited with status ");
                m.append(status.as_str());
                return Err(AppError::SignFailed(m));
            }
            match utf8_string(stdout) {
                None => Err(AppError::SignFailed(string_of("gpg produced a non-UTF-8 signature"))),
                Some(signature) => {
                    if contains_str(signature.as_str(), "BEGIN PGP SIGNATURE") {
                        Ok(signature)
                    } else {
                        Err(
                            AppError::SignFailed(
                                string_of(
                                    "gpg produced no signature (is user.signingkey set and is the secret key available?)",
                                ),
                            ),
                        )
                    }
                },
            }
        },
    }
}

} // verus!
