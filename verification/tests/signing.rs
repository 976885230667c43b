use git_release::errors::AppError;
use git_release::signing::{gpg_invocation, gpg_signature, GpgOutcome};

const SIG: &str = "-----BEGIN PGP SIGNATURE-----\n\nabc\n-----END PGP SIGNATURE-----\n";

#[test]
fn ssh_format_is_refused_in_any_case() {
    for f in ["ssh", "SSH", "sSh"] {
        assert_eq!(
            gpg_invocation(Some(f), None, None).err(),
            Some(AppError::SignFailed(
                "gpg.format=ssh is not supported; --sign uses OpenPGP via gpg".to_owned()
            ))
        );
    }
    assert!(gpg_invocation(Some("openpgp"), None, None).is_ok());
    assert!(gpg_invocation(Some("sshx"), None, None).is_ok());
}

#[test]
fn gpg_program_and_key_come_from_the_configuration() {
    let inv = gpg_invocation(None, None, None).ok().unwrap();
    assert_eq!(inv.program, "gpg");
    assert_eq!(inv.args, vec!["--detach-sign", "--armor"]);
    let inv = gpg_invocation(None, Some(""), Some("")).ok().unwrap();
    assert_eq!(inv.program, "gpg");
    assert_eq!(inv.args, vec!["--detach-sign", "--armor"]);
    let inv = gpg_invocation(Some("openpgp"), Some("gpg2"), Some("ABCD")).ok().unwrap();
    assert_eq!(inv.program, "gpg2");
    assert_eq!(inv.args, vec!["--detach-sign", "--armor", "--local-user", "ABCD"]);
}

#[test]
fn gpg_output_becomes_the_signature() {
    let out = GpgOutcome::Finished { success: true, status: "exit status: 0".to_owned(), stdout: SIG.as_bytes().to_vec() };
    assert_eq!(gpg_signature("gpg", out), Ok(SIG.to_owned()));
}

#[test]
fn gpg_failures_are_explained() {
    let fail = |o| match gpg_signature("gpg2", o) {
        Err(AppError::SignFailed(m)) => m,
        other => panic!("unexpected: {:?}", other),
    };
    assert_eq!(fail(GpgOutcome::SpawnFailed("nope".to_owned())), "could not run `gpg2`: nope");
    assert_eq!(fail(GpgOutcome::NoStdin), "failed to open gpg stdin");
    assert_eq!(fail(GpgOutcome::WriteFailed("pipe".to_owned())), "failed to write to gpg: pipe");
    assert_eq!(fail(GpgOutcome::WaitFailed("x".to_owned())), "failed to wait for `gpg2`: x");
    assert_eq!(
        fail(GpgOutcome::Finished { success: false, status: "exit status: 2".to_owned(), stdout: vec![] }),
        "`gpg2` exited with status exit status: 2"
    );
    assert_eq!(
        fail(GpgOutcome::Finished { success: true, status: String::new(), stdout: vec![0xff, 0xfe] }),
        "gpg produced a non-UTF-8 signature"
    );
    assert_eq!(
        fail(GpgOutcome::Finished { success: true, status: String::new(), stdout: b"hello".to_vec() }),
        "gpg produced no signature (is user.signingkey set and is the secret key available?)"
    );
}
