use git_release::credentials::{next_credential, AllowedCredentials, CredAttempt, CredentialAction};
use git_release::git::{
    annotated_tag_payload, branch_display_name, detached_head_error, format_git_signature,
    head_update, no_upstream_error, push_refspecs, rejected_update_message, release_message,
    released_message, remote_not_found_error, signed_tag_content, ssh_identity_names, tag_name,
    tag_ref, GitSignature, HeadState, HeadUpdate,
};
use git_release::errors::AppError;

fn ada(seconds: i64, offset_minutes: i32) -> GitSignature {
    GitSignature {
        name: Some("Ada".to_owned()),
        email: Some("ada@example.com".to_owned()),
        seconds,
        offset_minutes,
        sign: if offset_minutes < 0 { '-' } else { '+' },
    }
}

#[test]
fn git_signature_formats_offset() {
    let sig = ada(1_700_000_000, 180);
    assert_eq!(
        format_git_signature(&sig),
        "Ada <ada@example.com> 1700000000 +0300"
    );

    let sig = ada(1_700_000_000, -270);
    assert_eq!(
        format_git_signature(&sig),
        "Ada <ada@example.com> 1700000000 -0430"
    );
}

#[test]
fn annotated_tag_payload_ends_with_newline() {
    let sig = ada(1_700_000_000, 0);
    let oid = "aaaaaaaaaaaaaaaaaaaaaaaaaaaaaaaaaaaaaaaa";
    let payload = annotated_tag_payload("v1.2.3", oid, "commit", &sig, "Release: v1.2.3");
    assert!(payload.ends_with('\n'));
    assert!(payload.starts_with("object aaaaaaaaaaaaaaaaaaaaaaaaaaaaaaaaaaaaaaaa\n"));
    assert!(payload.contains("type commit\n"));
    assert!(payload.contains("tag v1.2.3\n"));
    assert!(payload.contains("tagger Ada <ada@example.com> 1700000000 +0000\n"));
    assert!(payload.contains("\n\nRelease: v1.2.3\n"));
}

#[test]
fn signature_edge_cases() {
    let sig = GitSignature { name: None, email: None, seconds: -5, offset_minutes: 0, sign: '-' };
    assert_eq!(format_git_signature(&sig), " <> -5 -0000");
    let sig = ada(0, 6005);
    assert_eq!(format_git_signature(&sig), "Ada <ada@example.com> 0 +10005");
    let sig = ada(i64::MIN, i32::MIN);
    assert_eq!(
        format_git_signature(&sig),
        "Ada <ada@example.com> -9223372036854775808 -3579139408"
    );
}

#[test]
fn tag_payload_is_exact_and_keeps_a_final_newline() {
    let sig = ada(1, 60);
    let payload = annotated_tag_payload("v0.1.0", "abc", "commit", &sig, "msg\n");
    assert_eq!(payload, "object abc\ntype commit\ntag v0.1.0\ntagger Ada <ada@example.com> 1 +0100\n\nmsg\n");
    let payload = annotated_tag_payload("v0.1.0", "abc", "commit", &sig, "msg");
    assert!(payload.ends_with("\n\nmsg\n"));
}

#[test]
fn release_names_and_messages() {
    assert_eq!(tag_name("1.2.3"), "v1.2.3");
    assert_eq!(release_message("1.2.3"), "Release: v1.2.3");
    assert_eq!(tag_ref("v1.2.3"), "refs/tags/v1.2.3");
    assert_eq!(released_message("1.2.3", true), "Released v1.2.3 and pushed.");
    assert_eq!(
        released_message("1.2.3", false),
        "Released v1.2.3. Run `git push --follow-tags` to publish."
    );
}

#[test]
fn signed_tag_content_ends_with_newline() {
    assert_eq!(signed_tag_content("payload\n", "SIG"), "payload\nSIG\n");
    assert_eq!(signed_tag_content("payload\n", "SIG\n"), "payload\nSIG\n");
    assert_eq!(signed_tag_content("", ""), "\n");
}

#[test]
fn push_refspecs_follow_the_upstream() {
    let (branch, tag) = push_refspecs("refs/heads/main", Some("refs/heads/trunk"), "2.0.0");
    assert_eq!(branch, "refs/heads/main:refs/heads/trunk");
    assert_eq!(tag, "refs/tags/v2.0.0");
    let (branch, _) = push_refspecs("refs/heads/main", None, "2.0.0");
    assert_eq!(branch, "refs/heads/main:refs/heads/main");
    assert_eq!(branch_display_name(Some("main"), "refs/heads/main"), "main");
    assert_eq!(branch_display_name(None, "refs/heads/main"), "refs/heads/main");
}

#[test]
fn push_errors_name_what_failed() {
    assert_eq!(
        detached_head_error(),
        AppError::PushFailed("HEAD is detached; check out a branch before using --push".to_owned())
    );
    assert_eq!(
        no_upstream_error("main"),
        AppError::PushFailed("branch 'main' has no upstream remote".to_owned())
    );
    assert_eq!(
        remote_not_found_error("origin", "gone"),
        AppError::PushFailed("remote 'origin' not found: gone".to_owned())
    );
    assert_eq!(rejected_update_message("refs/tags/v1", "stale"), "rejected refs/tags/v1: stale");
}

#[test]
fn head_moves_according_to_its_state() {
    assert_eq!(head_update(HeadState::Branch), HeadUpdate::SetBranchTarget);
    assert_eq!(head_update(HeadState::Detached), HeadUpdate::DetachAt);
    assert_eq!(head_update(HeadState::Unborn), HeadUpdate::CreateSymbolicTarget);
    assert_eq!(head_update(HeadState::Unreadable), HeadUpdate::ReportError);
}

#[test]
fn ssh_identities_are_tried_in_order() {
    assert_eq!(ssh_identity_names(), vec!["id_ed25519", "id_ecdsa", "id_rsa"]);
}

#[test]
fn credentials_are_offered_once_each_in_order() {
    let all = AllowedCredentials { username: true, ssh_key: true, user_pass_plaintext: true, default: true };
    let mut state = CredAttempt::default();
    let mut offers = Vec::new();
    loop {
        let a = next_credential(&mut state, &all, 2);
        offers.push(a);
        if a == CredentialAction::Fail {
            break;
        }
    }
    assert_eq!(
        offers,
        vec![
            CredentialAction::Username,
            CredentialAction::SshAgent,
            CredentialAction::SshKey(0),
            CredentialAction::SshKey(1),
            CredentialAction::Helper,
            CredentialAction::Default,
            CredentialAction::Fail,
        ]
    );
    // Nothing more is offered once everything was tried.
    assert_eq!(next_credential(&mut state, &all, 2), CredentialAction::Fail);
}

#[test]
fn credentials_follow_what_the_remote_allows() {
    let ssh_only = AllowedCredentials { username: false, ssh_key: true, user_pass_plaintext: false, default: false };
    let mut state = CredAttempt::default();
    assert_eq!(next_credential(&mut state, &ssh_only, 0), CredentialAction::SshAgent);
    assert_eq!(next_credential(&mut state, &ssh_only, 0), CredentialAction::Fail);
    let helper = AllowedCredentials { username: false, ssh_key: false, user_pass_plaintext: true, default: false };
    assert_eq!(next_credential(&mut state, &helper, 0), CredentialAction::Helper);
    assert_eq!(next_credential(&mut state, &helper, 0), CredentialAction::Fail);
}

#[test]
fn only_ssh_credentials_are_retried_when_they_cannot_be_built() {
    assert!(CredentialAction::SshAgent.retries_on_failure());
    assert!(CredentialAction::SshKey(3).retries_on_failure());
    assert!(!CredentialAction::Username.retries_on_failure());
    assert!(!CredentialAction::Helper.retries_on_failure());
    assert!(!CredentialAction::Default.retries_on_failure());
    assert!(!CredentialAction::Fail.retries_on_failure());
}
