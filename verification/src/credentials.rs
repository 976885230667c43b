//! Which credential to offer a git remote next.
//!
//! A remote asks for credentials repeatedly until one works. Each kind is
//! offered at most once per push: the user name, the SSH agent, each SSH
//! identity file in turn, the credential helper and the default
//! credentials, in that order and only as far as the remote allows them.

use vstd::prelude::*;

verus! {

/// What has been offered to the remote so far in one push.
#[derive(Debug, Clone, Copy, PartialEq, Eq, Structural)]
pub struct CredAttempt {
    pub tried_username: bool,
    pub tried_agent: bool,
    pub key_index: usize,
    pub tried_helper: bool,
    pub tried_default: bool,
}

/// Nothing offered yet.
pub open spec fn fresh_attempt() -> CredAttempt {
    CredAttempt {
        tried_username: false,
        tried_agent: false,
        key_index: 0,
        tried_helper: false,
        tried_default: false,
    }
}

impl Default for CredAttempt {
    fn default() -> (r: Self)
        ensures
            r == fresh_attempt(),
    {
        CredAttempt {
            tried_username: false,
            tried_agent: false,
            key_index: 0,
            tried_helper: false,
            tried_default: false,
        }
    }
}

/// The kinds of credential the remote accepts in its current request.
#[derive(Debug, Clone, Copy, PartialEq, Eq, Structural)]
pub struct AllowedCredentials {
    pub username: bool,
    pub ssh_key: bool,
    pub user_pass_plaintext: bool,
    pub default: bool,
}

/// The credential to offer next. For the SSH agent and the identity files,
/// a credential that cannot be built means asking again; the others are
/// handed to the remote as they come out, and `Fail` ends authentication.
#[derive(Debug, Clone, Copy, PartialEq, Eq, Structural)]
pub enum CredentialAction {
    Username,
    SshAgent,
    SshKey(usize),
    Helper,
    Default,
    Fail,
}

impl CredentialAction {
    /// Whether a credential of this kind that cannot be built means asking
    /// for the next one: so for the SSH agent and the identity files; the
    /// other credentials, built or not, are the answer to the remote.
    pub fn retries_on_failure(&self) -> (r: bool)
        ensures
            r == (*self == CredentialAction::SshAgent || *self is SshKey),
    {
        match self {
            CredentialAction::SshAgent => true,
            CredentialAction::SshKey(_) => true,
            _ => false,
        }
    }
}

/// The next credential to offer and the record of offers after it, given the
/// kinds the remote accepts and the number of SSH identity files.
pub open spec fn spec_next_credential(s: CredAttempt, allowed: AllowedCredentials, key_count: usize) -> (
    CredAttempt,
    CredentialAction,
) {
    if allowed.username && !s.tried_username {
        (CredAttempt { tried_username: true, ..s }, CredentialAction::Username)
    } else if allowed.ssh_key && !s.tried_agent {
        (CredAttempt { tried_agent: true, ..s }, CredentialAction::SshAgent)
    } else if allowed.ssh_key && s.key_index < key_count {
        (
            CredAttempt { key_index: (s.key_index + 1) as usize, ..s },
            CredentialAction::SshKey(s.key_index),
        )
    } else if allowed.user_pass_plaintext && !s.tried_helper {
        (CredAttempt { tried_helper: true, ..s }, CredentialAction::Helper)
    } else if allowed.default && !s.tried_default {
        (CredAttempt { tried_default: true, ..s }, CredentialAction::Default)
    } else {
        (s, CredentialAction::Fail)
    }
}

/// Records the next offer in `state` and says what it is.
pub fn next_credential(state: &mut CredAttempt, allowed: &AllowedCredentials, key_count: usize) -> (r: CredentialAction)
    ensures
        (*final(state), r) == spec_next_credential(*old(state), *allowed, key_count),
{
    if allowed.username && !state.tried_username {
        state.tried_username = true;
        return CredentialAction::Username;
    }
    if allowed.ssh_key {
        if !state.tried_agent {
            state.tried_agent = true;
            return CredentialAction::SshAgent;
        }
        if state.key_index < key_count {
            let k = state.key_index;
            state.key_index = k + 1;
            return CredentialAction::SshKey(k);
        }
    }
    if allowed.user_pass_plaintext && !state.tried_helper {
        state.tried_helper = true;
        return CredentialAction::Helper;
    }
    if allowed.default && !state.tried_default {
        state.tried_default = true;
        return CredentialAction::Default;
    }
    CredentialAction::Fail
}

/// How many offers are still possible: one per kind not yet tried, one per
/// identity file not yet tried.
pub open spec fn offers_left(s: CredAttempt, key_count: usize) -> nat {
    (if s.tried_username { 0nat } else { 1nat }) + (if s.tried_agent { 0nat } else { 1nat }) + (if s.key_index
        < key_count { (key_count - s.key_index) as nat } else { 0nat }) + (if s.tried_helper { 0nat } else {
        1nat
    }) + (if s.tried_default { 0nat } else { 1nat })
}

/// Every offer uses up one of the remaining ones, so asking again and again
/// ends in `Fail` after at most `key_count + 4` offers; `Fail` changes
/// nothing; and what has been tried stays tried, so no kind and no identity
/// file is offered twice.
pub proof fn lemma_offers_run_out(s: CredAttempt, allowed: AllowedCredentials, key_count: usize)
    ensures
        ({
            let (t, a) = spec_next_credential(s, allowed, key_count);
            &&& a != CredentialAction::Fail ==> offers_left(t, key_count) < offers_left(s, key_count)
            &&& a == CredentialAction::Fail ==> t == s
            &&& s.tried_username ==> t.tried_username && a != CredentialAction::Username
            &&& s.tried_agent ==> t.tried_agent && a != CredentialAction::SshAgent
            &&& s.tried_helper ==> t.tried_helper && a != CredentialAction::Helper
            &&& s.tried_default ==> t.tried_default && a != CredentialAction::Default
            &&& s.key_index <= t.key_index
            &&& (a matches CredentialAction::SshKey(k) ==> s.key_index <= k < t.key_index && k < key_count)
        }),
        offers_left(fresh_attempt(), key_count) == key_count + 4,
{
}


/// Only kinds the remote accepts are offered: an SSH credential (the agent
/// or an identity file) only to a remote that allows SSH keys, the user
/// name, the helper and the default credentials only where allowed. Where
/// SSH keys are not allowed, neither the offer nor the record of identity
/// files tried depends on how many identity files there are.
pub proof fn lemma_offers_follow_allowed(
    s: CredAttempt,
    allowed: AllowedCredentials,
    key_count: usize,
    other_count: usize,
)
    ensures
        ({
            let (t, a) = spec_next_credential(s, allowed, key_count);
            &&& (a == CredentialAction::SshAgent || a is SshKey) ==> allowed.ssh_key
            &&& a == CredentialAction::Username ==> allowed.username
            &&& a == CredentialAction::Helper ==> allowed.user_pass_plaintext
            &&& a == CredentialAction::Default ==> allowed.default
            &&& !allowed.ssh_key ==> t.key_index == s.key_index && spec_next_credential(
                s,
                allowed,
                other_count,
            ) == (t, a)
        }),
{
}

} // verus!
