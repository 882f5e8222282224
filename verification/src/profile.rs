//! A single identity profile and its mathematical view.

use vstd::prelude::*;

verus! {

/// The abstract value of an optional string.
pub open spec fn opt_view(s: Option<String>) -> Option<Seq<char>> {
    match s {
        Some(t) => Some(t@),
        None => None,
    }
}

/// The abstract value of a profile: every field as a sequence of characters.
pub struct ProfileView {
    pub email: Seq<char>,
    pub username: Seq<char>,
    pub token_env: Option<Seq<char>>,
    pub ssh_config: Option<Seq<char>>,
}

/// A bundle of git identity settings with optional token and SSH settings.
///
/// `token_env` holds the *name* of an environment variable, never its value.
/// `ssh_config` is the path of an SSH configuration fragment and may start
/// with the home-directory shorthand `~`.
#[derive(Debug, Clone, PartialEq, Eq)]
pub struct ProfileConfig {
    pub email: String,
    pub username: String,
    pub token_env: Option<String>,
    pub ssh_config: Option<String>,
}

impl View for ProfileConfig {
    type V = ProfileView;

    open spec fn view(&self) -> ProfileView {
        ProfileView {
            email: self.email@,
            username: self.username@,
            token_env: opt_view(self.token_env),
            ssh_config: opt_view(self.ssh_config),
        }
    }
}

/// Copies an optional string, keeping its abstract value.
pub fn clone_opt(s: &Option<String>) -> (r: Option<String>)
    ensures
        opt_view(r) == opt_view(*s),
{
    match s {
        Some(t) => Some(t.clone()),
        None => None,
    }
}

impl ProfileConfig {
    /// Builds a profile from its four settings.
    pub fn new(
        email: String,
        username: String,
        token_env: Option<String>,
        ssh_config: Option<String>,
    ) -> (p: ProfileConfig)
        ensures
            p@ == (ProfileView {
                email: email@,
                username: username@,
                token_env: opt_view(token_env),
                ssh_config: opt_view(ssh_config),
            }),
    {
        ProfileConfig { email, username, token_env, ssh_config }
    }

    /// A copy of the profile with the same abstract value.
    pub fn duplicate(&self) -> (p: ProfileConfig)
        ensures
            p@ == self@,
    {
        ProfileConfig {
            email: self.email.clone(),
            username: self.username.clone(),
            token_env: clone_opt(&self.token_env),
            ssh_config: clone_opt(&self.ssh_config),
        }
    }
}

} // verus!
