//! Applying a profile: which outside actions to take, in which order, and
//! what to report. The actions themselves (running the identity tool,
//! reading and writing files, printing) are carried out by the caller, who
//! reports each outcome back as an event.

use crate::error::{ConfigError, ConfigErrorView};
use crate::profile::{ProfileConfig, ProfileView};
use crate::text::{clone_texts, texts};
use vstd::prelude::*;

verus! {

/// What holds of `output` whenever it is the home-directory expansion of
/// `input`: text that does not start with `~` is unchanged; `~` followed by
/// a path separator or by nothing has the `~` replaced by some home
/// directory, or is unchanged where none is known; `~` followed by anything
/// else is unchanged.
pub open spec fn tilde_expanded(input: Seq<char>, output: Seq<char>) -> bool {
    if input.len() >= 1 && input[0] == '~' && (input.len() == 1 || input[1] == '/' || input[1]
        == '\\') {
        output == input || exists|home: Seq<char>| output == home + input.skip(1)
    } else {
        output == input
    }
}

/// Expands a leading `~` to the user's home directory with
/// `shellexpand::tilde`. The result depends on the environment, so the
/// contract claims only what `tilde_expanded` says of every outcome.
#[verifier::external_body]
fn expand_tilde(input: &str) -> (output: String)
    ensures
        tilde_expanded(input@, output@),
{
    shellexpand::tilde(input).into_owned()
}

/// The statement that re-exports the token variable, if the profile names one.
pub open spec fn export_lines(token_env: Option<Seq<char>>) -> Seq<Seq<char>> {
    match token_env {
        Some(var) => seq!["export GITHUB_TOKEN=\"${"@ + var + "}\""@],
        None => seq![],
    }
}

/// The summary line for the token variable, if the profile names one.
pub open spec fn token_lines(token_env: Option<Seq<char>>) -> Seq<Seq<char>> {
    match token_env {
        Some(var) => seq!["# Using token from: "@ + var],
        None => seq![],
    }
}

/// The summary line for the SSH fragment, if the profile names one.
pub open spec fn ssh_lines(ssh_config: Option<Seq<char>>) -> Seq<Seq<char>> {
    match ssh_config {
        Some(path) => seq!["# SSH config: "@ + path],
        None => seq![],
    }
}

/// The report of a switch to profile `name`: the export statement for the
/// token variable, which names the variable and never holds its value, then
/// the applied settings as shell comments.
pub open spec fn report_lines(name: Seq<char>, p: ProfileView) -> Seq<Seq<char>> {
    export_lines(p.token_env) + seq![
        "# Profile switched to: "@ + name,
        "# Email: "@ + p.email,
        "# Username: "@ + p.username,
    ] + token_lines(p.token_env) + ssh_lines(p.ssh_config)
}

/// `label` followed by `value`.
fn labelled(label: &str, value: &str) -> (out: String)
    ensures
        out@ == label@ + value@,
{
    let mut out = String::from_str(label);
    out.append(value);
    out
}

/// Builds the report of a switch to profile `name`.
pub fn switch_report(name: &str, profile: &ProfileConfig) -> (lines: Vec<String>)
    ensures
        texts(lines@) == report_lines(name@, profile@),
{
    let mut lines: Vec<String> = Vec::new();
    if let Some(var) = &profile.token_env {
        let mut line = String::from_str("export GITHUB_TOKEN=\"${");
        line.append(var.as_str());
        line.append("}\"");
        lines.push(line);
    }
    assert(texts(lines@) =~= export_lines(profile@.token_env));
    lines.push(labelled("# Profile switched to: ", name));
    lines.push(labelled("# Email: ", profile.email.as_str()));
    lines.push(labelled("# Username: ", profile.username.as_str()));
    let ghost head = export_lines(profile@.token_env) + seq![
        "# Profile switched to: "@ + name@,
        "# Email: "@ + profile@.email,
        "# Username: "@ + profile@.username,
    ];
    assert(texts(lines@) =~= head);
    if let Some(var) = &profile.token_env {
        lines.push(labelled("# Using token from: ", var.as_str()));
    }
    assert(texts(lines@) =~= head + token_lines(profile@.token_env));
    if let Some(path) = &profile.ssh_config {
        lines.push(labelled("# SSH config: ", path.as_str()));
    }
    assert(texts(lines@) =~= head + token_lines(profile@.token_env) + ssh_lines(
        profile@.ssh_config,
    ));
    lines
}

/// The abstract value of a [`SwitchPlan`].
pub struct SwitchPlanView {
    pub email: Seq<char>,
    pub username: Seq<char>,
    pub fragment: Option<Seq<char>>,
    pub ssh_target: Seq<char>,
    pub report: Seq<Seq<char>>,
}

/// Everything a switch to one profile will do, decided before any outside
/// state is touched.
#[derive(Debug, Clone, PartialEq, Eq)]
pub struct SwitchPlan {
    /// The email to set as the global identity email.
    pub email: String,
    /// The name to set as the global identity username.
    pub username: String,
    /// Where to read the SSH fragment from, if the profile names one.
    pub fragment: Option<String>,
    /// The SSH configuration file that the fragment replaces.
    pub ssh_target: String,
    /// The lines to print once the profile is applied.
    pub report: Vec<String>,
}

impl View for SwitchPlan {
    type V = SwitchPlanView;

    open spec fn view(&self) -> SwitchPlanView {
        SwitchPlanView {
            email: self.email@,
            username: self.username@,
            fragment: crate::profile::opt_view(self.fragment),
            ssh_target: self.ssh_target@,
            report: texts(self.report@),
        }
    }
}

/// The abstract value of a [`SwitchEvent`].
pub enum SwitchEventView {
    Start,
    EmailSet { invoked: bool, succeeded: bool },
    UsernameSet { invoked: bool, succeeded: bool },
    FragmentRead { contents: Option<Seq<char>> },
    SshConfigWritten { written: bool },
}

/// What the caller reports back: the start of the switch, or the outcome of
/// the action it was last asked to take.
#[derive(Debug, Clone, PartialEq, Eq)]
pub enum SwitchEvent {
    /// Nothing has been done yet.
    Start,
    /// The identity tool was asked to set the email. `invoked` tells whether
    /// it could be run at all, `succeeded` whether it ended in success. Of
    /// its exit status nothing more than that is looked at.
    EmailSet { invoked: bool, succeeded: bool },
    /// The identity tool was asked to set the username; the fields are those
    /// of `EmailSet`.
    UsernameSet { invoked: bool, succeeded: bool },
    /// The SSH fragment was read, or could not be (`None`).
    FragmentRead { contents: Option<String> },
    /// The SSH configuration file was written, or could not be.
    SshConfigWritten { written: bool },
}

impl View for SwitchEvent {
    type V = SwitchEventView;

    open spec fn view(&self) -> SwitchEventView {
        match *self {
            SwitchEvent::Start => SwitchEventView::Start,
            SwitchEvent::EmailSet { invoked, succeeded } => SwitchEventView::EmailSet {
                invoked,
                succeeded,
            },
            SwitchEvent::UsernameSet { invoked, succeeded } => SwitchEventView::UsernameSet {
                invoked,
                succeeded,
            },
            SwitchEvent::FragmentRead { contents } => SwitchEventView::FragmentRead {
                contents: crate::profile::opt_view(contents),
            },
            SwitchEvent::SshConfigWritten { written } => SwitchEventView::SshConfigWritten {
                written,
            },
        }
    }
}

/// The abstract value of a [`SwitchAction`].
pub enum SwitchActionView {
    SetEmail { email: Seq<char> },
    SetUsername { username: Seq<char> },
    ReadFragment { path: Seq<char> },
    WriteSshConfig { path: Seq<char>, contents: Seq<char> },
    Report { lines: Seq<Seq<char>> },
    Fail { error: ConfigErrorView },
}

/// What the caller must do next. `Report` and `Fail` end the switch.
#[derive(Debug, Clone, PartialEq, Eq)]
pub enum SwitchAction {
    /// Set the global identity email, then report `EmailSet`.
    SetEmail { email: String },
    /// Set the global identity username, then report `UsernameSet`.
    SetUsername { username: String },
    /// Read the file at `path`, then report `FragmentRead`.
    ReadFragment { path: String },
    /// Replace the file at `path` with `contents`, then report
    /// `SshConfigWritten`.
    WriteSshConfig { path: String, contents: String },
    /// Print `lines`; the profile is applied.
    Report { lines: Vec<String> },
    /// Stop with `error`.
    Fail { error: ConfigError },
}

impl View for SwitchAction {
    type V = SwitchActionView;

    open spec fn view(&self) -> SwitchActionView {
        match *self {
            SwitchAction::SetEmail { email } => SwitchActionView::SetEmail { email: email@ },
            SwitchAction::SetUsername { username } => SwitchActionView::SetUsername {
                username: username@,
            },
            SwitchAction::ReadFragment { path } => SwitchActionView::ReadFragment { path: path@ },
            SwitchAction::WriteSshConfig { path, contents } => SwitchActionView::WriteSshConfig {
                path: path@,
                contents: contents@,
            },
            SwitchAction::Report { lines } => SwitchActionView::Report { lines: texts(lines@) },
            SwitchAction::Fail { error } => SwitchActionView::Fail { error: error@ },
        }
    }
}

impl SwitchPlanView {
    /// The action that follows `event`.
    ///
    /// The email is set first and the username second. Each must have been
    /// set: where the identity tool could not be run, or ran and ended in
    /// failure, the switch fails. The SSH fragment comes third and
    /// never fails the switch: without a fragment path, with an unreadable
    /// fragment, or after the write, whether it succeeded or not, the report
    /// follows.
    pub open spec fn next(self, event: SwitchEventView) -> SwitchActionView {
        match event {
            SwitchEventView::Start => SwitchActionView::SetEmail { email: self.email },
            SwitchEventView::EmailSet { invoked, succeeded } => {
                if invoked && succeeded {
                    SwitchActionView::SetUsername { username: self.username }
                } else {
                    SwitchActionView::Fail {
                        error: ConfigErrorView::ExternalToolError {
                            detail: "Failed to set git email"@,
                        },
                    }
                }
            },
            SwitchEventView::UsernameSet { invoked, succeeded } => {
                if !(invoked && succeeded) {
                    SwitchActionView::Fail {
                        error: ConfigErrorView::ExternalToolError {
                            detail: "Failed to set git username"@,
                        },
                    }
                } else {
                    match self.fragment {
                        Some(path) => SwitchActionView::ReadFragment { path },
                        None => SwitchActionView::Report { lines: self.report },
                    }
                }
            },
            SwitchEventView::FragmentRead { contents } => {
                match contents {
                    Some(text) => SwitchActionView::WriteSshConfig {
                        path: self.ssh_target,
                        contents: text,
                    },
                    None => SwitchActionView::Report { lines: self.report },
                }
            },
            SwitchEventView::SshConfigWritten { written } => SwitchActionView::Report {
                lines: self.report,
            },
        }
    }
}

/// How the outside world answers the actions of one switch: for each
/// setting whether the identity tool can be run and whether it ends in
/// success, what the fragment holds if it can be read, and whether the SSH
/// configuration file can be written.
pub struct WorldView {
    pub email_invoked: bool,
    pub email_succeeded: bool,
    pub username_invoked: bool,
    pub username_succeeded: bool,
    pub fragment: Option<Seq<char>>,
    pub written: bool,
}

impl WorldView {
    /// The event that reports the outcome of `action`, if the switch goes on
    /// after it.
    pub open spec fn answer(self, action: SwitchActionView) -> Option<SwitchEventView> {
        match action {
            SwitchActionView::SetEmail { .. } => Some(
                SwitchEventView::EmailSet {
                    invoked: self.email_invoked,
                    succeeded: self.email_succeeded,
                },
            ),
            SwitchActionView::SetUsername { .. } => Some(
                SwitchEventView::UsernameSet {
                    invoked: self.username_invoked,
                    succeeded: self.username_succeeded,
                },
            ),
            SwitchActionView::ReadFragment { .. } => Some(
                SwitchEventView::FragmentRead { contents: self.fragment },
            ),
            SwitchActionView::WriteSshConfig { .. } => Some(
                SwitchEventView::SshConfigWritten { written: self.written },
            ),
            SwitchActionView::Report { .. } => None,
            SwitchActionView::Fail { .. } => None,
        }
    }
}

impl SwitchPlanView {
    /// The actions taken from `action` on, at most `steps` after it.
    pub open spec fn actions_from(
        self,
        world: WorldView,
        action: SwitchActionView,
        steps: nat,
    ) -> Seq<SwitchActionView>
        decreases steps,
    {
        match world.answer(action) {
            Some(event) if steps > 0 => seq![action] + self.actions_from(
                world,
                self.next(event),
                (steps - 1) as nat,
            ),
            _ => seq![action],
        }
    }

    /// All the actions of a switch, in order.
    pub open spec fn actions(self, world: WorldView) -> Seq<SwitchActionView> {
        self.actions_from(world, self.next(SwitchEventView::Start), 4)
    }
}

/// A switch sets the email, then the username, then replaces the SSH
/// configuration where the profile names a fragment and it can be read, and
/// ends with the report. It ends early, with a failure and nothing further
/// done, exactly where a setting was not made: the identity tool could not
/// be run, or ran and ended in failure. Then the SSH configuration is not
/// written and nothing is reported. Neither an unreadable fragment nor a
/// failed write keeps the report back.
pub proof fn lemma_switch_order(plan: SwitchPlanView, world: WorldView)
    ensures
        plan.actions(world) == {
            let set_email = SwitchActionView::SetEmail { email: plan.email };
            let set_username = SwitchActionView::SetUsername { username: plan.username };
            let report = SwitchActionView::Report { lines: plan.report };
            if !(world.email_invoked && world.email_succeeded) {
                seq![
                    set_email,
                    SwitchActionView::Fail {
                        error: ConfigErrorView::ExternalToolError {
                            detail: "Failed to set git email"@,
                        },
                    },
                ]
            } else if !(world.username_invoked && world.username_succeeded) {
                seq![
                    set_email,
                    set_username,
                    SwitchActionView::Fail {
                        error: ConfigErrorView::ExternalToolError {
                            detail: "Failed to set git username"@,
                        },
                    },
                ]
            } else {
                match (plan.fragment, world.fragment) {
                    (None, _) => seq![set_email, set_username, report],
                    (Some(path), None) => seq![
                        set_email,
                        set_username,
                        SwitchActionView::ReadFragment { path },
                        report,
                    ],
                    (Some(path), Some(contents)) => seq![
                        set_email,
                        set_username,
                        SwitchActionView::ReadFragment { path },
                        SwitchActionView::WriteSshConfig { path: plan.ssh_target, contents },
                        report,
                    ],
                }
            }
        },
{
    reveal_with_fuel(SwitchPlanView::actions_from, 6);
}

impl SwitchPlan {
    /// Puts a plan together from a profile and the two expanded paths:
    /// `fragment` for the profile's SSH fragment, `ssh_target` for the SSH
    /// configuration file.
    pub fn assemble(
        name: &str,
        profile: &ProfileConfig,
        fragment: Option<String>,
        ssh_target: String,
    ) -> (plan: SwitchPlan)
        ensures
            plan@ == (SwitchPlanView {
                email: profile@.email,
                username: profile@.username,
                fragment: crate::profile::opt_view(fragment),
                ssh_target: ssh_target@,
                report: report_lines(name@, profile@),
            }),
    {
        SwitchPlan {
            email: profile.email.clone(),
            username: profile.username.clone(),
            fragment,
            ssh_target,
            report: switch_report(name, profile),
        }
    }

    /// The action that follows `event`.
    pub fn next_action(&self, event: SwitchEvent) -> (action: SwitchAction)
        ensures
            action@ == self@.next(event@),
    {
        match event {
            SwitchEvent::Start => SwitchAction::SetEmail { email: self.email.clone() },
            SwitchEvent::EmailSet { invoked, succeeded } => {
                if invoked && succeeded {
                    SwitchAction::SetUsername { username: self.username.clone() }
                } else {
                    SwitchAction::Fail {
                        error: ConfigError::ExternalToolError {
                            detail: String::from_str("Failed to set git email"),
                        },
                    }
                }
            },
            SwitchEvent::UsernameSet { invoked, succeeded } => {
                if !(invoked && succeeded) {
                    SwitchAction::Fail {
                        error: ConfigError::ExternalToolError {
                            detail: String::from_str("Failed to set git username"),
                        },
                    }
                } else {
                    match &self.fragment {
                        Some(path) => SwitchAction::ReadFragment { path: path.clone() },
                        None => SwitchAction::Report { lines: clone_texts(&self.report) },
                    }
                }
            },
            SwitchEvent::FragmentRead { contents } => {
                match contents {
                    Some(text) => SwitchAction::WriteSshConfig {
                        path: self.ssh_target.clone(),
                        contents: text,
                    },
                    None => SwitchAction::Report { lines: clone_texts(&self.report) },
                }
            },
            SwitchEvent::SshConfigWritten { written } => SwitchAction::Report {
                lines: clone_texts(&self.report),
            },
        }
    }
}

/// Plans the switch to `profile`, known as `name`. The fragment path and
/// `~/.ssh/config` have their home-directory shorthand expanded for the
/// current user.
pub fn switch_profile(name: &str, profile: &ProfileConfig) -> (plan: SwitchPlan)
    ensures
        plan@.email == profile@.email,
        plan@.username == profile@.username,
        plan@.report == report_lines(name@, profile@),
        match profile@.ssh_config {
            Some(path) => plan@.fragment is Some && tilde_expanded(path, plan@.fragment->0),
            None => plan@.fragment is None,
        },
        tilde_expanded("~/.ssh/config"@, plan@.ssh_target),
{
    let fragment = match &profile.ssh_config {
        Some(path) => Some(expand_tilde(path.as_str())),
        None => None,
    };
    let ssh_target = expand_tilde("~/.ssh/config");
    SwitchPlan::assemble(name, profile, fragment, ssh_target)
}

} // verus!
