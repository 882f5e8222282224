//! Where the configuration lives: the locations searched for a
//! configuration file, and the location a store is saved to.

use crate::error::{ConfigError, ConfigErrorView};
use crate::profile::opt_view;
use crate::store::Config;
use crate::text::texts;
use vstd::prelude::*;

verus! {

/// `component` below the directory `base`: the two joined by `/`, unless
/// `base` is empty or ends in `/` already.
pub open spec fn path_join(base: Seq<char>, component: Seq<char>) -> Seq<char> {
    if base.len() == 0 || base.last() == '/' {
        base + component
    } else {
        base + "/"@ + component
    }
}

/// The tool's own directory below the user's configuration directory.
pub open spec fn tool_dir(config_dir: Seq<char>) -> Seq<char> {
    path_join(config_dir, "switch_profile"@)
}

/// The tool's configuration file below the user's configuration directory.
pub open spec fn config_file(config_dir: Seq<char>) -> Seq<char> {
    path_join(tool_dir(config_dir), "config.yaml"@)
}

/// The locations searched for a configuration file, first to last: the
/// current directory, then the tool's directory below the user's
/// configuration directory, where that is known.
pub open spec fn candidate_paths(config_dir: Option<Seq<char>>) -> Seq<Seq<char>> {
    match config_dir {
        Some(dir) => seq!["config.yaml"@, config_file(dir)],
        None => seq!["config.yaml"@],
    }
}

/// What a save asks of the caller, or why nothing may be written.
///
/// Rendering is judged first: where the store could not be rendered as text
/// (`rendered` is `None`) the save fails and no file is touched. Next the
/// user's configuration directory must be known.
pub open spec fn save_plan(config_dir: Option<Seq<char>>, rendered: Option<Seq<char>>) -> Result<
    SaveRequestView,
    ConfigErrorView,
> {
    match rendered {
        None => Err(ConfigErrorView::IoError { detail: "Failed to render configuration"@ }),
        Some(contents) => match config_dir {
            None => Err(
                ConfigErrorView::IoError { detail: "Could not determine config directory"@ },
            ),
            Some(dir) => Ok(
                SaveRequestView {
                    directory: tool_dir(dir),
                    path: config_file(dir),
                    contents,
                },
            ),
        },
    }
}

/// The abstract value of a [`SaveRequest`].
pub struct SaveRequestView {
    pub directory: Seq<char>,
    pub path: Seq<char>,
    pub contents: Seq<char>,
}

/// What the caller must do to persist a store: make sure `directory`
/// exists, then write `contents`, already complete, to `path`. The outcome
/// of each step is judged by `config_dir_checked` and `config_file_checked`.
#[derive(Debug, Clone, PartialEq, Eq)]
pub struct SaveRequest {
    pub directory: String,
    pub path: String,
    pub contents: String,
}

impl View for SaveRequest {
    type V = SaveRequestView;

    open spec fn view(&self) -> SaveRequestView {
        SaveRequestView { directory: self.directory@, path: self.path@, contents: self.contents@ }
    }
}

/// Asks `dirs::config_dir` for the user's configuration directory. The
/// answer depends on the platform and the environment, so nothing is claimed
/// of it. A directory whose name is not valid Unicode counts as unknown:
/// paths are text here, and a name with its odd bytes replaced would be the
/// name of another directory.
#[verifier::external_body]
fn user_config_dir() -> (dir: Option<String>) {
    match dirs::config_dir() {
        Some(dir) => dir.into_os_string().into_string().ok(),
        None => None,
    }
}

/// Names `component` below the directory `base`.
pub fn join_path(base: &str, component: &str) -> (path: String)
    ensures
        path@ == path_join(base@, component@),
{
    let mut path = String::from_str(base);
    let n = base.unicode_len();
    if n > 0 && base.get_char(n - 1) != '/' {
        path.append("/");
    }
    path.append(component);
    path
}

/// The tool's own directory below the user's configuration directory
/// `config_dir`; fails where that directory is unknown.
pub fn tool_dir_in(config_dir: &Option<String>) -> (dir: Result<String, ConfigError>)
    ensures
        match opt_view(*config_dir) {
            Some(base) => dir is Ok && dir->Ok_0@ == tool_dir(base),
            None => dir is Err && dir->Err_0@ == (ConfigErrorView::IoError {
                detail: "Could not determine config directory"@,
            }),
        },
{
    match config_dir {
        Some(base) => Ok(join_path(base.as_str(), "switch_profile")),
        None => Err(
            ConfigError::IoError {
                detail: String::from_str("Could not determine config directory"),
            },
        ),
    }
}

/// Names the tool's directory for the current user. The caller creates it
/// where it is missing and hands the outcome to `config_dir_checked`.
pub fn ensure_config_dir() -> (dir: Result<String, ConfigError>)
    ensures
        match dir {
            Ok(path) => exists|base: Seq<char>| path@ == tool_dir(base),
            Err(e) => e@ == (ConfigErrorView::IoError {
                detail: "Could not determine config directory"@,
            }),
        },
{
    let base = user_config_dir();
    let dir = tool_dir_in(&base);
    proof {
        if let Some(b) = base {
            assert(dir->Ok_0@ == tool_dir(b@));
        }
    }
    dir
}

/// How the caller found or made a directory that must exist.
#[derive(Debug, Clone, Copy, PartialEq, Eq)]
pub enum DirOutcome {
    /// The directory was there already.
    Present,
    /// The directory was missing and has been created.
    Created,
    /// The directory was missing and could not be created.
    CreateFailed,
}

/// Whether the caller could write a file.
#[derive(Debug, Clone, Copy, PartialEq, Eq)]
pub enum WriteOutcome {
    /// The file holds the contents handed over.
    Written,
    /// The file could not be written.
    WriteFailed,
}

/// Judges the attempt to have the directory `dir`: it is handed back where
/// it exists now, and a failure that names it where it could not be created.
pub fn config_dir_checked(dir: String, outcome: DirOutcome) -> (checked: Result<
    String,
    ConfigError,
>)
    ensures
        match outcome {
            DirOutcome::CreateFailed => checked is Err && checked->Err_0@
                == (ConfigErrorView::IoError {
                detail: "Failed to create config directory at "@ + dir@,
            }),
            _ => checked is Ok && checked->Ok_0@ == dir@,
        },
{
    match outcome {
        DirOutcome::CreateFailed => Err(ConfigError::create_dir_failed(dir.as_str())),
        _ => Ok(dir),
    }
}

/// Judges the attempt to write the configuration file at `path`: the path
/// is handed back where the file was written, and a failure that names it
/// where it was not.
pub fn config_file_checked(path: String, outcome: WriteOutcome) -> (checked: Result<
    String,
    ConfigError,
>)
    ensures
        match outcome {
            WriteOutcome::WriteFailed => checked is Err && checked->Err_0@
                == (ConfigErrorView::IoError {
                detail: "Failed to write config file at "@ + path@,
            }),
            WriteOutcome::Written => checked is Ok && checked->Ok_0@ == path@,
        },
{
    match outcome {
        WriteOutcome::WriteFailed => Err(ConfigError::write_failed(path.as_str())),
        WriteOutcome::Written => Ok(path),
    }
}

/// Plans a save below the user's configuration directory `config_dir`.
/// `rendered` is the store as text, or `None` where rendering failed.
pub fn save_request_in(config_dir: &Option<String>, rendered: Option<String>) -> (plan: Result<
    SaveRequest,
    ConfigError,
>)
    ensures
        match save_plan(opt_view(*config_dir), opt_view(rendered)) {
            Ok(request) => plan is Ok && plan->Ok_0@ == request,
            Err(e) => plan is Err && plan->Err_0@ == e,
        },
{
    match rendered {
        None => Err(
            ConfigError::IoError { detail: String::from_str("Failed to render configuration") },
        ),
        Some(contents) => match config_dir {
            None => Err(
                ConfigError::IoError {
                    detail: String::from_str("Could not determine config directory"),
                },
            ),
            Some(base) => {
                let directory = join_path(base.as_str(), "switch_profile");
                let path = join_path(directory.as_str(), "config.yaml");
                Ok(SaveRequest { directory, path, contents })
            },
        },
    }
}

impl Config {
    /// The locations searched for a configuration file, given the user's
    /// configuration directory.
    pub fn config_paths_in(config_dir: &Option<String>) -> (paths: Vec<String>)
        ensures
            texts(paths@) == candidate_paths(opt_view(*config_dir)),
    {
        let mut paths: Vec<String> = Vec::new();
        paths.push(String::from_str("config.yaml"));
        if let Some(base) = config_dir {
            let dir = join_path(base.as_str(), "switch_profile");
            paths.push(join_path(dir.as_str(), "config.yaml"));
        }
        assert(texts(paths@) =~= candidate_paths(opt_view(*config_dir)));
        paths
    }

    /// The locations searched for a configuration file by the current user.
    pub fn get_config_paths() -> (paths: Vec<String>)
        ensures
            exists|config_dir: Option<Seq<char>>| texts(paths@) == candidate_paths(config_dir),
    {
        let base = user_config_dir();
        let paths = Config::config_paths_in(&base);
        assert(texts(paths@) == candidate_paths(opt_view(base)));
        paths
    }

    /// Plans a save for the current user. `rendered` is the store as text,
    /// or `None` where rendering failed.
    pub fn save_request(rendered: Option<String>) -> (plan: Result<SaveRequest, ConfigError>)
        ensures
            exists|config_dir: Option<Seq<char>>|
                match #[trigger] save_plan(config_dir, opt_view(rendered)) {
                    Ok(request) => plan is Ok && plan->Ok_0@ == request,
                    Err(e) => plan is Err && plan->Err_0@ == e,
                },
    {
        let base = user_config_dir();
        let plan = save_request_in(&base, rendered);
        assert(match save_plan(opt_view(base), opt_view(rendered)) {
            Ok(request) => plan is Ok && plan->Ok_0@ == request,
            Err(e) => plan is Err && plan->Err_0@ == e,
        });
        plan
    }
}

} // verus!
