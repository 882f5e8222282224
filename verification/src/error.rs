//! The failures a command can end with.

use crate::text::{join, joined, texts};
use vstd::prelude::*;

verus! {

/// The abstract value of a [`ConfigError`].
pub enum ConfigErrorView {
    ConfigNotFound { paths: Seq<Seq<char>> },
    ConfigParseError { path: Seq<char> },
    ProfileNotFound { name: Seq<char> },
    NoProfileSpecified,
    DuplicateProfile { name: Seq<char> },
    ExternalToolError { detail: Seq<char> },
    IoError { detail: Seq<char> },
}

impl ConfigErrorView {
    /// The text shown to the user for this failure.
    pub open spec fn message(self) -> Seq<char> {
        match self {
            ConfigErrorView::ConfigNotFound { paths } => {
                if paths.len() == 0 {
                    "No configuration file found: there is no location to look in"@
                } else {
                    "Configuration file not found at "@ + joined(paths, ", "@)
                }
            },
            ConfigErrorView::ConfigParseError { path } => {
                "Failed to parse configuration from "@ + path
            },
            ConfigErrorView::ProfileNotFound { name } => "Profile "@ + name + " not found"@,
            ConfigErrorView::NoProfileSpecified => {
                "No profile specified and no default configured"@
            },
            ConfigErrorView::DuplicateProfile { name } => "Profile "@ + name + " already exists"@,
            ConfigErrorView::ExternalToolError { detail } => detail,
            ConfigErrorView::IoError { detail } => detail,
        }
    }
}

/// Why a command failed. Every failure ends the command; none is retried.
#[derive(Debug, Clone, PartialEq, Eq)]
pub enum ConfigError {
    /// No candidate location holds a configuration file; `paths` are the
    /// locations tried, in order.
    ConfigNotFound { paths: Vec<String> },
    /// The file at `path` exists but is not a valid configuration document.
    ConfigParseError { path: String },
    /// The store has no profile called `name`.
    ProfileNotFound { name: String },
    /// No profile was requested and the store names no default.
    NoProfileSpecified,
    /// The store already has a profile called `name`.
    DuplicateProfile { name: String },
    /// The identity tool could not be run, or ran and ended in failure.
    ExternalToolError { detail: String },
    /// A configuration directory or file could not be read, created or written.
    IoError { detail: String },
}

impl View for ConfigError {
    type V = ConfigErrorView;

    open spec fn view(&self) -> ConfigErrorView {
        match *self {
            ConfigError::ConfigNotFound { paths } => ConfigErrorView::ConfigNotFound {
                paths: texts(paths@),
            },
            ConfigError::ConfigParseError { path } => ConfigErrorView::ConfigParseError {
                path: path@,
            },
            ConfigError::ProfileNotFound { name } => ConfigErrorView::ProfileNotFound {
                name: name@,
            },
            ConfigError::NoProfileSpecified => ConfigErrorView::NoProfileSpecified,
            ConfigError::DuplicateProfile { name } => ConfigErrorView::DuplicateProfile {
                name: name@,
            },
            ConfigError::ExternalToolError { detail } => ConfigErrorView::ExternalToolError {
                detail: detail@,
            },
            ConfigError::IoError { detail } => ConfigErrorView::IoError { detail: detail@ },
        }
    }
}

impl ConfigError {
    /// The text shown to the user for this failure.
    pub fn message(&self) -> (out: String)
        ensures
            out@ == self@.message(),
    {
        match self {
            ConfigError::ConfigNotFound { paths } => {
                if paths.len() == 0 {
                    String::from_str("No configuration file found: there is no location to look in")
                } else {
                    let mut out = String::from_str("Configuration file not found at ");
                    let list = join(paths, ", ");
                    out.append(list.as_str());
                    out
                }
            },
            ConfigError::ConfigParseError { path } => {
                let mut out = String::from_str("Failed to parse configuration from ");
                out.append(path.as_str());
                out
            },
            ConfigError::ProfileNotFound { name } => {
                let mut out = String::from_str("Profile ");
                out.append(name.as_str());
                out.append(" not found");
                out
            },
            ConfigError::NoProfileSpecified => {
                String::from_str("No profile specified and no default configured")
            },
            ConfigError::DuplicateProfile { name } => {
                let mut out = String::from_str("Profile ");
                out.append(name.as_str());
                out.append(" already exists");
                out
            },
            ConfigError::ExternalToolError { detail } => detail.clone(),
            ConfigError::IoError { detail } => detail.clone(),
        }
    }

    /// The failure to create the directory at `path`.
    pub(crate) fn create_dir_failed(path: &str) -> (error: ConfigError)
        ensures
            error@ == (ConfigErrorView::IoError {
                detail: "Failed to create config directory at "@ + path@,
            }),
    {
        let mut detail = String::from_str("Failed to create config directory at ");
        detail.append(path);
        ConfigError::IoError { detail }
    }

    /// The failure to write the file at `path`.
    pub(crate) fn write_failed(path: &str) -> (error: ConfigError)
        ensures
            error@ == (ConfigErrorView::IoError {
                detail: "Failed to write config file at "@ + path@,
            }),
    {
        let mut detail = String::from_str("Failed to write config file at ");
        detail.append(path);
        ConfigError::IoError { detail }
    }
}

} // verus!
