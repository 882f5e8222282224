//! Loading a store: the search through the candidate locations, one probe
//! at a time. The caller looks at the file system and parses; what follows
//! from each finding is decided here.

use crate::error::{ConfigError, ConfigErrorView};
use crate::profile::{opt_view, ProfileView};
use crate::store::{entries_view, Config, ConfigView, ProfileEntry};
use crate::text::{clone_texts, texts};
use vstd::prelude::*;

verus! {

/// The abstract value of a [`ProbeOutcome`].
pub enum ProbeOutcomeView {
    Missing,
    Unreadable,
    Malformed,
    Parsed { entries: Seq<(Seq<char>, ProfileView)>, default_profile: Option<Seq<char>> },
}

/// What the caller found at one candidate location.
#[derive(Debug, Clone, PartialEq, Eq)]
pub enum ProbeOutcome {
    /// Nothing exists there.
    Missing,
    /// Something exists there but could not be read.
    Unreadable,
    /// The file was read but is not a valid configuration document.
    Malformed,
    /// The file holds a configuration document with these entries.
    Parsed { entries: Vec<ProfileEntry>, default_profile: Option<String> },
}

impl View for ProbeOutcome {
    type V = ProbeOutcomeView;

    open spec fn view(&self) -> ProbeOutcomeView {
        match *self {
            ProbeOutcome::Missing => ProbeOutcomeView::Missing,
            ProbeOutcome::Unreadable => ProbeOutcomeView::Unreadable,
            ProbeOutcome::Malformed => ProbeOutcomeView::Malformed,
            ProbeOutcome::Parsed { entries, default_profile } => ProbeOutcomeView::Parsed {
                entries: entries_view(entries@),
                default_profile: opt_view(default_profile),
            },
        }
    }
}

/// The abstract value of a [`LoadStep`].
pub enum LoadStepView {
    Probe { index: int },
    Loaded { config: ConfigView },
    Failed { error: ConfigErrorView },
}

/// Where the search stands: a location to probe next, or its end.
#[derive(Debug, PartialEq, Eq)]
pub enum LoadStep {
    /// Probe the candidate at `index` and report what is there.
    Probe { index: usize },
    /// The search ended with this store.
    Loaded { config: Config },
    /// The search ended with this failure.
    Failed { error: ConfigError },
}

impl View for LoadStep {
    type V = LoadStepView;

    open spec fn view(&self) -> LoadStepView {
        match *self {
            LoadStep::Probe { index } => LoadStepView::Probe { index: index as int },
            LoadStep::Loaded { config } => LoadStepView::Loaded { config: config@ },
            LoadStep::Failed { error } => LoadStepView::Failed { error: error@ },
        }
    }
}

/// The failure of a search that found nothing at any of `paths`.
pub open spec fn not_found(paths: Seq<Seq<char>>) -> LoadStepView {
    LoadStepView::Failed { error: ConfigErrorView::ConfigNotFound { paths } }
}

/// The first step of a search through `paths`.
pub open spec fn load_first(paths: Seq<Seq<char>>) -> LoadStepView {
    if paths.len() == 0 {
        not_found(paths)
    } else {
        LoadStepView::Probe { index: 0 }
    }
}

/// The step that follows finding `outcome` at the candidate `index`.
///
/// A missing file sends the search on to the next candidate, and ends it
/// after the last with a failure that names every candidate. Anything else
/// ends the search there: an unreadable or malformed file with a failure
/// that names its path, a document with the store it describes. A document
/// in which a name occurs twice is malformed.
pub open spec fn load_step(paths: Seq<Seq<char>>, index: int, outcome: ProbeOutcomeView) -> LoadStepView {
    if !(0 <= index < paths.len()) {
        not_found(paths)
    } else {
        match outcome {
            ProbeOutcomeView::Missing => {
                if index + 1 < paths.len() {
                    LoadStepView::Probe { index: index + 1 }
                } else {
                    not_found(paths)
                }
            },
            ProbeOutcomeView::Unreadable => LoadStepView::Failed {
                error: ConfigErrorView::IoError {
                    detail: "Failed to read config file at "@ + paths[index],
                },
            },
            ProbeOutcomeView::Malformed => LoadStepView::Failed {
                error: ConfigErrorView::ConfigParseError { path: paths[index] },
            },
            ProbeOutcomeView::Parsed { entries, default_profile } => {
                match (ConfigView { entries, default_profile }).checked() {
                    Ok(config) => LoadStepView::Loaded { config },
                    Err(_) => LoadStepView::Failed {
                        error: ConfigErrorView::ConfigParseError { path: paths[index] },
                    },
                }
            },
        }
    }
}

/// Where a search that starts at the candidate `index` ends, when
/// `outcomes[i]` is what is found at the candidate `i`.
pub open spec fn load_result(
    paths: Seq<Seq<char>>,
    outcomes: Seq<ProbeOutcomeView>,
    index: int,
) -> LoadStepView
    decreases paths.len() - index,
{
    if !(0 <= index < paths.len()) {
        not_found(paths)
    } else {
        match load_step(paths, index, outcomes[index]) {
            LoadStepView::Probe { index: next } => load_result(paths, outcomes, index + 1),
            end => end,
        }
    }
}

impl Config {
    /// Starts a search through `paths`.
    pub fn load_start(paths: &Vec<String>) -> (step: LoadStep)
        ensures
            step@ == load_first(texts(paths@)),
    {
        if paths.len() == 0 {
            LoadStep::Failed { error: ConfigError::ConfigNotFound { paths: clone_texts(paths) } }
        } else {
            LoadStep::Probe { index: 0 }
        }
    }

    /// Continues a search through `paths` after `outcome` was found at the
    /// candidate `index`.
    pub fn load_next(paths: &Vec<String>, index: usize, outcome: ProbeOutcome) -> (step: LoadStep)
        ensures
            step@ == load_step(texts(paths@), index as int, outcome@),
    {
        if index >= paths.len() {
            return LoadStep::Failed {
                error: ConfigError::ConfigNotFound { paths: clone_texts(paths) },
            };
        }
        match outcome {
            ProbeOutcome::Missing => {
                if index + 1 < paths.len() {
                    LoadStep::Probe { index: index + 1 }
                } else {
                    LoadStep::Failed {
                        error: ConfigError::ConfigNotFound { paths: clone_texts(paths) },
                    }
                }
            },
            ProbeOutcome::Unreadable => {
                let mut detail = String::from_str("Failed to read config file at ");
                detail.append(paths[index].as_str());
                LoadStep::Failed { error: ConfigError::IoError { detail } }
            },
            ProbeOutcome::Malformed => LoadStep::Failed {
                error: ConfigError::ConfigParseError { path: paths[index].clone() },
            },
            ProbeOutcome::Parsed { entries, default_profile } => {
                match Config::from_entries(entries, default_profile) {
                    Ok(config) => LoadStep::Loaded { config },
                    Err(_) => LoadStep::Failed {
                        error: ConfigError::ConfigParseError { path: paths[index].clone() },
                    },
                }
            },
        }
    }
}

/// The first candidate that is not missing decides the search: it ends
/// with the step that this candidate's outcome gives, and probes nothing
/// after it.
pub proof fn lemma_first_present_decides(
    paths: Seq<Seq<char>>,
    outcomes: Seq<ProbeOutcomeView>,
    from: int,
    first: int,
)
    requires
        outcomes.len() == paths.len(),
        0 <= from <= first < paths.len(),
        forall|i: int| from <= i < first ==> outcomes[i] is Missing,
        !(outcomes[first] is Missing),
    ensures
        load_result(paths, outcomes, from) == load_step(paths, first, outcomes[first]),
        !(load_result(paths, outcomes, from) is Probe),
    decreases first - from,
{
    if from < first {
        lemma_first_present_decides(paths, outcomes, from + 1, first);
    }
}

/// Where every candidate is missing, the search fails with a failure that
/// names all the candidates.
pub proof fn lemma_none_present_not_found(
    paths: Seq<Seq<char>>,
    outcomes: Seq<ProbeOutcomeView>,
    from: int,
)
    requires
        outcomes.len() == paths.len(),
        0 <= from,
        forall|i: int| from <= i < paths.len() ==> outcomes[i] is Missing,
    ensures
        load_result(paths, outcomes, from) == not_found(paths),
    decreases paths.len() - from,
{
    if from < paths.len() {
        lemma_none_present_not_found(paths, outcomes, from + 1);
    }
}

} // verus!
