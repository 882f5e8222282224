use switch_profile::error::ConfigError;
use switch_profile::load::{LoadStep, ProbeOutcome};
use switch_profile::profile::ProfileConfig;
use switch_profile::store::{Config, ProfileEntry};

fn owned(s: &str) -> String {
    s.to_string()
}

fn candidates() -> Vec<String> {
    vec![owned("config.yaml"), owned("/home/a/.config/switch_profile/config.yaml")]
}

fn work_entry() -> ProfileEntry {
    ProfileEntry {
        name: owned("work"),
        profile: ProfileConfig::new(
            owned("a@b.com"),
            owned("alice"),
            Some(owned("WORK_TOKEN")),
            Some(owned("~/.ssh/work")),
        ),
    }
}

/// Runs a search to its end, finding `found[i]` at the candidate `i`, and
/// returns the end with the candidates probed on the way.
fn run_search(paths: &Vec<String>, found: Vec<ProbeOutcome>) -> (LoadStep, Vec<usize>) {
    let mut probed = Vec::new();
    let mut step = Config::load_start(paths);
    loop {
        match step {
            LoadStep::Probe { index } => {
                probed.push(index);
                step = Config::load_next(paths, index, found[index].clone());
            }
            end => return (end, probed),
        }
    }
}

#[test]
fn search_starts_at_the_first_candidate() {
    assert_eq!(Config::load_start(&candidates()), LoadStep::Probe { index: 0 });
}

#[test]
fn search_without_candidates_fails_at_once() {
    assert_eq!(
        Config::load_start(&vec![]),
        LoadStep::Failed { error: ConfigError::ConfigNotFound { paths: vec![] } }
    );
}

#[test]
fn missing_file_sends_search_to_next_candidate() {
    assert_eq!(
        Config::load_next(&candidates(), 0, ProbeOutcome::Missing),
        LoadStep::Probe { index: 1 }
    );
}

#[test]
fn no_config_anywhere_fails_naming_attempted_paths() {
    let (end, probed) =
        run_search(&candidates(), vec![ProbeOutcome::Missing, ProbeOutcome::Missing]);
    assert_eq!(probed, vec![0, 1]);
    let error = ConfigError::ConfigNotFound { paths: candidates() };
    assert_eq!(end, LoadStep::Failed { error: error.clone() });
    assert_eq!(
        error.message(),
        "Configuration file not found at config.yaml, /home/a/.config/switch_profile/config.yaml"
    );
}

#[test]
fn first_existing_file_is_loaded_and_search_stops() {
    let parsed = ProbeOutcome::Parsed {
        entries: vec![work_entry()],
        default_profile: Some(owned("work")),
    };
    let (end, probed) = run_search(&candidates(), vec![parsed, ProbeOutcome::Malformed]);
    assert_eq!(probed, vec![0]);
    let expected = Config::from_entries(vec![work_entry()], Some(owned("work"))).unwrap();
    assert_eq!(end, LoadStep::Loaded { config: expected });
}

#[test]
fn second_candidate_is_loaded_when_first_is_missing() {
    let parsed = ProbeOutcome::Parsed { entries: vec![work_entry()], default_profile: None };
    let (end, probed) = run_search(&candidates(), vec![ProbeOutcome::Missing, parsed]);
    assert_eq!(probed, vec![0, 1]);
    let expected = Config::from_entries(vec![work_entry()], None).unwrap();
    assert_eq!(end, LoadStep::Loaded { config: expected });
}

#[test]
fn malformed_file_fails_with_its_path() {
    let (end, probed) =
        run_search(&candidates(), vec![ProbeOutcome::Missing, ProbeOutcome::Malformed]);
    assert_eq!(probed, vec![0, 1]);
    assert_eq!(
        end,
        LoadStep::Failed {
            error: ConfigError::ConfigParseError {
                path: owned("/home/a/.config/switch_profile/config.yaml")
            }
        }
    );
}

#[test]
fn malformed_first_file_hides_a_good_second_one() {
    let parsed = ProbeOutcome::Parsed { entries: vec![work_entry()], default_profile: None };
    let (end, probed) = run_search(&candidates(), vec![ProbeOutcome::Malformed, parsed]);
    assert_eq!(probed, vec![0]);
    assert_eq!(
        end,
        LoadStep::Failed { error: ConfigError::ConfigParseError { path: owned("config.yaml") } }
    );
}

#[test]
fn unreadable_file_fails_with_its_path() {
    assert_eq!(
        Config::load_next(&candidates(), 0, ProbeOutcome::Unreadable),
        LoadStep::Failed {
            error: ConfigError::IoError { detail: owned("Failed to read config file at config.yaml") }
        }
    );
}

#[test]
fn document_with_repeated_name_is_malformed() {
    let parsed = ProbeOutcome::Parsed {
        entries: vec![work_entry(), work_entry()],
        default_profile: None,
    };
    assert_eq!(
        Config::load_next(&candidates(), 0, parsed),
        LoadStep::Failed { error: ConfigError::ConfigParseError { path: owned("config.yaml") } }
    );
}

#[test]
fn outcome_for_unknown_candidate_ends_search_as_not_found() {
    assert_eq!(
        Config::load_next(&candidates(), 2, ProbeOutcome::Malformed),
        LoadStep::Failed { error: ConfigError::ConfigNotFound { paths: candidates() } }
    );
}
