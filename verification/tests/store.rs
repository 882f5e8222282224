use switch_profile::error::ConfigError;
use switch_profile::profile::ProfileConfig;
use switch_profile::store::{Config, ProfileEntry, ProfileListing};

fn text(s: &str) -> String {
    s.to_string()
}

fn work_profile() -> ProfileConfig {
    ProfileConfig::new(
        text("a@b.com"),
        text("alice"),
        Some(text("WORK_TOKEN")),
        Some(text("~/.ssh/work")),
    )
}

fn home_profile() -> ProfileConfig {
    ProfileConfig::new(text("me@home.org"), text("al"), None, None)
}

fn two_profile_store(default_profile: Option<String>) -> Config {
    let mut config = Config::new(default_profile);
    config
        .add_profile(
            text("work"),
            text("a@b.com"),
            text("alice"),
            Some(text("WORK_TOKEN")),
            Some(text("~/.ssh/work")),
        )
        .unwrap();
    config
        .add_profile(text("home"), text("me@home.org"), text("al"), None, None)
        .unwrap();
    config
}

#[test]
fn new_store_is_empty() {
    let config = Config::new(None);
    assert_eq!(config.len(), 0);
    assert_eq!(config.list(), Vec::<ProfileListing>::new());
    assert_eq!(config.entries(), Vec::<ProfileEntry>::new());
    assert_eq!(config.default_profile(), &None);
    assert!(!config.contains("work"));
}

#[test]
fn profile_new_keeps_every_field() {
    let p = work_profile();
    assert_eq!(p.email, "a@b.com");
    assert_eq!(p.username, "alice");
    assert_eq!(p.token_env, Some(text("WORK_TOKEN")));
    assert_eq!(p.ssh_config, Some(text("~/.ssh/work")));
    assert_eq!(p.duplicate(), p);
}

#[test]
fn list_enumerates_each_name_once_in_order() {
    let config = two_profile_store(Some(text("home")));
    let listing = config.list();
    let names: Vec<&str> = listing.iter().map(|l| l.name.as_str()).collect();
    assert_eq!(names, vec!["work", "home"]);
    assert_eq!(config.len(), 2);
    assert_eq!(
        listing[0],
        ProfileListing {
            name: text("work"),
            username: text("alice"),
            email: text("a@b.com"),
            token_env: Some(text("WORK_TOKEN")),
            ssh_config: Some(text("~/.ssh/work")),
            is_default: false,
        }
    );
    assert_eq!(
        listing[1],
        ProfileListing {
            name: text("home"),
            username: text("al"),
            email: text("me@home.org"),
            token_env: None,
            ssh_config: None,
            is_default: true,
        }
    );
}

#[test]
fn list_marks_no_default_when_none_is_set() {
    let config = two_profile_store(None);
    assert!(config.list().iter().all(|l| !l.is_default));
}

#[test]
fn list_report_has_header_and_lines_per_profile() {
    let config = two_profile_store(Some(text("work")));
    assert_eq!(
        config.list_report(),
        vec![
            text("# Available profiles (default: work):"),
            text("# - work (alice <a@b.com>)"),
            text("#   Token environment: WORK_TOKEN"),
            text("#   SSH config: ~/.ssh/work"),
            text("# - home (al <me@home.org>)"),
        ]
    );
}

#[test]
fn list_report_of_empty_store_without_default() {
    let config = Config::new(None);
    assert_eq!(config.list_report(), vec![text("# Available profiles (no default):")]);
}

#[test]
fn added_profile_is_found_with_identical_fields() {
    let mut config = Config::new(None);
    let added = config.add_profile(
        text("work"),
        text("a@b.com"),
        text("alice"),
        Some(text("WORK_TOKEN")),
        Some(text("~/.ssh/work")),
    );
    assert_eq!(added, Ok(()));
    assert!(config.contains("work"));
    let expected = work_profile();
    assert_eq!(config.get_profile(Some(text("work"))), Ok((text("work"), &expected)));
}

#[test]
fn added_profile_survives_export_and_rebuild() {
    let config = two_profile_store(Some(text("work")));
    let rebuilt =
        Config::from_entries(config.entries(), config.default_profile().clone()).unwrap();
    assert_eq!(rebuilt, config);
    let expected = home_profile();
    assert_eq!(rebuilt.get_profile(Some(text("home"))), Ok((text("home"), &expected)));
}

#[test]
fn add_profile_rejects_taken_name_and_keeps_store() {
    let mut config = two_profile_store(Some(text("work")));
    let before = config.entries();
    let added = config.add_profile(text("work"), text("x@y.z"), text("mallory"), None, None);
    assert_eq!(added, Err(ConfigError::DuplicateProfile { name: text("work") }));
    assert_eq!(config.entries(), before);
    assert_eq!(config.len(), 2);
    let expected = work_profile();
    assert_eq!(config.get_profile(Some(text("work"))), Ok((text("work"), &expected)));
}

#[test]
fn names_are_case_sensitive() {
    let mut config = two_profile_store(None);
    assert!(!config.contains("Work"));
    assert_eq!(
        config.get_profile(Some(text("Work"))),
        Err(ConfigError::ProfileNotFound { name: text("Work") })
    );
    assert_eq!(config.add_profile(text("Work"), text("w@w.w"), text("w"), None, None), Ok(()));
    assert_eq!(config.len(), 3);
}

#[test]
fn absent_name_is_not_found_whatever_the_default() {
    let with_default = two_profile_store(Some(text("work")));
    let without_default = two_profile_store(None);
    let dangling_default = two_profile_store(Some(text("gone")));
    for config in [&with_default, &without_default, &dangling_default] {
        assert_eq!(
            config.get_profile(Some(text("x"))),
            Err(ConfigError::ProfileNotFound { name: text("x") })
        );
    }
}

#[test]
fn no_name_resolves_as_the_default_name_does() {
    let config = two_profile_store(Some(text("home")));
    let by_default = config.get_profile(None);
    let by_name = config.get_profile(Some(text("home")));
    assert_eq!(by_default, by_name);
    let expected = home_profile();
    assert_eq!(by_default, Ok((text("home"), &expected)));
}

#[test]
fn no_name_and_no_default_is_reported() {
    let config = two_profile_store(None);
    assert_eq!(config.get_profile(None), Err(ConfigError::NoProfileSpecified));
}

#[test]
fn default_that_names_nothing_is_not_found() {
    let config = two_profile_store(Some(text("gone")));
    assert_eq!(
        config.get_profile(None),
        Err(ConfigError::ProfileNotFound { name: text("gone") })
    );
}

#[test]
fn from_entries_keeps_order_and_default() {
    let entries = vec![
        ProfileEntry { name: text("b"), profile: home_profile() },
        ProfileEntry { name: text("a"), profile: work_profile() },
    ];
    let config = Config::from_entries(entries.clone(), Some(text("a"))).unwrap();
    assert_eq!(config.entries(), entries);
    assert_eq!(config.default_profile(), &Some(text("a")));
}

#[test]
fn from_entries_reports_first_repeated_name() {
    let entries = vec![
        ProfileEntry { name: text("a"), profile: home_profile() },
        ProfileEntry { name: text("b"), profile: home_profile() },
        ProfileEntry { name: text("c"), profile: home_profile() },
        ProfileEntry { name: text("b"), profile: work_profile() },
        ProfileEntry { name: text("a"), profile: work_profile() },
    ];
    assert_eq!(
        Config::from_entries(entries, None),
        Err(ConfigError::DuplicateProfile { name: text("b") })
    );
}
