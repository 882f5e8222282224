use switch_profile::error::ConfigError;
use switch_profile::paths::{
    config_dir_checked, config_file_checked, ensure_config_dir, join_path, save_request_in,
    tool_dir_in, DirOutcome, SaveRequest, WriteOutcome,
};
use switch_profile::store::Config;

fn p(s: &str) -> String {
    s.to_string()
}

#[test]
fn join_path_adds_one_separator() {
    assert_eq!(join_path("/home/a/.config", "switch_profile"), "/home/a/.config/switch_profile");
    assert_eq!(join_path("/home/a/.config/", "switch_profile"), "/home/a/.config/switch_profile");
    assert_eq!(join_path("", "config.yaml"), "config.yaml");
    assert_eq!(join_path("/", "config.yaml"), "/config.yaml");
    assert_eq!(join_path("dir", ""), "dir/");
}

#[test]
fn join_path_handles_non_ascii_directories() {
    assert_eq!(join_path("/home/zoë/конфиг", "switch_profile"), "/home/zoë/конфиг/switch_profile");
}

#[test]
fn candidates_are_current_directory_then_user_directory() {
    assert_eq!(
        Config::config_paths_in(&Some(p("/home/a/.config"))),
        vec![p("config.yaml"), p("/home/a/.config/switch_profile/config.yaml")]
    );
}

#[test]
fn candidates_without_user_directory() {
    assert_eq!(Config::config_paths_in(&None), vec![p("config.yaml")]);
}

#[test]
fn candidates_for_current_user_start_in_current_directory() {
    let paths = Config::get_config_paths();
    assert_eq!(paths[0], "config.yaml");
    assert!(paths.len() == 1 || paths.len() == 2);
    if paths.len() == 2 {
        assert!(paths[1].ends_with("switch_profile/config.yaml"));
    }
}

#[test]
fn tool_directory_is_below_user_directory() {
    assert_eq!(tool_dir_in(&Some(p("/home/a/.config"))), Ok(p("/home/a/.config/switch_profile")));
}

#[test]
fn tool_directory_needs_user_directory() {
    assert_eq!(
        tool_dir_in(&None),
        Err(ConfigError::IoError { detail: p("Could not determine config directory") })
    );
}

#[test]
fn tool_directory_for_current_user() {
    match ensure_config_dir() {
        Ok(dir) => assert!(dir.ends_with("switch_profile")),
        Err(e) => assert_eq!(
            e,
            ConfigError::IoError { detail: p("Could not determine config directory") }
        ),
    }
}

#[test]
fn tool_directory_and_second_candidate_agree() {
    let paths = Config::get_config_paths();
    match ensure_config_dir() {
        Ok(dir) => assert_eq!(paths, vec![p("config.yaml"), join_path(&dir, "config.yaml")]),
        Err(_) => assert_eq!(paths, vec![p("config.yaml")]),
    }
}

#[test]
fn save_goes_to_the_user_directory() {
    assert_eq!(
        save_request_in(&Some(p("/home/a/.config")), Some(p("profiles: {}\n"))),
        Ok(SaveRequest {
            directory: p("/home/a/.config/switch_profile"),
            path: p("/home/a/.config/switch_profile/config.yaml"),
            contents: p("profiles: {}\n"),
        })
    );
}

#[test]
fn save_without_rendered_text_writes_nothing() {
    let failed = ConfigError::IoError { detail: p("Failed to render configuration") };
    assert_eq!(save_request_in(&Some(p("/home/a/.config")), None), Err(failed.clone()));
    assert_eq!(save_request_in(&None, None), Err(failed.clone()));
    assert_eq!(Config::save_request(None), Err(failed));
}

#[test]
fn save_needs_user_directory() {
    assert_eq!(
        save_request_in(&None, Some(p("profiles: {}\n"))),
        Err(ConfigError::IoError { detail: p("Could not determine config directory") })
    );
}

#[test]
fn save_for_current_user_keeps_contents() {
    match Config::save_request(Some(p("profiles: {}\n"))) {
        Ok(request) => {
            assert_eq!(request.contents, "profiles: {}\n");
            assert_eq!(request.path, join_path(&request.directory, "config.yaml"));
            assert_eq!(Ok(request.directory), ensure_config_dir());
        }
        Err(e) => assert_eq!(
            e,
            ConfigError::IoError { detail: p("Could not determine config directory") }
        ),
    }
}

#[test]
fn directory_that_exists_or_was_made_is_handed_back() {
    assert_eq!(
        config_dir_checked(p("/x/switch_profile"), DirOutcome::Present),
        Ok(p("/x/switch_profile"))
    );
    assert_eq!(
        config_dir_checked(p("/x/switch_profile"), DirOutcome::Created),
        Ok(p("/x/switch_profile"))
    );
}

#[test]
fn directory_that_cannot_be_made_fails_naming_it() {
    assert_eq!(
        config_dir_checked(p("/x/switch_profile"), DirOutcome::CreateFailed),
        Err(ConfigError::IoError {
            detail: p("Failed to create config directory at /x/switch_profile")
        })
    );
}

#[test]
fn written_file_is_handed_back() {
    assert_eq!(
        config_file_checked(p("/x/switch_profile/config.yaml"), WriteOutcome::Written),
        Ok(p("/x/switch_profile/config.yaml"))
    );
}

#[test]
fn file_that_cannot_be_written_fails_naming_it() {
    assert_eq!(
        config_file_checked(p("/x/switch_profile/config.yaml"), WriteOutcome::WriteFailed),
        Err(ConfigError::IoError {
            detail: p("Failed to write config file at /x/switch_profile/config.yaml")
        })
    );
}

#[test]
fn save_steps_fail_in_order() {
    let request =
        save_request_in(&Some(p("/home/a/.config")), Some(p("profiles: {}\n"))).unwrap();
    let dir = config_dir_checked(request.directory.clone(), DirOutcome::CreateFailed);
    assert_eq!(
        dir.unwrap_err().message(),
        "Failed to create config directory at /home/a/.config/switch_profile"
    );
    let file = config_file_checked(request.path.clone(), WriteOutcome::WriteFailed);
    assert_eq!(
        file.unwrap_err().message(),
        "Failed to write config file at /home/a/.config/switch_profile/config.yaml"
    );
}
