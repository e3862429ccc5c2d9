use linear_sync::config::{BaseDir, Config, ConfigEnv, ConfigError, ConfigSource};

fn full() -> ConfigEnv {
    ConfigEnv {
        api_token: Some("t".to_string()),
        team_id: Some("team".to_string()),
        assignee_id: Some("me".to_string()),
        done_state_id: Some("done".to_string()),
        in_progress_state_id: None,
    }
}

#[test]
fn environment_comes_first() {
    let mut env = full();
    let mut config = Config {
        api_token: "t".to_string(),
        team_id: "team".to_string(),
        assignee_id: "me".to_string(),
        done_state_id: "done".to_string(),
        in_progress_state_id: None,
    };
    assert_eq!(Config::load(full()), ConfigSource::Environment(config.clone()));
    env.in_progress_state_id = Some("doing".to_string());
    config.in_progress_state_id = Some("doing".to_string());
    assert_eq!(Config::load(env), ConfigSource::Environment(config));
}

#[test]
fn incomplete_environment_refers_to_the_file() {
    let mut env = full();
    env.api_token = None;
    assert_eq!(Config::load(env), ConfigSource::File);
    let mut env = full();
    env.team_id = None;
    assert_eq!(Config::load(env), ConfigSource::File);
    let mut env = full();
    env.assignee_id = None;
    assert_eq!(Config::load(env), ConfigSource::File);
    let mut env = full();
    env.done_state_id = None;
    assert_eq!(Config::load(env), ConfigSource::File);
}

#[test]
fn place_of_the_settings_file() {
    let place = Config::path(Some(7), Some("/home/a".to_string()));
    assert_eq!(place.base, BaseDir::ConfigDir(7));
    assert_eq!(place.directory, "linear-sync");
    assert_eq!(place.file, "config.toml");
    let place = Config::path::<u8>(None, Some("/home/a".to_string()));
    assert_eq!(place.base, BaseDir::Named("/home/a".to_string()));
    let place = Config::path::<u8>(None, None);
    assert_eq!(place.base, BaseDir::Named(".".to_string()));
}

#[test]
fn messages_on_the_settings_file() {
    assert_eq!(
        ConfigError::NotFound.message("/c"),
        "Config not found at /c. Run `linear-sync setup` first."
    );
    assert_eq!(ConfigError::Invalid.message("/c"), "Invalid config file");
    assert_eq!(ConfigError::NoDirectory.message("/c"), "Failed to create config directory");
    assert_eq!(ConfigError::NotWritten.message("/c"), "Failed to write config to /c");
}
