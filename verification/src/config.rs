//! The settings: where they come from and what they hold.
use crate::text::optional_text;
use vstd::prelude::*;

verus! {

/// The variable that holds the token.
pub const ENV_API_TOKEN: &'static str = "LINEAR_API_TOKEN";

/// The variable that holds the team.
pub const ENV_TEAM_ID: &'static str = "LINEAR_TEAM_ID";

/// The variable that holds the assignee.
pub const ENV_ASSIGNEE_ID: &'static str = "LINEAR_ASSIGNEE_ID";

/// The variable that holds the state of finished issues.
pub const ENV_DONE_STATE_ID: &'static str = "LINEAR_DONE_STATE_ID";

/// The variable that holds the state of started issues.
pub const ENV_IN_PROGRESS_STATE_ID: &'static str = "LINEAR_IN_PROGRESS_STATE_ID";

/// The settings.
#[derive(Debug, Clone, PartialEq, Eq)]
pub struct Config {
    pub api_token: String,
    pub team_id: String,
    pub assignee_id: String,
    /// The state of finished issues in the chosen team.
    pub done_state_id: String,
    /// The state of started issues in the chosen team.
    pub in_progress_state_id: Option<String>,
}

/// What the settings hold.
pub struct ConfigView {
    pub api_token: Seq<char>,
    pub team_id: Seq<char>,
    pub assignee_id: Seq<char>,
    pub done_state_id: Seq<char>,
    pub in_progress_state_id: Option<Seq<char>>,
}

impl View for Config {
    type V = ConfigView;

    open spec fn view(&self) -> ConfigView {
        ConfigView {
            api_token: self.api_token@,
            team_id: self.team_id@,
            assignee_id: self.assignee_id@,
            done_state_id: self.done_state_id@,
            in_progress_state_id: optional_text(self.in_progress_state_id),
        }
    }
}

/// The environment variables that can hold the settings; `None` is a variable that is not
/// set, or whose value is no text.
#[derive(Debug, PartialEq, Eq)]
pub struct ConfigEnv {
    pub api_token: Option<String>,
    pub team_id: Option<String>,
    pub assignee_id: Option<String>,
    pub done_state_id: Option<String>,
    pub in_progress_state_id: Option<String>,
}

/// Where the settings are.
#[derive(Debug, PartialEq, Eq)]
pub enum ConfigSource {
    /// The environment holds them.
    Environment(Config),
    /// The file is to be read.
    File,
}

/// The directory that the settings directory stands in.
#[derive(Debug, PartialEq, Eq)]
pub enum BaseDir<P> {
    /// The configuration directory of the user.
    ConfigDir(P),
    /// A directory given as text.
    Named(String),
}

/// The settings file, as its base directory and the two names below it.
#[derive(Debug, PartialEq, Eq)]
pub struct ConfigPath<P> {
    pub base: BaseDir<P>,
    pub directory: String,
    pub file: String,
}

impl Config {
    /// The settings file: below the configuration directory of the user, or else below the
    /// home directory, or else below the current directory.
    pub fn path<P>(config_dir: Option<P>, home: Option<String>) -> (r: ConfigPath<P>)
        ensures
            match config_dir {
                Some(dir) => r.base == BaseDir::ConfigDir(dir),
                None => r.base matches BaseDir::Named(name) && name@ == (match home {
                    Some(dir) => dir@,
                    None => "."@,
                }),
            },
            r.directory@ == "linear-sync"@,
            r.file@ == "config.toml"@,
    {
        let base = match config_dir {
            Some(dir) => BaseDir::ConfigDir(dir),
            None => BaseDir::Named(
                match home {
                    Some(dir) => dir,
                    None => ".".to_owned(),
                },
            ),
        };
        ConfigPath { base, directory: "linear-sync".to_owned(), file: "config.toml".to_owned() }
    }

    /// Takes the settings from the environment if it holds the four that are needed, and
    /// otherwise refers to the file.
    pub fn load(env: ConfigEnv) -> (r: ConfigSource)
        ensures
            match (env.api_token, env.team_id, env.assignee_id, env.done_state_id) {
                (Some(api_token), Some(team_id), Some(assignee_id), Some(done_state_id)) => r
                    == ConfigSource::Environment(
                    Config {
                        api_token,
                        team_id,
                        assignee_id,
                        done_state_id,
                        in_progress_state_id: env.in_progress_state_id,
                    },
                ),
                _ => r == ConfigSource::File,
            },
    {
        match (env.api_token, env.team_id, env.assignee_id, env.done_state_id) {
            (Some(api_token), Some(team_id), Some(assignee_id), Some(done_state_id)) => {
                ConfigSource::Environment(
                    Config {
                        api_token,
                        team_id,
                        assignee_id,
                        done_state_id,
                        in_progress_state_id: env.in_progress_state_id,
                    },
                )
            },
            _ => ConfigSource::File,
        }
    }
}

/// What can go wrong with the settings file.
#[derive(Debug, Clone, Copy, PartialEq, Eq, Structural)]
pub enum ConfigError {
    /// It cannot be read.
    NotFound,
    /// It does not hold the settings.
    Invalid,
    /// Its directory cannot be made.
    NoDirectory,
    /// It cannot be written.
    NotWritten,
}

impl ConfigError {
    /// The text of [`ConfigError::message`].
    pub open spec fn message_text(self, path: Seq<char>) -> Seq<char> {
        match self {
            ConfigError::NotFound => "Config not found at "@ + path
                + ". Run `linear-sync setup` first."@,
            ConfigError::Invalid => "Invalid config file"@,
            ConfigError::NoDirectory => "Failed to create config directory"@,
            ConfigError::NotWritten => "Failed to write config to "@ + path,
        }
    }

    /// What the user is told when the file is at `path`.
    pub fn message(&self, path: &str) -> (r: String)
        ensures
            r@ == self.message_text(path@),
    {
        match self {
            ConfigError::NotFound => "Config not found at ".to_owned().concat(path).concat(
                ". Run `linear-sync setup` first.",
            ),
            ConfigError::Invalid => "Invalid config file".to_owned(),
            ConfigError::NoDirectory => "Failed to create config directory".to_owned(),
            ConfigError::NotWritten => "Failed to write config to ".to_owned().concat(path),
        }
    }
}

// ---- laws ----

/// Settings are, field by field, what they hold.
pub proof fn law_settings_are_what_they_hold(config: Config)
    ensures
        config@.api_token == config.api_token@,
        config@.team_id == config.team_id@,
        config@.assignee_id == config.assignee_id@,
        config@.done_state_id == config.done_state_id@,
        config@.in_progress_state_id is Some <==> config.in_progress_state_id is Some,
        config.in_progress_state_id is Some ==> config@.in_progress_state_id->0
            == (config.in_progress_state_id->0)@,
{
}

/// The environment counts exactly where it holds all four settings that are needed, each in its
/// place; the fifth may be missing.
pub proof fn law_environment_comes_first(env: ConfigEnv, r: ConfigSource)
    requires
        call_ensures(Config::load, (env,), r),
    ensures
        r is Environment <==> env.api_token is Some && env.team_id is Some && env.assignee_id
            is Some && env.done_state_id is Some,
        r matches ConfigSource::Environment(config) ==> env.api_token == Some(config.api_token)
            && env.team_id == Some(config.team_id) && env.assignee_id == Some(config.assignee_id)
            && env.done_state_id == Some(config.done_state_id) && env.in_progress_state_id
            == config.in_progress_state_id,
{
}

/// The settings file stands below the configuration directory, whatever the home directory is,
/// and otherwise below the home directory, or else the current one.
pub proof fn law_place_of_the_settings<P>(
    config_dir: Option<P>,
    home: Option<String>,
    r: ConfigPath<P>,
)
    requires
        call_ensures(Config::path::<P>, (config_dir, home), r),
    ensures
        config_dir is Some ==> r.base == BaseDir::ConfigDir(config_dir->0),
        config_dir is None && home is Some ==> (r.base matches BaseDir::Named(name) && name@
            == (home->0)@),
        config_dir is None && home is None ==> (r.base matches BaseDir::Named(name) && name@
            == "."@),
        r.directory@ == "linear-sync"@,
        r.file@ == "config.toml"@,
{
}

/// The user is told what is wrong with the settings file, and where it is.
pub proof fn law_settings_errors_are_told(error: &ConfigError, path: &str, r: String)
    requires
        call_ensures(ConfigError::message, (error, path), r),
    ensures
        match *error {
            ConfigError::NotFound => r@ == "Config not found at "@ + path@
                + ". Run `linear-sync setup` first."@,
            ConfigError::Invalid => r@ == "Invalid config file"@,
            ConfigError::NoDirectory => r@ == "Failed to create config directory"@,
            ConfigError::NotWritten => r@ == "Failed to write config to "@ + path@,
        },
{
}

/// Each setting has a variable of its own.
pub proof fn law_variables_have_names()
    ensures
        ENV_API_TOKEN@ == "LINEAR_API_TOKEN"@,
        ENV_TEAM_ID@ == "LINEAR_TEAM_ID"@,
        ENV_ASSIGNEE_ID@ == "LINEAR_ASSIGNEE_ID"@,
        ENV_DONE_STATE_ID@ == "LINEAR_DONE_STATE_ID"@,
        ENV_IN_PROGRESS_STATE_ID@ == "LINEAR_IN_PROGRESS_STATE_ID"@,
{
}

} // verus!
