//! The configuration of the engine and the store that holds the current one.

use crate::error::{config_malformed, config_read_failure, AppError};
use vstd::prelude::*;

verus! {

/// What the user configures.
#[derive(Debug, PartialEq, Eq)]
pub struct AppConfig {
    /// The repository that is watched.
    pub repo_path: String,
    /// Whether commits are made on a timer.
    pub auto_commit_enabled: bool,
    /// The time between two timed runs, in minutes.
    pub interval_minutes: u64,
    /// Whether the timer starts when the program does.
    pub auto_start: bool,
    /// The credential for the remote service; empty where none is set.
    pub gemini_api_key: String,
}

/// The mathematical value of an [`AppConfig`].
pub struct ConfigView {
    pub repo_path: Seq<char>,
    pub auto_commit_enabled: bool,
    pub interval_minutes: u64,
    pub auto_start: bool,
    pub gemini_api_key: Seq<char>,
}

impl View for AppConfig {
    type V = ConfigView;

    open spec fn view(&self) -> ConfigView {
        ConfigView {
            repo_path: self.repo_path@,
            auto_commit_enabled: self.auto_commit_enabled,
            interval_minutes: self.interval_minutes,
            auto_start: self.auto_start,
            gemini_api_key: self.gemini_api_key@,
        }
    }
}

/// The configuration in force before the user sets one: no repository, no
/// credential, nothing automatic, half an hour between runs.
pub open spec fn default_config() -> ConfigView {
    ConfigView {
        repo_path: Seq::empty(),
        auto_commit_enabled: false,
        interval_minutes: 30,
        auto_start: false,
        gemini_api_key: Seq::empty(),
    }
}

impl Default for AppConfig {
    fn default() -> (config: AppConfig)
        ensures
            config@ == default_config(),
    {
        AppConfig {
            repo_path: String::new(),
            auto_commit_enabled: false,
            interval_minutes: 30,
            auto_start: false,
            gemini_api_key: String::new(),
        }
    }
}

impl Clone for AppConfig {
    fn clone(&self) -> (copy: AppConfig)
        ensures
            copy@ == self@,
    {
        AppConfig {
            repo_path: self.repo_path.clone(),
            auto_commit_enabled: self.auto_commit_enabled,
            interval_minutes: self.interval_minutes,
            auto_start: self.auto_start,
            gemini_api_key: self.gemini_api_key.clone(),
        }
    }
}

/// The directory, under the user's configuration directory, in which the
/// configuration is stored.
pub const CONFIG_DIR: &'static str = "auto-commit-app";

/// The file in which the configuration is stored.
pub const CONFIG_FILE: &'static str = "config.json";

/// What is said where the user was asked for a repository folder and chose none.
pub const NO_FOLDER_SELECTED: &'static str = "No folder was selected";

/// The answer to a request for a repository folder: the path that the user
/// chose, or [`NO_FOLDER_SELECTED`] where the choice was cancelled. A
/// cancelled choice is an answer, no failure.
pub fn folder_answer(picked: Option<String>) -> (answer: String)
    ensures
        answer@ == match picked {
            Some(path) => path@,
            None => NO_FOLDER_SELECTED@,
        },
{
    match picked {
        Some(path) => path,
        None => String::from_str(NO_FOLDER_SELECTED),
    }
}

/// What an attempt to read the stored configuration found.
#[derive(Debug, PartialEq, Eq)]
pub enum Persisted {
    /// No configuration has been stored.
    Absent,
    /// The stored file could not be read, for the reason given.
    Unreadable(String),
    /// The stored file does not hold a configuration, for the reason given.
    Malformed(String),
    /// The stored configuration.
    Found(AppConfig),
}

/// The mathematical value of a [`Persisted`].
pub enum PersistedView {
    Absent,
    Unreadable(Seq<char>),
    Malformed(Seq<char>),
    Found(ConfigView),
}

impl View for Persisted {
    type V = PersistedView;

    open spec fn view(&self) -> PersistedView {
        match self {
            Persisted::Absent => PersistedView::Absent,
            Persisted::Unreadable(why) => PersistedView::Unreadable(why@),
            Persisted::Malformed(why) => PersistedView::Malformed(why@),
            Persisted::Found(config) => PersistedView::Found(config@),
        }
    }
}

/// Holds the configuration in force. Reading hands out a copy; writing
/// replaces the whole.
#[derive(Debug)]
pub struct ConfigStore {
    current: AppConfig,
}

impl View for ConfigStore {
    type V = ConfigView;

    closed spec fn view(&self) -> ConfigView {
        self.current@
    }
}

impl ConfigStore {
    /// A store that holds the default configuration.
    pub fn new() -> (store: ConfigStore)
        ensures
            store@ == default_config(),
    {
        ConfigStore { current: AppConfig::default() }
    }

    /// A copy of the configuration in force.
    pub fn get(&self) -> (config: AppConfig)
        ensures
            config@ == self@,
    {
        self.current.clone()
    }

    /// Puts `config` in force, whole.
    pub fn replace(&mut self, config: AppConfig)
        ensures
            final(self)@ == config@,
    {
        self.current = config;
    }

    /// Takes in what reading the stored configuration found. A stored
    /// configuration comes into force and is handed back. Where none is
    /// stored, the default is handed back and the store is left as it is.
    /// Where reading failed, the store is left as it is too.
    pub fn load(&mut self, persisted: Persisted) -> (loaded: Result<AppConfig, AppError>)
        ensures
            match persisted@ {
                PersistedView::Absent => {
                    &&& loaded is Ok
                    &&& loaded->Ok_0@ == default_config()
                    &&& final(self)@ == old(self)@
                },
                PersistedView::Unreadable(why) => {
                    &&& loaded is Err
                    &&& loaded->Err_0@ == config_read_failure(why)
                    &&& final(self)@ == old(self)@
                },
                PersistedView::Malformed(why) => {
                    &&& loaded is Err
                    &&& loaded->Err_0@ == config_malformed(why)
                    &&& final(self)@ == old(self)@
                },
                PersistedView::Found(config) => {
                    &&& loaded is Ok
                    &&& loaded->Ok_0@ == config
                    &&& final(self)@ == config
                },
            },
    {
        match persisted {
            Persisted::Absent => Ok(AppConfig::default()),
            Persisted::Unreadable(why) => Err(AppError::config_read(why.as_str())),
            Persisted::Malformed(why) => Err(AppError::config_malformed(why.as_str())),
            Persisted::Found(config) => {
                let copy = config.clone();
                self.current = config;
                Ok(copy)
            },
        }
    }
}

} // verus!
