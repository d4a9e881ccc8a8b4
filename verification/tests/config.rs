use auto_commit::config::{
    folder_answer, AppConfig, ConfigStore, Persisted, CONFIG_DIR, CONFIG_FILE, NO_FOLDER_SELECTED,
};
use auto_commit::error::{AppError, ErrorKind};

fn sample() -> AppConfig {
    AppConfig {
        repo_path: "/work/repo".to_string(),
        auto_commit_enabled: true,
        interval_minutes: 5,
        auto_start: true,
        gemini_api_key: "secret".to_string(),
    }
}

#[test]
fn the_default_configuration_waits_half_an_hour_and_knows_no_repository() {
    assert_eq!(
        AppConfig::default(),
        AppConfig {
            repo_path: String::new(),
            auto_commit_enabled: false,
            interval_minutes: 30,
            auto_start: false,
            gemini_api_key: String::new(),
        }
    );
}

#[test]
fn a_copy_of_a_configuration_equals_it() {
    assert_eq!(sample().clone(), sample());
}

#[test]
fn a_new_store_holds_the_default_configuration() {
    assert_eq!(ConfigStore::new().get(), AppConfig::default());
}

#[test]
fn a_store_hands_out_what_was_put_in() {
    let mut store = ConfigStore::new();
    store.replace(sample());
    assert_eq!(store.get(), sample());
    assert_eq!(store.get(), sample());
}

#[test]
fn a_replacement_replaces_every_field() {
    let mut store = ConfigStore::new();
    store.replace(sample());
    store.replace(AppConfig::default());
    assert_eq!(store.get(), AppConfig::default());
}

#[test]
fn a_zero_interval_is_accepted_by_the_store() {
    let mut store = ConfigStore::new();
    let mut config = sample();
    config.interval_minutes = 0;
    store.replace(config);
    assert_eq!(store.get().interval_minutes, 0);
}

#[test]
fn a_stored_configuration_comes_into_force_when_loaded() {
    let mut store = ConfigStore::new();
    assert_eq!(store.load(Persisted::Found(sample())), Ok(sample()));
    assert_eq!(store.get(), sample());
}

#[test]
fn a_missing_file_gives_the_default_and_leaves_the_store() {
    let mut store = ConfigStore::new();
    store.replace(sample());
    assert_eq!(store.load(Persisted::Absent), Ok(AppConfig::default()));
    assert_eq!(store.get(), sample());
}

#[test]
fn a_file_that_cannot_be_read_is_a_storage_failure() {
    let mut store = ConfigStore::new();
    store.replace(sample());
    assert_eq!(
        store.load(Persisted::Unreadable("Permission denied (os error 13)".to_string())),
        Err(AppError {
            kind: ErrorKind::Io,
            message: "Failed to read config: Permission denied (os error 13)".to_string()
        })
    );
    assert_eq!(store.get(), sample());
}

#[test]
fn a_file_that_holds_no_configuration_is_a_decoding_failure() {
    let mut store = ConfigStore::new();
    store.replace(sample());
    assert_eq!(
        store.load(Persisted::Malformed("missing field `repo_path`".to_string())),
        Err(AppError {
            kind: ErrorKind::Parse,
            message: "Failed to parse config: missing field `repo_path`".to_string()
        })
    );
    assert_eq!(store.get(), sample());
}

#[test]
fn the_configuration_is_stored_under_its_own_directory() {
    assert_eq!(CONFIG_DIR, "auto-commit-app");
    assert_eq!(CONFIG_FILE, "config.json");
}

#[test]
fn a_cancelled_choice_of_folder_has_its_text() {
    assert_eq!(NO_FOLDER_SELECTED, "No folder was selected");
}

#[test]
fn a_chosen_folder_is_answered_with_its_path() {
    assert_eq!(folder_answer(Some("/work/repo".to_string())), "/work/repo");
    assert_eq!(folder_answer(Some(String::new())), "");
}

#[test]
fn a_cancelled_choice_is_answered_with_its_marker() {
    assert_eq!(folder_answer(None), "No folder was selected");
}
