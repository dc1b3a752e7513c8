use twba_backup_config::{
    config_file_path, get_empty_config, load_config, try_load_config, ConfigBuilder, ConfigFile,
    ConfigLoadError, ConfigSource, Environment,
};

fn environment(pairs: &[(&str, &str)]) -> Environment {
    Environment {
        variables: pairs.iter().map(|(name, value)| (name.to_string(), value.to_string())).collect(),
    }
}

fn json_error() -> serde_json::Error {
    serde_json::from_str::<serde_json::Value>("{").unwrap_err()
}

const CREDENTIALS: [(&str, &str); 2] = [("TWITCH_CLIENT_ID", "id"), ("TWITCH_CLIENT_SECRET", "secret")];

#[test]
fn get_empty_config_misses_the_client_id() {
    assert!(matches!(get_empty_config(), Err(ConfigLoadError::TwitchClientIdNotSet)));
}

#[test]
fn no_file_is_chosen_when_the_path_is_unset() {
    assert_eq!(config_file_path(&environment(&CREDENTIALS), true), None);
    assert_eq!(config_file_path(&environment(&[]), true), None);
}

#[test]
fn the_file_named_by_the_variable_is_chosen() {
    let env = environment(&[("TWITCH_CLIENT_ID", "id"), ("CONFIG_FILE_PATH", "/etc/twba.json")]);
    assert_eq!(config_file_path(&env, true), Some("/etc/twba.json".to_string()));
}

#[test]
fn no_file_is_chosen_without_file_support() {
    let env = environment(&[("CONFIG_FILE_PATH", "/etc/twba.json")]);
    assert_eq!(config_file_path(&env, false), None);
}

#[test]
fn the_path_variable_is_case_sensitive() {
    let env = environment(&[("config_file_path", "/etc/twba.json")]);
    assert_eq!(config_file_path(&env, true), None);
}

#[test]
fn loading_from_the_environment_applies_defaults() {
    let config = try_load_config(ConfigSource::Environment(environment(&CREDENTIALS)), true).unwrap();
    assert_eq!(config.twitch_client_id, "id");
    assert_eq!(config.twitch_client_secret, "secret");
    assert_eq!(config.path_auth_code, "/tmp/twba/auth/code.txt");
    assert_eq!(config.auth_file_read_timeout, 5);
    assert_eq!(config.twitch_downloader_thread_count, 50);
    assert_eq!(config.youtube_tags, vec![String::new()]);
    assert_eq!(config.youtube_video_length_minutes_soft_cap, 300);
    assert_eq!(config.youtube_video_length_minutes_hard_cap, 359);
    assert_eq!(config.download_folder_path, "/var/tmp/twba/videos/");
}

#[test]
fn loading_from_the_environment_works_without_file_support() {
    let config = try_load_config(ConfigSource::Environment(environment(&CREDENTIALS)), false).unwrap();
    assert_eq!(config.twitch_client_id, "id");
}

#[test]
fn loading_without_client_id_fails() {
    let env = environment(&[("TWITCH_CLIENT_SECRET", "secret")]);
    assert!(matches!(
        try_load_config(ConfigSource::Environment(env), true),
        Err(ConfigLoadError::TwitchClientIdNotSet)
    ));
}

#[test]
fn loading_without_client_secret_fails() {
    let env = environment(&[("TWITCH_CLIENT_ID", "id")]);
    assert!(matches!(
        try_load_config(ConfigSource::Environment(env), true),
        Err(ConfigLoadError::TwitchClientSecretNotSet)
    ));
}

#[test]
fn loading_with_an_empty_client_id_fails() {
    let env = environment(&[("TWITCH_CLIENT_ID", ""), ("TWITCH_CLIENT_SECRET", "secret")]);
    assert!(matches!(
        try_load_config(ConfigSource::Environment(env), true),
        Err(ConfigLoadError::TwitchClientIdNotSet)
    ));
}

#[test]
fn loading_with_an_empty_client_secret_fails() {
    let env = environment(&[("TWITCH_CLIENT_ID", "id"), ("TWITCH_CLIENT_SECRET", "")]);
    assert!(matches!(
        try_load_config(ConfigSource::Environment(env), true),
        Err(ConfigLoadError::TwitchClientSecretNotSet)
    ));
}

#[test]
fn a_parsed_file_with_an_empty_credential_fails() {
    let mut fields = ConfigBuilder::default();
    fields.twitch_client_id = Some("id".to_string());
    fields.twitch_client_secret = Some(String::new());
    let source = ConfigSource::File("/etc/twba.json".to_string(), ConfigFile::Parsed(fields));
    assert!(matches!(try_load_config(source, true), Err(ConfigLoadError::TwitchClientSecretNotSet)));
}

#[test]
fn loading_with_a_malformed_timeout_fails() {
    let env = environment(&[
        ("TWITCH_CLIENT_ID", "id"),
        ("TWITCH_CLIENT_SECRET", "secret"),
        ("AUTH_FILE_READ_TIMEOUT", "five"),
    ]);
    match try_load_config(ConfigSource::Environment(env), true) {
        Err(ConfigLoadError::AuthFileReadTimeoutNotANumber(given)) => assert_eq!(given, "five"),
        other => panic!("gave {:?}", other),
    }
}

#[test]
fn loading_with_a_malformed_soft_cap_falls_back() {
    let env = environment(&[
        ("TWITCH_CLIENT_ID", "id"),
        ("TWITCH_CLIENT_SECRET", "secret"),
        ("YOUTUBE_VIDEO_LENGTH_MINUTES_SOFT_CAP", "long"),
    ]);
    let config = try_load_config(ConfigSource::Environment(env), true).unwrap();
    assert_eq!(config.youtube_video_length_minutes_soft_cap, 30);
}

#[test]
fn loading_tags_from_the_environment() {
    let env = environment(&[
        ("TWITCH_CLIENT_ID", "id"),
        ("TWITCH_CLIENT_SECRET", "secret"),
        ("YOUTUBE_TAGS", "a,b,c"),
    ]);
    let config = try_load_config(ConfigSource::Environment(env), true).unwrap();
    assert_eq!(config.youtube_tags, vec!["a".to_string(), "b".to_string(), "c".to_string()]);
}

#[test]
fn an_unreadable_file_keeps_cause_and_path() {
    let cause = std::io::Error::new(std::io::ErrorKind::NotFound, "no such file");
    let source = ConfigSource::File("/etc/twba.json".to_string(), ConfigFile::Unreadable(cause));
    match try_load_config(source, true) {
        Err(ConfigLoadError::IOReadPath(cause, path)) => {
            assert_eq!(cause.kind(), std::io::ErrorKind::NotFound);
            assert_eq!(cause.to_string(), "no such file");
            assert_eq!(path, "/etc/twba.json");
        },
        other => panic!("gave {:?}", other),
    }
}

#[test]
fn a_malformed_file_keeps_its_cause() {
    let cause = json_error();
    let message = cause.to_string();
    let source = ConfigSource::File("/etc/twba.json".to_string(), ConfigFile::Malformed(cause));
    match try_load_config(source, true) {
        Err(ConfigLoadError::Parse(cause)) => assert_eq!(cause.to_string(), message),
        other => panic!("gave {:?}", other),
    }
}

#[test]
fn a_parsed_file_is_built() {
    let mut fields = ConfigBuilder::default();
    fields.twitch_client_id = Some("id".to_string());
    fields.twitch_client_secret = Some("secret".to_string());
    fields.youtube_tags = Some("x,y".to_string());
    let source = ConfigSource::File("/etc/twba.json".to_string(), ConfigFile::Parsed(fields));
    let config = try_load_config(source, true).unwrap();
    assert_eq!(config.twitch_client_id, "id");
    assert_eq!(config.youtube_tags, vec!["x".to_string(), "y".to_string()]);
    assert_eq!(config.bigquery_dataset_id, "backup_data");
}

#[test]
fn a_parsed_file_without_credentials_fails() {
    let source = ConfigSource::File("/etc/twba.json".to_string(), ConfigFile::Parsed(ConfigBuilder::default()));
    assert!(matches!(try_load_config(source, true), Err(ConfigLoadError::TwitchClientIdNotSet)));
}

#[test]
fn a_file_without_file_support_fails() {
    let mut fields = ConfigBuilder::default();
    fields.twitch_client_id = Some("id".to_string());
    fields.twitch_client_secret = Some("secret".to_string());
    let source = ConfigSource::File("/etc/twba.json".to_string(), ConfigFile::Parsed(fields));
    assert!(matches!(try_load_config(source, false), Err(ConfigLoadError::FailedToLoadFromEnv)));
    let source = ConfigSource::File("/etc/twba.json".to_string(), ConfigFile::Malformed(json_error()));
    assert!(matches!(try_load_config(source, false), Err(ConfigLoadError::FailedToLoadFromEnv)));
}

#[test]
fn file_and_environment_with_the_same_fields_agree() {
    let pairs = [
        ("TWITCH_CLIENT_ID", "id"),
        ("TWITCH_CLIENT_SECRET", "secret"),
        ("TWITCH_DOWNLOADER_ID", "downloader"),
        ("TWITCH_DOWNLOADER_THREAD_COUNT", "7"),
        ("PATH_AUTH_CODE", "code"),
        ("PATH_AUTHENTICATIONS", "auths"),
        ("USE_FILE_AUTH_RESPONSE", "0"),
        ("USE_LOCAL_AUTH_REDIRECT", "1"),
        ("AUTH_FILE_READ_TIMEOUT", "11"),
        ("BIGQUERY_PROJECT_ID", "project"),
        ("BIGQUERY_DATASET_ID", "dataset"),
        ("BIGQUERY_SERVICE_ACCOUNT_PATH", "sa"),
        ("YOUTUBE_CLIENT_SECRET_PATH", "yt"),
        ("YOUTUBE_TAGS", "a,b"),
        ("YOUTUBE_DESCRIPTION_TEMPLATE", "template"),
        ("YOUTUBE_VIDEO_LENGTH_MINUTES_SOFT_CAP", "100"),
        ("YOUTUBE_VIDEO_LENGTH_MINUTES_HARD_CAP", "oops"),
        ("DOWNLOAD_FOLDER_PATH", "videos"),
    ];
    let text = |s: &str| Some(s.to_string());
    let fields = ConfigBuilder {
        twitch_client_id: text("id"),
        twitch_client_secret: text("secret"),
        twitch_downloader_id: text("downloader"),
        twitch_downloader_thread_count: text("7"),
        path_auth_code: text("code"),
        path_authentications: text("auths"),
        use_file_auth_response: text("0"),
        use_local_auth_redirect: text("1"),
        auth_file_read_timeout: text("11"),
        bigquery_project_id: text("project"),
        bigquery_dataset_id: text("dataset"),
        bigquery_service_account_path: text("sa"),
        youtube_client_secret_path: text("yt"),
        youtube_tags: text("a,b"),
        youtube_description_template: text("template"),
        youtube_video_length_minutes_soft_cap: text("100"),
        youtube_video_length_minutes_hard_cap: text("oops"),
        download_folder_path: text("videos"),
    };
    let from_file = try_load_config(
        ConfigSource::File("/etc/twba.json".to_string(), ConfigFile::Parsed(fields)),
        true,
    )
    .unwrap();
    let from_env = try_load_config(ConfigSource::Environment(environment(&pairs)), true).unwrap();
    assert_eq!(format!("{:?}", from_file), format!("{:?}", from_env));
    assert_eq!(from_file.auth_file_read_timeout, 11);
    assert_eq!(from_file.use_file_auth_response, false);
    assert_eq!(from_file.use_local_auth_redirect, true);
    assert_eq!(from_file.youtube_video_length_minutes_hard_cap, 60);
}

#[test]
fn loading_twice_from_one_environment_gives_equal_settings() {
    let env = environment(&[
        ("TWITCH_CLIENT_ID", "id"),
        ("TWITCH_CLIENT_SECRET", "secret"),
        ("YOUTUBE_TAGS", "one,two"),
        ("AUTH_FILE_READ_TIMEOUT", "8"),
    ]);
    let first = try_load_config(ConfigSource::Environment(env.clone()), true).unwrap();
    let second = try_load_config(ConfigSource::Environment(env), true).unwrap();
    assert_eq!(format!("{:?}", first), format!("{:?}", second));
}

#[test]
fn loading_twice_from_one_failing_environment_fails_alike() {
    let env = environment(&[("TWITCH_CLIENT_ID", "id"), ("AUTH_FILE_READ_TIMEOUT", "x")]);
    let first = try_load_config(ConfigSource::Environment(env.clone()), true).unwrap_err();
    let second = try_load_config(ConfigSource::Environment(env), true).unwrap_err();
    assert_eq!(format!("{:?}", first), format!("{:?}", second));
}

#[test]
fn load_config_gives_the_settings() {
    let config = load_config(ConfigSource::Environment(environment(&CREDENTIALS)), true);
    assert_eq!(config.twitch_client_id, "id");
    assert_eq!(config.twitch_downloader_id, "kimne78kx3ncx6brgo4mv6wki5h1ko");
    let copy = config.clone();
    assert_eq!(format!("{:?}", copy), format!("{:?}", config));
}
