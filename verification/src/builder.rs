//! From raw, optional texts to a typed [`Config`]: defaults, coercion and
//! the checks on required and numeric fields.

use vstd::prelude::*;
use crate::config::{
    Config, ConfigView, DEFAULT_AUTH_FILE_READ_TIMEOUT, DEFAULT_BIGQUERY_DATASET_ID,
    DEFAULT_BIGQUERY_PROJECT_ID, DEFAULT_BIGQUERY_SERVICE_ACCOUNT_PATH,
    DEFAULT_DOWNLOAD_FOLDER_PATH, DEFAULT_PATH_AUTHENTICATIONS, DEFAULT_PATH_AUTH_CODE,
    DEFAULT_TWITCH_DOWNLOADER_ID, DEFAULT_TWITCH_DOWNLOADER_THREAD_COUNT,
    DEFAULT_USE_FILE_AUTH_RESPONSE, DEFAULT_USE_LOCAL_AUTH_REDIRECT,
    DEFAULT_YOUTUBE_CLIENT_SECRET_PATH, DEFAULT_YOUTUBE_DESCRIPTION_TEMPLATE,
    DEFAULT_YOUTUBE_TAGS, DEFAULT_YOUTUBE_VIDEO_LENGTH_MINUTES_HARD_CAP,
    DEFAULT_YOUTUBE_VIDEO_LENGTH_MINUTES_SOFT_CAP,
    FALLBACK_YOUTUBE_VIDEO_LENGTH_MINUTES_HARD_CAP,
    FALLBACK_YOUTUBE_VIDEO_LENGTH_MINUTES_SOFT_CAP, TAG_SEPARATOR,
};
use crate::error::{ConfigLoadError, LoadFailure};
use crate::text::{
    lemma_short_decimal_values, parse_i64, parse_i64_spec, parse_u64, parse_u64_spec, split,
    split_on,
};

verus! {

/// The raw settings as gathered from a source, before any default or
/// check: each field is the text that was given for it, or `None`.
#[derive(Clone, Debug)]
pub struct ConfigBuilder {
    pub path_auth_code: Option<String>,
    pub path_authentications: Option<String>,
    pub use_file_auth_response: Option<String>,
    pub use_local_auth_redirect: Option<String>,
    pub auth_file_read_timeout: Option<String>,
    pub twitch_client_id: Option<String>,
    pub twitch_client_secret: Option<String>,
    pub twitch_downloader_id: Option<String>,
    pub twitch_downloader_thread_count: Option<String>,
    pub bigquery_project_id: Option<String>,
    pub bigquery_dataset_id: Option<String>,
    pub bigquery_service_account_path: Option<String>,
    pub youtube_client_secret_path: Option<String>,
    pub youtube_tags: Option<String>,
    pub youtube_description_template: Option<String>,
    pub youtube_video_length_minutes_soft_cap: Option<String>,
    pub youtube_video_length_minutes_hard_cap: Option<String>,
    pub download_folder_path: Option<String>,
}

/// The mathematical content of a [`ConfigBuilder`].
pub struct RawFields {
    pub path_auth_code: Option<Seq<char>>,
    pub path_authentications: Option<Seq<char>>,
    pub use_file_auth_response: Option<Seq<char>>,
    pub use_local_auth_redirect: Option<Seq<char>>,
    pub auth_file_read_timeout: Option<Seq<char>>,
    pub twitch_client_id: Option<Seq<char>>,
    pub twitch_client_secret: Option<Seq<char>>,
    pub twitch_downloader_id: Option<Seq<char>>,
    pub twitch_downloader_thread_count: Option<Seq<char>>,
    pub bigquery_project_id: Option<Seq<char>>,
    pub bigquery_dataset_id: Option<Seq<char>>,
    pub bigquery_service_account_path: Option<Seq<char>>,
    pub youtube_client_secret_path: Option<Seq<char>>,
    pub youtube_tags: Option<Seq<char>>,
    pub youtube_description_template: Option<Seq<char>>,
    pub youtube_video_length_minutes_soft_cap: Option<Seq<char>>,
    pub youtube_video_length_minutes_hard_cap: Option<Seq<char>>,
    pub download_folder_path: Option<Seq<char>>,
}

/// The text that an optional string holds, if any.
pub open spec fn text_of(raw: Option<String>) -> Option<Seq<char>> {
    match raw {
        Some(s) => Some(s@),
        None => None,
    }
}

impl View for ConfigBuilder {
    type V = RawFields;

    open spec fn view(&self) -> RawFields {
        RawFields {
            path_auth_code: text_of(self.path_auth_code),
            path_authentications: text_of(self.path_authentications),
            use_file_auth_response: text_of(self.use_file_auth_response),
            use_local_auth_redirect: text_of(self.use_local_auth_redirect),
            auth_file_read_timeout: text_of(self.auth_file_read_timeout),
            twitch_client_id: text_of(self.twitch_client_id),
            twitch_client_secret: text_of(self.twitch_client_secret),
            twitch_downloader_id: text_of(self.twitch_downloader_id),
            twitch_downloader_thread_count: text_of(self.twitch_downloader_thread_count),
            bigquery_project_id: text_of(self.bigquery_project_id),
            bigquery_dataset_id: text_of(self.bigquery_dataset_id),
            bigquery_service_account_path: text_of(self.bigquery_service_account_path),
            youtube_client_secret_path: text_of(self.youtube_client_secret_path),
            youtube_tags: text_of(self.youtube_tags),
            youtube_description_template: text_of(self.youtube_description_template),
            youtube_video_length_minutes_soft_cap: text_of(
                self.youtube_video_length_minutes_soft_cap,
            ),
            youtube_video_length_minutes_hard_cap: text_of(
                self.youtube_video_length_minutes_hard_cap,
            ),
            download_folder_path: text_of(self.download_folder_path),
        }
    }
}

/// The raw fields of a source that gives nothing.
pub open spec fn no_fields() -> RawFields {
    RawFields {
        path_auth_code: None,
        path_authentications: None,
        use_file_auth_response: None,
        use_local_auth_redirect: None,
        auth_file_read_timeout: None,
        twitch_client_id: None,
        twitch_client_secret: None,
        twitch_downloader_id: None,
        twitch_downloader_thread_count: None,
        bigquery_project_id: None,
        bigquery_dataset_id: None,
        bigquery_service_account_path: None,
        youtube_client_secret_path: None,
        youtube_tags: None,
        youtube_description_template: None,
        youtube_video_length_minutes_soft_cap: None,
        youtube_video_length_minutes_hard_cap: None,
        download_folder_path: None,
    }
}

impl Default for ConfigBuilder {
    /// The builder in which no field is set.
    fn default() -> (builder: ConfigBuilder)
        ensures
            builder@ == no_fields(),
    {
        ConfigBuilder {
            path_auth_code: None,
            path_authentications: None,
            use_file_auth_response: None,
            use_local_auth_redirect: None,
            auth_file_read_timeout: None,
            twitch_client_id: None,
            twitch_client_secret: None,
            twitch_downloader_id: None,
            twitch_downloader_thread_count: None,
            bigquery_project_id: None,
            bigquery_dataset_id: None,
            bigquery_service_account_path: None,
            youtube_client_secret_path: None,
            youtube_tags: None,
            youtube_description_template: None,
            youtube_video_length_minutes_soft_cap: None,
            youtube_video_length_minutes_hard_cap: None,
            download_folder_path: None,
        }
    }
}

/// The raw text of a field: what was given, else the field's default.
pub open spec fn or_default(raw: Option<Seq<char>>, default: Seq<char>) -> Seq<char> {
    match raw {
        Some(text) => text,
        None => default,
    }
}

/// A flag is on exactly when its raw text is `1`.
pub open spec fn flag_value(raw: Seq<char>) -> bool {
    raw == "1"@
}

/// A cap in minutes: the number that its raw text denotes, else `fallback`.
pub open spec fn cap_value(raw: Seq<char>, fallback: i64) -> i64 {
    match parse_i64_spec(raw) {
        Some(minutes) => minutes,
        None => fallback,
    }
}

/// The raw text from which `auth_file_read_timeout` is read.
pub open spec fn timeout_text(raw: RawFields) -> Seq<char> {
    or_default(raw.auth_file_read_timeout, DEFAULT_AUTH_FILE_READ_TIMEOUT@)
}

/// The raw text from which `twitch_downloader_thread_count` is read.
pub open spec fn thread_count_text(raw: RawFields) -> Seq<char> {
    or_default(raw.twitch_downloader_thread_count, DEFAULT_TWITCH_DOWNLOADER_THREAD_COUNT@)
}

/// Whether a required field is missing: it was not set, or it was set to
/// the empty text.
pub open spec fn is_missing(raw: Option<Seq<char>>) -> bool {
    match raw {
        Some(text) => text.len() == 0,
        None => true,
    }
}

/// The first reason, if there is one, for which `raw` gives no settings.
/// The checks are made in this order: the read timeout is a number, the
/// client id is there, the client secret is there, the thread count is a
/// number.
pub open spec fn build_failure(raw: RawFields) -> Option<LoadFailure> {
    if parse_u64_spec(timeout_text(raw)) is None {
        Some(LoadFailure::AuthFileReadTimeoutNotANumber(timeout_text(raw)))
    } else if is_missing(raw.twitch_client_id) {
        Some(LoadFailure::TwitchClientIdNotSet)
    } else if is_missing(raw.twitch_client_secret) {
        Some(LoadFailure::TwitchClientSecretNotSet)
    } else if parse_u64_spec(thread_count_text(raw)) is None {
        Some(LoadFailure::TwitchDownloaderThreadCountNotANumber(thread_count_text(raw)))
    } else {
        None
    }
}

/// The settings that `raw` gives once no check fails: every text field
/// as given or by default, every flag and number read from its raw text.
pub open spec fn built_config(raw: RawFields) -> ConfigView
    recommends
        build_failure(raw) is None,
{
    ConfigView {
        path_auth_code: or_default(raw.path_auth_code, DEFAULT_PATH_AUTH_CODE@),
        path_authentications: or_default(raw.path_authentications, DEFAULT_PATH_AUTHENTICATIONS@),
        use_file_auth_response: flag_value(
            or_default(raw.use_file_auth_response, DEFAULT_USE_FILE_AUTH_RESPONSE@),
        ),
        use_local_auth_redirect: flag_value(
            or_default(raw.use_local_auth_redirect, DEFAULT_USE_LOCAL_AUTH_REDIRECT@),
        ),
        auth_file_read_timeout: parse_u64_spec(timeout_text(raw)).unwrap(),
        twitch_client_id: raw.twitch_client_id.unwrap(),
        twitch_client_secret: raw.twitch_client_secret.unwrap(),
        twitch_downloader_id: or_default(raw.twitch_downloader_id, DEFAULT_TWITCH_DOWNLOADER_ID@),
        twitch_downloader_thread_count: parse_u64_spec(thread_count_text(raw)).unwrap(),
        bigquery_project_id: or_default(raw.bigquery_project_id, DEFAULT_BIGQUERY_PROJECT_ID@),
        bigquery_dataset_id: or_default(raw.bigquery_dataset_id, DEFAULT_BIGQUERY_DATASET_ID@),
        bigquery_service_account_path: or_default(
            raw.bigquery_service_account_path,
            DEFAULT_BIGQUERY_SERVICE_ACCOUNT_PATH@,
        ),
        youtube_client_secret_path: or_default(
            raw.youtube_client_secret_path,
            DEFAULT_YOUTUBE_CLIENT_SECRET_PATH@,
        ),
        youtube_tags: split_on(or_default(raw.youtube_tags, DEFAULT_YOUTUBE_TAGS@), TAG_SEPARATOR),
        youtube_description_template: or_default(
            raw.youtube_description_template,
            DEFAULT_YOUTUBE_DESCRIPTION_TEMPLATE@,
        ),
        youtube_video_length_minutes_soft_cap: cap_value(
            or_default(
                raw.youtube_video_length_minutes_soft_cap,
                DEFAULT_YOUTUBE_VIDEO_LENGTH_MINUTES_SOFT_CAP@,
            ),
            FALLBACK_YOUTUBE_VIDEO_LENGTH_MINUTES_SOFT_CAP,
        ),
        youtube_video_length_minutes_hard_cap: cap_value(
            or_default(
                raw.youtube_video_length_minutes_hard_cap,
                DEFAULT_YOUTUBE_VIDEO_LENGTH_MINUTES_HARD_CAP@,
            ),
            FALLBACK_YOUTUBE_VIDEO_LENGTH_MINUTES_HARD_CAP,
        ),
        download_folder_path: or_default(raw.download_folder_path, DEFAULT_DOWNLOAD_FOLDER_PATH@),
    }
}

/// What building from `raw` gives: the failure of the first check that
/// fails, else the settings.
pub open spec fn build_spec(raw: RawFields) -> Result<ConfigView, LoadFailure> {
    match build_failure(raw) {
        Some(failure) => Err(failure),
        None => Ok(built_config(raw)),
    }
}

/// The mathematical content of a loader's result.
pub open spec fn outcome(result: Result<Config, ConfigLoadError>) -> Result<
    ConfigView,
    LoadFailure,
> {
    match result {
        Ok(config) => Ok(config@),
        Err(error) => Err(error@),
    }
}

/// The raw texts that stand in for unset numeric fields denote 5, 50, 300
/// and 359.
pub proof fn default_numbers()
    ensures
        parse_u64_spec(DEFAULT_AUTH_FILE_READ_TIMEOUT@) == Some(5u64),
        parse_u64_spec(DEFAULT_TWITCH_DOWNLOADER_THREAD_COUNT@) == Some(50u64),
        parse_i64_spec(DEFAULT_YOUTUBE_VIDEO_LENGTH_MINUTES_SOFT_CAP@) == Some(300i64),
        parse_i64_spec(DEFAULT_YOUTUBE_VIDEO_LENGTH_MINUTES_HARD_CAP@) == Some(359i64),
{
    reveal_strlit("5");
    reveal_strlit("50");
    reveal_strlit("300");
    reveal_strlit("359");
    lemma_short_decimal_values("5"@);
    lemma_short_decimal_values("50"@);
    lemma_short_decimal_values("300"@);
    lemma_short_decimal_values("359"@);
}

/// The text given for a field, else a copy of the field's default.
fn given_or(raw: Option<String>, default: &str) -> (text: String)
    ensures
        text@ == or_default(text_of(raw), default@),
{
    match raw {
        Some(text) => text,
        None => default.to_owned(),
    }
}

/// Whether a flag's raw text switches it on.
fn is_on(raw: &str) -> (on: bool)
    ensures
        on == flag_value(raw@),
{
    let mut rest = raw.chars();
    let first: Option<char> = rest.next();
    let second: Option<char> = rest.next();
    proof {
        reveal_strlit("1");
        if first == Some('1') && second is None {
            assert(raw@.len() == 1) by {
                assert(raw@.drop_first().len() == 0);
            }
            assert(raw@ =~= "1"@);
        }
    }
    first == Some('1') && second.is_none()
}

/// Reads a cap in minutes from its raw text.
fn read_cap(raw: &str, fallback: i64) -> (minutes: i64)
    ensures
        minutes == cap_value(raw@, fallback),
{
    match parse_i64(raw) {
        Some(minutes) => minutes,
        None => fallback,
    }
}

/// The text of a required field, or `None` where the field is missing.
fn required(raw: Option<String>) -> (text: Option<String>)
    ensures
        text is None <==> is_missing(text_of(raw)),
        text is Some ==> text == raw,
{
    match raw {
        Some(text) => {
            if text.as_str().is_empty() {
                None
            } else {
                Some(text)
            }
        },
        None => None,
    }
}

/// Builds the settings from the raw fields: applies the defaults, reads
/// flags, numbers and tags, and checks what is required. Settings that
/// are built hold both credentials.
pub fn build(config_builder: ConfigBuilder) -> (result: Result<Config, ConfigLoadError>)
    ensures
        outcome(result) == build_spec(config_builder@),
        result matches Ok(config) ==> config@.has_credentials(),
{
    let path_auth_code = given_or(config_builder.path_auth_code, DEFAULT_PATH_AUTH_CODE);
    let use_file_auth_response = is_on(
        given_or(config_builder.use_file_auth_response, DEFAULT_USE_FILE_AUTH_RESPONSE).as_str(),
    );
    let path_authentications = given_or(
        config_builder.path_authentications,
        DEFAULT_PATH_AUTHENTICATIONS,
    );
    let use_local_auth_redirect = is_on(
        given_or(config_builder.use_local_auth_redirect, DEFAULT_USE_LOCAL_AUTH_REDIRECT).as_str(),
    );
    let timeout_raw = given_or(
        config_builder.auth_file_read_timeout,
        DEFAULT_AUTH_FILE_READ_TIMEOUT,
    );
    let auth_file_read_timeout = match parse_u64(timeout_raw.as_str()) {
        Some(seconds) => seconds,
        None => {
            return Err(ConfigLoadError::AuthFileReadTimeoutNotANumber(timeout_raw));
        },
    };
    let twitch_client_id = match required(config_builder.twitch_client_id) {
        Some(id) => id,
        None => {
            return Err(ConfigLoadError::TwitchClientIdNotSet);
        },
    };
    let twitch_client_secret = match required(config_builder.twitch_client_secret) {
        Some(secret) => secret,
        None => {
            return Err(ConfigLoadError::TwitchClientSecretNotSet);
        },
    };
    let twitch_downloader_id = given_or(
        config_builder.twitch_downloader_id,
        DEFAULT_TWITCH_DOWNLOADER_ID,
    );
    let thread_count_raw = given_or(
        config_builder.twitch_downloader_thread_count,
        DEFAULT_TWITCH_DOWNLOADER_THREAD_COUNT,
    );
    let twitch_downloader_thread_count = match parse_u64(thread_count_raw.as_str()) {
        Some(count) => count,
        None => {
            return Err(ConfigLoadError::TwitchDownloaderThreadCountNotANumber(thread_count_raw));
        },
    };
    let bigquery_project_id = given_or(
        config_builder.bigquery_project_id,
        DEFAULT_BIGQUERY_PROJECT_ID,
    );
    let bigquery_dataset_id = given_or(
        config_builder.bigquery_dataset_id,
        DEFAULT_BIGQUERY_DATASET_ID,
    );
    let bigquery_service_account_path = given_or(
        config_builder.bigquery_service_account_path,
        DEFAULT_BIGQUERY_SERVICE_ACCOUNT_PATH,
    );
    let youtube_client_secret_path = given_or(
        config_builder.youtube_client_secret_path,
        DEFAULT_YOUTUBE_CLIENT_SECRET_PATH,
    );
    let youtube_tags = split(
        given_or(config_builder.youtube_tags, DEFAULT_YOUTUBE_TAGS).as_str(),
        TAG_SEPARATOR,
    );
    let youtube_description_template = given_or(
        config_builder.youtube_description_template,
        DEFAULT_YOUTUBE_DESCRIPTION_TEMPLATE,
    );
    let youtube_video_length_minutes_soft_cap = read_cap(
        given_or(
            config_builder.youtube_video_length_minutes_soft_cap,
            DEFAULT_YOUTUBE_VIDEO_LENGTH_MINUTES_SOFT_CAP,
        ).as_str(),
        FALLBACK_YOUTUBE_VIDEO_LENGTH_MINUTES_SOFT_CAP,
    );
    let youtube_video_length_minutes_hard_cap = read_cap(
        given_or(
            config_builder.youtube_video_length_minutes_hard_cap,
            DEFAULT_YOUTUBE_VIDEO_LENGTH_MINUTES_HARD_CAP,
        ).as_str(),
        FALLBACK_YOUTUBE_VIDEO_LENGTH_MINUTES_HARD_CAP,
    );
    let download_folder_path = given_or(
        config_builder.download_folder_path,
        DEFAULT_DOWNLOAD_FOLDER_PATH,
    );
    Ok(
        Config {
            path_auth_code,
            path_authentications,
            use_file_auth_response,
            use_local_auth_redirect,
            auth_file_read_timeout,
            twitch_client_id,
            twitch_client_secret,
            twitch_downloader_id,
            twitch_downloader_thread_count,
            bigquery_project_id,
            bigquery_dataset_id,
            bigquery_service_account_path,
            youtube_client_secret_path,
            youtube_tags,
            youtube_description_template,
            youtube_video_length_minutes_soft_cap,
            youtube_video_length_minutes_hard_cap,
            download_folder_path,
        },
    )
}

} // verus!
