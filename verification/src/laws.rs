//! What holds of every load, proved from the loader's definitions.

use vstd::prelude::*;
use crate::builder::{
    build_failure, build_spec, default_numbers, is_missing, or_default, outcome, ConfigBuilder,
    RawFields,
};
use crate::config::{Config, ConfigView};
use crate::environment::{environment_fields, lookup, Environment};
use crate::error::{ConfigLoadError, LoadFailure};
use crate::loader::{load_spec, ConfigFile, ConfigSource};
use crate::text::{join, lemma_split_on, parse_i64_spec, parse_u64_spec};

verus! {

/// Each of the sixteen optional fields, when it is not set, takes its
/// default: whatever else the raw fields hold, settings built from them
/// carry the listed value in every optional field that was left unset.
pub proof fn unset_fields_take_defaults(raw: RawFields)
    ensures
        build_spec(raw) matches Ok(config) ==> {
            &&& raw.path_auth_code is None ==> config.path_auth_code
                == "/tmp/twba/auth/code.txt"@
            &&& raw.path_authentications is None ==> config.path_authentications
                == "/tmp/twba/auth/{user}.json"@
            &&& raw.use_file_auth_response is None ==> config.use_file_auth_response
            &&& raw.use_local_auth_redirect is None ==> !config.use_local_auth_redirect
            &&& raw.auth_file_read_timeout is None ==> config.auth_file_read_timeout == 5
            &&& raw.twitch_downloader_id is None ==> config.twitch_downloader_id
                == "kimne78kx3ncx6brgo4mv6wki5h1ko"@
            &&& raw.twitch_downloader_thread_count is None
                ==> config.twitch_downloader_thread_count == 50
            &&& raw.bigquery_project_id is None ==> config.bigquery_project_id
                == "twitchbackup-v1"@
            &&& raw.bigquery_dataset_id is None ==> config.bigquery_dataset_id == "backup_data"@
            &&& raw.bigquery_service_account_path is None ==> config.bigquery_service_account_path
                == "auth/bigquery_service_account.json"@
            &&& raw.youtube_client_secret_path is None ==> config.youtube_client_secret_path
                == "auth/youtube_client_secret.json"@
            &&& raw.youtube_tags is None ==> config.youtube_tags == seq![Seq::<char>::empty()]
            &&& raw.youtube_description_template is None ==> config.youtube_description_template
                == "test description for \"$$video_title$$\""@
            &&& raw.youtube_video_length_minutes_soft_cap is None
                ==> config.youtube_video_length_minutes_soft_cap == 300
            &&& raw.youtube_video_length_minutes_hard_cap is None
                ==> config.youtube_video_length_minutes_hard_cap == 359
            &&& raw.download_folder_path is None ==> config.download_folder_path
                == "/var/tmp/twba/videos/"@
        },
{
    default_numbers();
    reveal_strlit("1");
    reveal_strlit("0");
    reveal_strlit("");
    assert("0"@[0] != "1"@[0]);
    assert(""@ =~= Seq::<char>::empty());
}

/// The same of a load from the environment: a field whose variable is not
/// set takes its default.
pub proof fn unset_variables_take_defaults(variables: Seq<(Seq<char>, Seq<char>)>)
    ensures
        build_spec(environment_fields(variables)) matches Ok(config) ==> {
            &&& lookup(variables, "PATH_AUTH_CODE"@) is None ==> config.path_auth_code
                == "/tmp/twba/auth/code.txt"@
            &&& lookup(variables, "PATH_AUTHENTICATIONS"@) is None ==> config.path_authentications
                == "/tmp/twba/auth/{user}.json"@
            &&& lookup(variables, "USE_FILE_AUTH_RESPONSE"@) is None
                ==> config.use_file_auth_response
            &&& lookup(variables, "USE_LOCAL_AUTH_REDIRECT"@) is None
                ==> !config.use_local_auth_redirect
            &&& lookup(variables, "AUTH_FILE_READ_TIMEOUT"@) is None
                ==> config.auth_file_read_timeout == 5
            &&& lookup(variables, "TWITCH_DOWNLOADER_ID"@) is None ==> config.twitch_downloader_id
                == "kimne78kx3ncx6brgo4mv6wki5h1ko"@
            &&& lookup(variables, "TWITCH_DOWNLOADER_THREAD_COUNT"@) is None
                ==> config.twitch_downloader_thread_count == 50
            &&& lookup(variables, "BIGQUERY_PROJECT_ID"@) is None ==> config.bigquery_project_id
                == "twitchbackup-v1"@
            &&& lookup(variables, "BIGQUERY_DATASET_ID"@) is None ==> config.bigquery_dataset_id
                == "backup_data"@
            &&& lookup(variables, "BIGQUERY_SERVICE_ACCOUNT_PATH"@) is None
                ==> config.bigquery_service_account_path == "auth/bigquery_service_account.json"@
            &&& lookup(variables, "YOUTUBE_CLIENT_SECRET_PATH"@) is None
                ==> config.youtube_client_secret_path == "auth/youtube_client_secret.json"@
            &&& lookup(variables, "YOUTUBE_TAGS"@) is None ==> config.youtube_tags
                == seq![Seq::<char>::empty()]
            &&& lookup(variables, "YOUTUBE_DESCRIPTION_TEMPLATE"@) is None
                ==> config.youtube_description_template
                == "test description for \"$$video_title$$\""@
            &&& lookup(variables, "YOUTUBE_VIDEO_LENGTH_MINUTES_SOFT_CAP"@) is None
                ==> config.youtube_video_length_minutes_soft_cap == 300
            &&& lookup(variables, "YOUTUBE_VIDEO_LENGTH_MINUTES_HARD_CAP"@) is None
                ==> config.youtube_video_length_minutes_hard_cap == 359
            &&& lookup(variables, "DOWNLOAD_FOLDER_PATH"@) is None ==> config.download_folder_path
                == "/var/tmp/twba/videos/"@
        },
{
    unset_fields_take_defaults(environment_fields(variables));
}

/// Settings that are built hold both credentials: neither the client id
/// nor the client secret is empty.
pub proof fn built_settings_hold_credentials(raw: RawFields)
    ensures
        build_spec(raw) matches Ok(config) ==> config.has_credentials(),
        build_spec(raw) matches Ok(config) ==> config.twitch_client_id.len() > 0
            && config.twitch_client_secret.len() > 0,
{
}

/// An unset optional field never stands in the way: once both credentials
/// are set and not empty, and the two checked numbers are unset or
/// well-formed, the settings are built.
pub proof fn credentials_suffice(raw: RawFields)
    requires
        !is_missing(raw.twitch_client_id),
        !is_missing(raw.twitch_client_secret),
        raw.auth_file_read_timeout matches Some(text) ==> parse_u64_spec(text) is Some,
        raw.twitch_downloader_thread_count matches Some(text) ==> parse_u64_spec(text) is Some,
    ensures
        build_spec(raw) is Ok,
{
    default_numbers();
}

/// Without the client id or without the client secret there are no
/// settings: where either is unset or empty the load fails, whatever the
/// other fields hold.
pub proof fn missing_credential_fails(raw: RawFields)
    requires
        is_missing(raw.twitch_client_id) || is_missing(raw.twitch_client_secret),
    ensures
        build_spec(raw) is Err,
{
}

/// A missing credential, one that is unset or empty, is named by the
/// failure, wherever the read timeout, which is checked before the
/// credentials, is unset or a number: a missing client id gives
/// `TwitchClientIdNotSet`; a missing client secret beside a client id
/// gives `TwitchClientSecretNotSet`.
pub proof fn missing_credential_is_named(raw: RawFields)
    requires
        raw.auth_file_read_timeout matches Some(text) ==> parse_u64_spec(text) is Some,
    ensures
        is_missing(raw.twitch_client_id) ==> build_spec(raw) == Err::<ConfigView, LoadFailure>(
            LoadFailure::TwitchClientIdNotSet,
        ),
        !is_missing(raw.twitch_client_id) && is_missing(raw.twitch_client_secret) ==> build_spec(
            raw,
        ) == Err::<ConfigView, LoadFailure>(LoadFailure::TwitchClientSecretNotSet),
        raw.twitch_client_id is None ==> build_spec(raw) == Err::<ConfigView, LoadFailure>(
            LoadFailure::TwitchClientIdNotSet,
        ),
        raw.twitch_client_id == Some(Seq::<char>::empty()) ==> build_spec(raw) == Err::<
            ConfigView,
            LoadFailure,
        >(LoadFailure::TwitchClientIdNotSet),
{
    default_numbers();
}

/// A flag is on exactly when its raw text is `1`: settings built with
/// `use_file_auth_response` set to `text` have the flag on if `text` is
/// `1`, and off for every other text.
pub proof fn flag_is_on_exactly_for_one(raw: RawFields, text: Seq<char>)
    requires
        raw.use_file_auth_response == Some(text),
    ensures
        build_spec(raw) matches Ok(config) ==> config.use_file_auth_response == (text == "1"@),
{
}

/// The same of `use_local_auth_redirect`.
pub proof fn redirect_flag_is_on_exactly_for_one(raw: RawFields, text: Seq<char>)
    requires
        raw.use_local_auth_redirect == Some(text),
    ensures
        build_spec(raw) matches Ok(config) ==> config.use_local_auth_redirect == (text == "1"@),
{
}

/// A read timeout that is set to a text which is no unsigned decimal
/// number fails the load, with the failure that names the field and
/// carries the text, whatever the other fields hold.
pub proof fn malformed_timeout_fails(raw: RawFields, text: Seq<char>)
    requires
        raw.auth_file_read_timeout == Some(text),
        parse_u64_spec(text) is None,
    ensures
        build_spec(raw) == Err::<ConfigView, LoadFailure>(
            LoadFailure::AuthFileReadTimeoutNotANumber(text),
        ),
{
}

/// A thread count that is set to a text which is no unsigned decimal
/// number fails the load with the failure that names the field, once
/// the checks made before it have passed.
pub proof fn malformed_thread_count_fails(raw: RawFields, text: Seq<char>)
    requires
        raw.twitch_downloader_thread_count == Some(text),
        parse_u64_spec(text) is None,
        raw.auth_file_read_timeout matches Some(timeout) ==> parse_u64_spec(timeout) is Some,
        !is_missing(raw.twitch_client_id),
        !is_missing(raw.twitch_client_secret),
    ensures
        build_spec(raw) == Err::<ConfigView, LoadFailure>(
            LoadFailure::TwitchDownloaderThreadCountNotANumber(text),
        ),
{
    default_numbers();
}

/// A cap that is set to a text which is no signed decimal number raises no
/// failure: the load fails or succeeds as it would with the cap unset,
/// and settings that are built carry 30 as the soft cap.
pub proof fn malformed_soft_cap_falls_back(raw: RawFields, text: Seq<char>)
    requires
        raw.youtube_video_length_minutes_soft_cap == Some(text),
        parse_i64_spec(text) is None,
    ensures
        build_failure(raw) == build_failure(
            RawFields { youtube_video_length_minutes_soft_cap: None, ..raw },
        ),
        build_spec(raw) matches Ok(config) ==> config.youtube_video_length_minutes_soft_cap == 30,
{
}

/// The same of the hard cap, which falls back to 60.
pub proof fn malformed_hard_cap_falls_back(raw: RawFields, text: Seq<char>)
    requires
        raw.youtube_video_length_minutes_hard_cap == Some(text),
        parse_i64_spec(text) is None,
    ensures
        build_failure(raw) == build_failure(
            RawFields { youtube_video_length_minutes_hard_cap: None, ..raw },
        ),
        build_spec(raw) matches Ok(config) ==> config.youtube_video_length_minutes_hard_cap == 60,
{
}

/// The tags are the raw text of `youtube_tags` cut at its commas: there is
/// at least one tag, no tag holds a comma, and the tags joined by commas
/// are the raw text again.
pub proof fn tags_hold_the_raw_text(raw: RawFields)
    ensures
        build_spec(raw) matches Ok(config) ==> {
            &&& config.youtube_tags.len() >= 1
            &&& forall|i: int, j: int|
                0 <= i < config.youtube_tags.len() && 0 <= j < config.youtube_tags[i].len()
                    ==> config.youtube_tags[i][j] != ','
            &&& join(config.youtube_tags, ',') == or_default(raw.youtube_tags, ""@)
        },
{
    lemma_split_on(or_default(raw.youtube_tags, ""@), ',');
}

/// A settings file and an environment that give the same raw fields load
/// to the same outcome.
pub proof fn file_and_environment_agree(
    path: String,
    fields: ConfigBuilder,
    environment: Environment,
    file_support: bool,
)
    requires
        fields@ == environment_fields(environment@),
    ensures
        load_spec(ConfigSource::File(path, ConfigFile::Parsed(fields)), true) == load_spec(
            ConfigSource::Environment(environment),
            file_support,
        ),
{
}

/// Loading is repeatable: two loads from the same source end alike, with
/// settings that are equal field for field or with the same failure.
pub proof fn loading_is_repeatable(
    source: ConfigSource,
    file_support: bool,
    first: Result<Config, ConfigLoadError>,
    second: Result<Config, ConfigLoadError>,
)
    requires
        outcome(first) == load_spec(source, file_support),
        outcome(second) == load_spec(source, file_support),
    ensures
        outcome(first) == outcome(second),
        first matches Ok(one) ==> second matches Ok(other) && one@ == other@,
        first matches Err(one) ==> second matches Err(other) && one@ == other@,
{
}

} // verus!
