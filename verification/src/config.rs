//! The settings record that the loader produces, and the values that its
//! fields take when nothing else is given.

use vstd::prelude::*;
use crate::text::views;

verus! {

/// `path_auth_code` when unset.
pub const DEFAULT_PATH_AUTH_CODE: &'static str = "/tmp/twba/auth/code.txt";

/// `path_authentications` when unset.
pub const DEFAULT_PATH_AUTHENTICATIONS: &'static str = "/tmp/twba/auth/{user}.json";

/// The raw text of `use_file_auth_response` when unset: the flag is on.
pub const DEFAULT_USE_FILE_AUTH_RESPONSE: &'static str = "1";

/// The raw text of `use_local_auth_redirect` when unset: the flag is off.
pub const DEFAULT_USE_LOCAL_AUTH_REDIRECT: &'static str = "0";

/// The raw text of `auth_file_read_timeout` when unset, in seconds.
pub const DEFAULT_AUTH_FILE_READ_TIMEOUT: &'static str = "5";

/// `twitch_downloader_id` when unset.
pub const DEFAULT_TWITCH_DOWNLOADER_ID: &'static str = "kimne78kx3ncx6brgo4mv6wki5h1ko";

/// The raw text of `twitch_downloader_thread_count` when unset.
pub const DEFAULT_TWITCH_DOWNLOADER_THREAD_COUNT: &'static str = "50";

/// `bigquery_project_id` when unset.
pub const DEFAULT_BIGQUERY_PROJECT_ID: &'static str = "twitchbackup-v1";

/// `bigquery_dataset_id` when unset.
pub const DEFAULT_BIGQUERY_DATASET_ID: &'static str = "backup_data";

/// `bigquery_service_account_path` when unset.
pub const DEFAULT_BIGQUERY_SERVICE_ACCOUNT_PATH: &'static str =
    "auth/bigquery_service_account.json";

/// `youtube_client_secret_path` when unset.
pub const DEFAULT_YOUTUBE_CLIENT_SECRET_PATH: &'static str = "auth/youtube_client_secret.json";

/// The raw text of `youtube_tags` when unset: one empty tag.
pub const DEFAULT_YOUTUBE_TAGS: &'static str = "";

/// `youtube_description_template` when unset.
pub const DEFAULT_YOUTUBE_DESCRIPTION_TEMPLATE: &'static str =
    "test description for \"$$video_title$$\"";

/// The raw text of `youtube_video_length_minutes_soft_cap` when unset.
pub const DEFAULT_YOUTUBE_VIDEO_LENGTH_MINUTES_SOFT_CAP: &'static str = "300";

/// The raw text of `youtube_video_length_minutes_hard_cap` when unset.
pub const DEFAULT_YOUTUBE_VIDEO_LENGTH_MINUTES_HARD_CAP: &'static str = "359";

/// `youtube_video_length_minutes_soft_cap` when it is set to a text that is
/// no signed decimal number.
pub const FALLBACK_YOUTUBE_VIDEO_LENGTH_MINUTES_SOFT_CAP: i64 = 30;

/// `youtube_video_length_minutes_hard_cap` when it is set to a text that is
/// no signed decimal number.
pub const FALLBACK_YOUTUBE_VIDEO_LENGTH_MINUTES_HARD_CAP: i64 = 60;

/// `download_folder_path` when unset.
pub const DEFAULT_DOWNLOAD_FOLDER_PATH: &'static str = "/var/tmp/twba/videos/";

/// The character at which the raw text of `youtube_tags` is split.
pub const TAG_SEPARATOR: char = ',';

/// The settings of the backup pipeline, fully populated and typed. A value
/// is made once by the loader and only read afterwards; one that the
/// loader made holds a client id and a client secret that are not empty.
#[derive(Clone, Debug)]
pub struct Config {
    pub path_auth_code: String,
    pub path_authentications: String,
    pub use_file_auth_response: bool,
    pub use_local_auth_redirect: bool,
    pub auth_file_read_timeout: u64,
    pub twitch_client_id: String,
    pub twitch_client_secret: String,
    pub twitch_downloader_id: String,
    pub twitch_downloader_thread_count: u64,
    pub bigquery_project_id: String,
    pub bigquery_dataset_id: String,
    pub bigquery_service_account_path: String,
    pub youtube_client_secret_path: String,
    pub youtube_tags: Vec<String>,
    pub youtube_description_template: String,
    pub youtube_video_length_minutes_soft_cap: i64,
    pub youtube_video_length_minutes_hard_cap: i64,
    pub download_folder_path: String,
}

/// The mathematical content of a [`Config`]: each text as its sequence of
/// characters, the tags as a sequence of texts.
pub struct ConfigView {
    pub path_auth_code: Seq<char>,
    pub path_authentications: Seq<char>,
    pub use_file_auth_response: bool,
    pub use_local_auth_redirect: bool,
    pub auth_file_read_timeout: u64,
    pub twitch_client_id: Seq<char>,
    pub twitch_client_secret: Seq<char>,
    pub twitch_downloader_id: Seq<char>,
    pub twitch_downloader_thread_count: u64,
    pub bigquery_project_id: Seq<char>,
    pub bigquery_dataset_id: Seq<char>,
    pub bigquery_service_account_path: Seq<char>,
    pub youtube_client_secret_path: Seq<char>,
    pub youtube_tags: Seq<Seq<char>>,
    pub youtube_description_template: Seq<char>,
    pub youtube_video_length_minutes_soft_cap: i64,
    pub youtube_video_length_minutes_hard_cap: i64,
    pub download_folder_path: Seq<char>,
}

impl ConfigView {
    /// What holds of every settings record that the loader hands out: the
    /// two credentials, for which there is no default, are not empty.
    pub open spec fn has_credentials(self) -> bool {
        self.twitch_client_id.len() > 0 && self.twitch_client_secret.len() > 0
    }
}

impl View for Config {
    type V = ConfigView;

    open spec fn view(&self) -> ConfigView {
        ConfigView {
            path_auth_code: self.path_auth_code@,
            path_authentications: self.path_authentications@,
            use_file_auth_response: self.use_file_auth_response,
            use_local_auth_redirect: self.use_local_auth_redirect,
            auth_file_read_timeout: self.auth_file_read_timeout,
            twitch_client_id: self.twitch_client_id@,
            twitch_client_secret: self.twitch_client_secret@,
            twitch_downloader_id: self.twitch_downloader_id@,
            twitch_downloader_thread_count: self.twitch_downloader_thread_count,
            bigquery_project_id: self.bigquery_project_id@,
            bigquery_dataset_id: self.bigquery_dataset_id@,
            bigquery_service_account_path: self.bigquery_service_account_path@,
            youtube_client_secret_path: self.youtube_client_secret_path@,
            youtube_tags: views(self.youtube_tags@),
            youtube_description_template: self.youtube_description_template@,
            youtube_video_length_minutes_soft_cap: self.youtube_video_length_minutes_soft_cap,
            youtube_video_length_minutes_hard_cap: self.youtube_video_length_minutes_hard_cap,
            download_folder_path: self.download_folder_path@,
        }
    }
}

} // verus!
