//! The environment as a source of raw fields: a snapshot of named texts,
//! and the fixed names under which the loader looks its fields up.

use vstd::prelude::*;
use crate::builder::{text_of, ConfigBuilder, RawFields};

verus! {

/// Names the settings file to load from instead of the environment.
pub const CONFIG_FILE_PATH: &'static str = "CONFIG_FILE_PATH";

pub const TWITCH_CLIENT_ID: &'static str = "TWITCH_CLIENT_ID";

pub const TWITCH_CLIENT_SECRET: &'static str = "TWITCH_CLIENT_SECRET";

pub const TWITCH_DOWNLOADER_ID: &'static str = "TWITCH_DOWNLOADER_ID";

pub const TWITCH_DOWNLOADER_THREAD_COUNT: &'static str = "TWITCH_DOWNLOADER_THREAD_COUNT";

pub const PATH_AUTH_CODE: &'static str = "PATH_AUTH_CODE";

pub const PATH_AUTHENTICATIONS: &'static str = "PATH_AUTHENTICATIONS";

pub const USE_FILE_AUTH_RESPONSE: &'static str = "USE_FILE_AUTH_RESPONSE";

pub const USE_LOCAL_AUTH_REDIRECT: &'static str = "USE_LOCAL_AUTH_REDIRECT";

pub const AUTH_FILE_READ_TIMEOUT: &'static str = "AUTH_FILE_READ_TIMEOUT";

pub const BIGQUERY_PROJECT_ID: &'static str = "BIGQUERY_PROJECT_ID";

pub const BIGQUERY_DATASET_ID: &'static str = "BIGQUERY_DATASET_ID";

pub const BIGQUERY_SERVICE_ACCOUNT_PATH: &'static str = "BIGQUERY_SERVICE_ACCOUNT_PATH";

pub const YOUTUBE_CLIENT_SECRET_PATH: &'static str = "YOUTUBE_CLIENT_SECRET_PATH";

pub const YOUTUBE_TAGS: &'static str = "YOUTUBE_TAGS";

pub const YOUTUBE_DESCRIPTION_TEMPLATE: &'static str = "YOUTUBE_DESCRIPTION_TEMPLATE";

pub const YOUTUBE_VIDEO_LENGTH_MINUTES_SOFT_CAP: &'static str =
    "YOUTUBE_VIDEO_LENGTH_MINUTES_SOFT_CAP";

pub const YOUTUBE_VIDEO_LENGTH_MINUTES_HARD_CAP: &'static str =
    "YOUTUBE_VIDEO_LENGTH_MINUTES_HARD_CAP";

pub const DOWNLOAD_FOLDER_PATH: &'static str = "DOWNLOAD_FOLDER_PATH";

/// A snapshot of environment variables, each a name with its value. Names
/// are compared character by character, so they are case-sensitive. Where
/// a name occurs more than once, its first occurrence counts.
#[derive(Clone, Debug)]
pub struct Environment {
    pub variables: Vec<(String, String)>,
}

impl View for Environment {
    type V = Seq<(Seq<char>, Seq<char>)>;

    open spec fn view(&self) -> Seq<(Seq<char>, Seq<char>)> {
        self.variables@.map_values(|variable: (String, String)| (variable.0@, variable.1@))
    }
}

/// The value of the first variable called `name`, or `None` when there is
/// no such variable.
pub open spec fn lookup(variables: Seq<(Seq<char>, Seq<char>)>, name: Seq<char>) -> Option<
    Seq<char>,
>
    decreases variables.len(),
{
    if variables.len() == 0 {
        None
    } else if variables[0].0 == name {
        Some(variables[0].1)
    } else {
        lookup(variables.drop_first(), name)
    }
}

/// The raw fields that an environment gives: each field is the value of
/// the variable that bears its name in upper case, where that is set.
pub open spec fn environment_fields(variables: Seq<(Seq<char>, Seq<char>)>) -> RawFields {
    RawFields {
        path_auth_code: lookup(variables, PATH_AUTH_CODE@),
        path_authentications: lookup(variables, PATH_AUTHENTICATIONS@),
        use_file_auth_response: lookup(variables, USE_FILE_AUTH_RESPONSE@),
        use_local_auth_redirect: lookup(variables, USE_LOCAL_AUTH_REDIRECT@),
        auth_file_read_timeout: lookup(variables, AUTH_FILE_READ_TIMEOUT@),
        twitch_client_id: lookup(variables, TWITCH_CLIENT_ID@),
        twitch_client_secret: lookup(variables, TWITCH_CLIENT_SECRET@),
        twitch_downloader_id: lookup(variables, TWITCH_DOWNLOADER_ID@),
        twitch_downloader_thread_count: lookup(variables, TWITCH_DOWNLOADER_THREAD_COUNT@),
        bigquery_project_id: lookup(variables, BIGQUERY_PROJECT_ID@),
        bigquery_dataset_id: lookup(variables, BIGQUERY_DATASET_ID@),
        bigquery_service_account_path: lookup(variables, BIGQUERY_SERVICE_ACCOUNT_PATH@),
        youtube_client_secret_path: lookup(variables, YOUTUBE_CLIENT_SECRET_PATH@),
        youtube_tags: lookup(variables, YOUTUBE_TAGS@),
        youtube_description_template: lookup(variables, YOUTUBE_DESCRIPTION_TEMPLATE@),
        youtube_video_length_minutes_soft_cap: lookup(
            variables,
            YOUTUBE_VIDEO_LENGTH_MINUTES_SOFT_CAP@,
        ),
        youtube_video_length_minutes_hard_cap: lookup(
            variables,
            YOUTUBE_VIDEO_LENGTH_MINUTES_HARD_CAP@,
        ),
        download_folder_path: lookup(variables, DOWNLOAD_FOLDER_PATH@),
    }
}

impl Environment {
    /// The value of the variable called `name`, if it is set.
    pub fn var(&self, name: &str) -> (value: Option<String>)
        ensures
            text_of(value) == lookup(self@, name@),
    {
        let wanted: String = name.to_owned();
        let mut i: usize = 0;
        proof {
            assert(self@.skip(0) =~= self@);
        }
        while i < self.variables.len()
            invariant
                0 <= i <= self.variables.len(),
                wanted@ == name@,
                lookup(self@, name@) == lookup(self@.skip(i as int), name@),
            decreases self.variables.len() - i,
        {
            proof {
                assert(self@.skip(i as int).drop_first() =~= self@.skip(i as int + 1));
            }
            if self.variables[i].0 == wanted {
                return Some(self.variables[i].1.clone());
            }
            i = i + 1;
        }
        None
    }

    /// Gathers the raw fields from the variables that bear their names.
    pub fn fields(&self) -> (builder: ConfigBuilder)
        ensures
            builder@ == environment_fields(self@),
    {
        ConfigBuilder {
            twitch_client_id: self.var(TWITCH_CLIENT_ID),
            twitch_client_secret: self.var(TWITCH_CLIENT_SECRET),
            twitch_downloader_id: self.var(TWITCH_DOWNLOADER_ID),
            twitch_downloader_thread_count: self.var(TWITCH_DOWNLOADER_THREAD_COUNT),
            path_auth_code: self.var(PATH_AUTH_CODE),
            path_authentications: self.var(PATH_AUTHENTICATIONS),
            use_file_auth_response: self.var(USE_FILE_AUTH_RESPONSE),
            use_local_auth_redirect: self.var(USE_LOCAL_AUTH_REDIRECT),
            auth_file_read_timeout: self.var(AUTH_FILE_READ_TIMEOUT),
            bigquery_project_id: self.var(BIGQUERY_PROJECT_ID),
            bigquery_dataset_id: self.var(BIGQUERY_DATASET_ID),
            bigquery_service_account_path: self.var(BIGQUERY_SERVICE_ACCOUNT_PATH),
            youtube_client_secret_path: self.var(YOUTUBE_CLIENT_SECRET_PATH),
            youtube_tags: self.var(YOUTUBE_TAGS),
            youtube_description_template: self.var(YOUTUBE_DESCRIPTION_TEMPLATE),
            youtube_video_length_minutes_soft_cap: self.var(YOUTUBE_VIDEO_LENGTH_MINUTES_SOFT_CAP),
            youtube_video_length_minutes_hard_cap: self.var(YOUTUBE_VIDEO_LENGTH_MINUTES_HARD_CAP),
            download_folder_path: self.var(DOWNLOAD_FOLDER_PATH),
        }
    }
}

} // verus!
