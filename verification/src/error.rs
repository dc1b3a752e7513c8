//! Why loading the settings failed.

use vstd::prelude::*;

verus! {

/// Makes `std::io::Error` known to the verifier as an opaque type. Nothing
/// is assumed of what such a value holds: the loader only carries it from
/// the caller that met it into [`ConfigLoadError::IOReadPath`].
#[verifier::external_type_specification]
#[verifier::external_body]
pub struct ExIoError(std::io::Error);

/// Makes `serde_json::Error` known to the verifier as an opaque type.
/// Nothing is assumed of what such a value holds: the loader only carries
/// it from the caller that met it into [`ConfigLoadError::Parse`].
#[verifier::external_type_specification]
#[verifier::external_body]
pub struct ExJsonError(serde_json::Error);

/// The ways in which loading the settings fails.
#[derive(Debug)]
pub enum ConfigLoadError {
    /// The settings file could not be read: the cause, and the path tried.
    IOReadPath(std::io::Error, String),
    /// The settings file does not hold the JSON record of raw fields.
    Parse(serde_json::Error),
    /// A settings file was chosen as the source although file support is
    /// switched off, so only the environment could have been used.
    FailedToLoadFromEnv,
    /// `auth_file_read_timeout` was set to the given text, which is no
    /// unsigned decimal number.
    AuthFileReadTimeoutNotANumber(String),
    /// `twitch_downloader_thread_count` was set to the given text, which is
    /// no unsigned decimal number.
    TwitchDownloaderThreadCountNotANumber(String),
    /// `twitch_client_id` has no default, and was not set or was set to
    /// the empty text.
    TwitchClientIdNotSet,
    /// `twitch_client_secret` has no default, and was not set or was set
    /// to the empty text.
    TwitchClientSecretNotSet,
}

/// The mathematical content of a [`ConfigLoadError`].
pub enum LoadFailure {
    IOReadPath(std::io::Error, Seq<char>),
    Parse(serde_json::Error),
    FailedToLoadFromEnv,
    AuthFileReadTimeoutNotANumber(Seq<char>),
    TwitchDownloaderThreadCountNotANumber(Seq<char>),
    TwitchClientIdNotSet,
    TwitchClientSecretNotSet,
}

impl View for ConfigLoadError {
    type V = LoadFailure;

    open spec fn view(&self) -> LoadFailure {
        match *self {
            ConfigLoadError::IOReadPath(cause, path) => LoadFailure::IOReadPath(cause, path@),
            ConfigLoadError::Parse(cause) => LoadFailure::Parse(cause),
            ConfigLoadError::FailedToLoadFromEnv => LoadFailure::FailedToLoadFromEnv,
            ConfigLoadError::AuthFileReadTimeoutNotANumber(text) => {
                LoadFailure::AuthFileReadTimeoutNotANumber(text@)
            },
            ConfigLoadError::TwitchDownloaderThreadCountNotANumber(text) => {
                LoadFailure::TwitchDownloaderThreadCountNotANumber(text@)
            },
            ConfigLoadError::TwitchClientIdNotSet => LoadFailure::TwitchClientIdNotSet,
            ConfigLoadError::TwitchClientSecretNotSet => LoadFailure::TwitchClientSecretNotSet,
        }
    }
}

} // verus!
