//! Loading the settings: which source is used, and what each source gives.

use vstd::prelude::*;
use crate::builder::{build, build_spec, default_numbers, outcome, text_of, ConfigBuilder};
use crate::config::{Config, ConfigView};
use crate::environment::{environment_fields, lookup, Environment, CONFIG_FILE_PATH};
use crate::error::{ConfigLoadError, LoadFailure};

verus! {

/// What became of the settings file once its path was known.
#[derive(Debug)]
pub enum ConfigFile {
    /// The file could not be read, for the given cause.
    Unreadable(std::io::Error),
    /// The file was read, but does not hold the JSON record of raw fields.
    Malformed(serde_json::Error),
    /// The raw fields that the file holds.
    Parsed(ConfigBuilder),
}

/// Where the raw fields come from.
#[derive(Debug)]
pub enum ConfigSource {
    /// The environment variables that bear the fields' names.
    Environment(Environment),
    /// The settings file at the given path, with what reading it gave.
    File(String, ConfigFile),
}

/// The path of the settings file to load from, or `None` where the
/// environment itself is the source: a file is used exactly when file
/// support is switched on and `CONFIG_FILE_PATH` is set.
pub open spec fn config_file_path_spec(
    variables: Seq<(Seq<char>, Seq<char>)>,
    file_support: bool,
) -> Option<Seq<char>> {
    if file_support {
        lookup(variables, CONFIG_FILE_PATH@)
    } else {
        None
    }
}

/// What loading from `source` gives. The environment gives what its
/// fields build. A file gives `FailedToLoadFromEnv` without file support;
/// else the failure to read or to parse it, or what its fields build.
pub open spec fn load_spec(source: ConfigSource, file_support: bool) -> Result<
    ConfigView,
    LoadFailure,
> {
    match source {
        ConfigSource::Environment(environment) => build_spec(environment_fields(environment@)),
        ConfigSource::File(path, file) => {
            if !file_support {
                Err(LoadFailure::FailedToLoadFromEnv)
            } else {
                match file {
                    ConfigFile::Unreadable(cause) => Err(LoadFailure::IOReadPath(cause, path@)),
                    ConfigFile::Malformed(cause) => Err(LoadFailure::Parse(cause)),
                    ConfigFile::Parsed(fields) => build_spec(fields@),
                }
            }
        },
    }
}

/// Selects the source: the path of the settings file to read, or `None`
/// to take the fields from `environment` itself.
pub fn config_file_path(environment: &Environment, file_support: bool) -> (path: Option<String>)
    ensures
        text_of(path) == config_file_path_spec(environment@, file_support),
{
    if file_support {
        environment.var(CONFIG_FILE_PATH)
    } else {
        None
    }
}

/// Loads the settings from `source`, or says why they cannot be had.
pub fn try_load_config(source: ConfigSource, file_support: bool) -> (result: Result<
    Config,
    ConfigLoadError,
>)
    ensures
        outcome(result) == load_spec(source, file_support),
        result matches Ok(config) ==> config@.has_credentials(),
{
    let config_builder: ConfigBuilder = match source {
        ConfigSource::Environment(environment) => environment.fields(),
        ConfigSource::File(path, file) => {
            if !file_support {
                return Err(ConfigLoadError::FailedToLoadFromEnv);
            }
            match file {
                ConfigFile::Unreadable(cause) => {
                    return Err(ConfigLoadError::IOReadPath(cause, path));
                },
                ConfigFile::Malformed(cause) => {
                    return Err(ConfigLoadError::Parse(cause));
                },
                ConfigFile::Parsed(fields) => fields,
            }
        },
    };
    build(config_builder)
}

/// Loads the settings from a source that is known to give them.
pub fn load_config(source: ConfigSource, file_support: bool) -> (config: Config)
    requires
        load_spec(source, file_support) is Ok,
    ensures
        Ok::<ConfigView, LoadFailure>(config@) == load_spec(source, file_support),
        config@.has_credentials(),
{
    match try_load_config(source, file_support) {
        Ok(config) => config,
        Err(_) => {
            proof {
                assert(false);
            }
            unreached()
        },
    }
}

/// Builds from a source in which nothing is set. The client id is then
/// missing, so this always fails with `TwitchClientIdNotSet`.
pub fn get_empty_config() -> (result: Result<Config, ConfigLoadError>)
    ensures
        outcome(result) == Err::<ConfigView, LoadFailure>(LoadFailure::TwitchClientIdNotSet),
{
    let config_builder = ConfigBuilder::default();
    proof {
        default_numbers();
    }
    build(config_builder)
}

} // verus!
