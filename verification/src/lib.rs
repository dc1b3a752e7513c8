//! Settings loader for the Twitch-to-YouTube backup pipeline.
//!
//! The loader turns raw, optional strings (gathered from environment
//! variables or from a settings file) into a typed, fully populated
//! [`Config`]. Every rule of that conversion is stated as a contract and
//! proved.

pub mod builder;
pub mod config;
pub mod environment;
pub mod error;
pub mod laws;
pub mod loader;
pub mod text;

pub use crate::builder::{build, ConfigBuilder};
pub use crate::config::Config;
pub use crate::environment::Environment;
pub use crate::error::ConfigLoadError;
pub use crate::loader::{
    config_file_path, get_empty_config, load_config, try_load_config, ConfigFile, ConfigSource,
};
