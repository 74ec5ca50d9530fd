//! The stored API key: what a configuration file's text yields.
use vstd::prelude::*;
use vstd::string::*;

use crate::text::{trim, trimmed};

verus! {

#[verifier::external_type_specification]
#[verifier::external_body]
pub struct ExIoError(std::io::Error);

#[verifier::external_type_specification]
#[verifier::external_body]
pub struct ExJsonError(serde_json::Error);

/// The stored configuration.
#[derive(Debug)]
pub struct Config {
    pub api_key: String,
}

/// Why the API key could not be had.
#[derive(Debug)]
pub enum ConfigError {
    ConfigNotFound,
    ApiKeyNotFound,
    InvalidConfig,
    IoError(std::io::Error),
    JsonError(serde_json::Error),
    Custom(String),
}

/// Relies on `std::io::Error`'s `Display`, whose text this library does not
/// inspect.
#[verifier::external_body]
fn io_error_text(e: &std::io::Error) -> (r: String) {
    e.to_string()
}

/// Relies on `serde_json::Error`'s `Display`, whose text this library does
/// not inspect.
#[verifier::external_body]
fn json_error_text(e: &serde_json::Error) -> (r: String) {
    e.to_string()
}

impl ConfigError {
    /// The message shown for the error.
    pub fn message(&self) -> (r: String)
        ensures
            *self matches ConfigError::ConfigNotFound ==> r@
                == "Config file not found. Use 'configure' to set up your API key."@,
            *self matches ConfigError::ApiKeyNotFound ==> r@
                == "API key not found in config. Use 'configure' to set up your API key."@,
            *self matches ConfigError::InvalidConfig ==> r@
                == "Config file is empty or invalid. Use 'configure' to set up your API key."@,
            *self matches ConfigError::IoError(_) ==> exists|t: Seq<char>| r@ == "IO error: "@ + t,
            *self matches ConfigError::JsonError(_) ==> exists|t: Seq<char>| r@ == "JSON error: "@ + t,
            *self matches ConfigError::Custom(m) ==> r@ == "Error: "@ + m@,
    {
        match self {
            ConfigError::ConfigNotFound => String::from_str(
                "Config file not found. Use 'configure' to set up your API key.",
            ),
            ConfigError::ApiKeyNotFound => String::from_str(
                "API key not found in config. Use 'configure' to set up your API key.",
            ),
            ConfigError::InvalidConfig => String::from_str(
                "Config file is empty or invalid. Use 'configure' to set up your API key.",
            ),
            ConfigError::IoError(e) => {
                let mut r = String::from_str("IO error: ");
                let detail = io_error_text(e);
                r.append(detail.as_str());
                r
            },
            ConfigError::JsonError(e) => {
                let mut r = String::from_str("JSON error: ");
                let detail = json_error_text(e);
                r.append(detail.as_str());
                r
            },
            ConfigError::Custom(m) => {
                let mut r = String::from_str("Error: ");
                r.append(m.as_str());
                r
            },
        }
    }
}

impl From<std::io::Error> for ConfigError {
    fn from(error: std::io::Error) -> ConfigError {
        ConfigError::IoError(error)
    }
}

impl vstd::std_specs::convert::FromSpecImpl<std::io::Error> for ConfigError {
    open spec fn obeys_from_spec() -> bool {
        true
    }

    open spec fn from_spec(error: std::io::Error) -> ConfigError {
        ConfigError::IoError(error)
    }
}

impl From<serde_json::Error> for ConfigError {
    fn from(error: serde_json::Error) -> ConfigError {
        ConfigError::JsonError(error)
    }
}

impl vstd::std_specs::convert::FromSpecImpl<serde_json::Error> for ConfigError {
    open spec fn obeys_from_spec() -> bool {
        true
    }

    open spec fn from_spec(error: serde_json::Error) -> ConfigError {
        ConfigError::JsonError(error)
    }
}

/// Text that holds nothing but whitespace.
pub open spec fn is_blank(s: Seq<char>) -> bool {
    trimmed(s).len() == 0
}

fn blank(s: &str) -> (r: bool)
    ensures
        r == is_blank(s@),
{
    trim(s).is_empty()
}

/// Checks the text of the configuration file before it is decoded: `None`
/// stands for a missing file, and blank text is invalid.
pub fn check_config_text(contents: Option<&str>) -> (r: Result<(), ConfigError>)
    ensures
        contents is None ==> r matches Err(ConfigError::ConfigNotFound),
        contents is Some && is_blank(contents->0@) ==> r matches Err(ConfigError::InvalidConfig),
        contents is Some && !is_blank(contents->0@) ==> r is Ok,
{
    match contents {
        None => Err(ConfigError::ConfigNotFound),
        Some(text) => if blank(text) {
            Err(ConfigError::InvalidConfig)
        } else {
            Ok(())
        },
    }
}

/// The API key of a loaded configuration; a blank key counts as missing,
/// and an error in loading is passed on.
pub fn get_api_key(loaded: Result<Config, ConfigError>) -> (r: Result<String, ConfigError>)
    ensures
        loaded is Err ==> r == Err::<String, ConfigError>(loaded->Err_0),
        loaded is Ok && is_blank(loaded->Ok_0.api_key@) ==> r matches Err(
            ConfigError::ApiKeyNotFound,
        ),
        loaded is Ok && !is_blank(loaded->Ok_0.api_key@) ==> r == Ok::<String, ConfigError>(
            loaded->Ok_0.api_key,
        ),
{
    match loaded {
        Err(e) => Err(e),
        Ok(config) => if blank(config.api_key.as_str()) {
            Err(ConfigError::ApiKeyNotFound)
        } else {
            Ok(config.api_key)
        },
    }
}

} // verus!
