//! The settings that the service runs with.

use vstd::prelude::*;
use vstd::string::StringExecFns;

verus! {

/// The settings of the service.
#[derive(Clone, Debug, PartialEq, Eq)]
pub struct AppConfig {
    pub log_level: String,
    pub serve_metric_addr: String,
    pub seq_url: String,
    pub seq_api_key: String,
    pub clutch_node_wss_url: String,
    pub ws_addr: String,
    pub jwt_secret: String,
    pub jwt_expiration_hours: u64,
}

/// The environment that the settings are loaded for: the one named by flag,
/// else the one named by position, else `default`.
pub open spec fn environment_of(flag: Option<String>, positional: Option<String>) -> Seq<char> {
    match flag {
        Some(e) => e@,
        None => match positional {
            Some(e) => e@,
            None => "default"@,
        },
    }
}

/// Picks the environment that the settings are loaded for.
pub fn environment_name(flag: Option<String>, positional: Option<String>) -> (r: String)
    ensures
        r@ == environment_of(flag, positional),
{
    match flag {
        Some(e) => e,
        None => match positional {
            Some(e) => e,
            None => "default".to_owned(),
        },
    }
}

impl AppConfig {
    /// The path, without its extension's dot dropped, of the file that
    /// holds the settings of an environment.
    pub fn config_file(env: &str) -> (r: String)
        ensures
            r@ == "config/"@ + env@ + ".toml"@,
    {
        "config/".to_owned().concat(env).concat(".toml")
    }
}

} // verus!
