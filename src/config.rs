use crate::apollo::{ascii_lower, trim_white_space, trimmed};
use vstd::prelude::*;

verus! {

/// The stage a deployment runs in.
#[derive(Debug, Clone, Copy, PartialEq, Eq, Structural)]
pub enum AppEnvironment {
    Development,
    Test,
    Production,
}

/// The environment that a setting names, ASCII case and surrounding white space
/// aside: "prod" and "production" name production, "test" and "ci" name test, and
/// anything else development.
pub open spec fn environment_named(t: Seq<char>) -> AppEnvironment {
    let lower = t.map_values(|c: char| ascii_lower(c));
    if lower == "prod"@ || lower == "production"@ {
        AppEnvironment::Production
    } else if lower == "test"@ || lower == "ci"@ {
        AppEnvironment::Test
    } else {
        AppEnvironment::Development
    }
}

impl AppEnvironment {
    pub fn from_str(value: &str) -> (r: Self)
        ensures
            r == environment_named(trimmed(value@)),
    {
        let trimmed = trim_white_space(value);
        if crate::apollo::matches_lowercase(trimmed, "prod") || crate::apollo::matches_lowercase(
            trimmed,
            "production",
        ) {
            AppEnvironment::Production
        } else if crate::apollo::matches_lowercase(trimmed, "test")
            || crate::apollo::matches_lowercase(trimmed, "ci") {
            AppEnvironment::Test
        } else {
            AppEnvironment::Development
        }
    }
}

/// Settings of a deployment.
#[derive(Debug, Clone)]
pub struct AppConfig {
    pub environment: AppEnvironment,
    pub server: ServerConfig,
    pub telemetry: TelemetryConfig,
}

/// Where the HTTP server binds.
#[derive(Debug, Clone)]
pub struct ServerConfig {
    pub host: String,
    pub port: u16,
}

/// Tracing controls.
#[derive(Debug, Clone)]
pub struct TelemetryConfig {
    pub log_level: String,
}

} // verus!
