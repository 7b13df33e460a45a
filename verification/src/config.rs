//! Service configuration, resolved from optional inputs with fixed defaults.

use vstd::prelude::*;

verus! {

/// Application configuration. The values come from the process environment;
/// reading the environment happens outside the library, which only resolves
/// the defaults.
pub struct AppConfig {
    /// Port to listen on.
    pub port: u16,
    /// Message bus server URL.
    pub nats_url: String,
    /// Environment name (development, staging, production).
    pub environment: String,
}

impl AppConfig {
    /// Resolve a configuration from optional raw values: a missing or
    /// unparsable value falls back to its default, never to an error.
    pub fn from_values(
        port: Option<u16>,
        nats_url: Option<String>,
        environment: Option<String>,
    ) -> (c: AppConfig)
        ensures
            port matches Some(p) ==> c.port == p,
            port is None ==> c.port == 3000,
            nats_url matches Some(u) ==> c.nats_url == u,
            nats_url is None ==> c.nats_url@ == "nats://localhost:4222"@,
            environment matches Some(e) ==> c.environment == e,
            environment is None ==> c.environment@ == "development"@,
    {
        let port = match port {
            Some(p) => p,
            None => 3000,
        };
        let nats_url = match nats_url {
            Some(u) => u,
            None => String::from_str("nats://localhost:4222"),
        };
        let environment = match environment {
            Some(e) => e,
            None => String::from_str("development"),
        };
        AppConfig { port, nats_url, environment }
    }
}

} // verus!
