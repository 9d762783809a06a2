//! Service configuration, assembled from the raw values the environment
//! provided. Reading the environment is the platform's; the defaulting
//! and the demand that the essentials be present are decided here.

use vstd::prelude::*;

verus! {

/// What a service needs at startup.
pub struct Config {
    pub service_name: String,
    pub http_port: u16,
    pub database_url: String,
    pub jwt_secret: String,
    pub rust_log: String,
}

/// The port a service listens on when none is configured.
pub const DEFAULT_HTTP_PORT: u16 = 8080;

/// Assembles a configuration: the name, the port and the log filter fall
/// back to defaults, while the database address and the token secret are
/// required — without either there is no configuration.
pub fn build_config(
    service_name: Option<String>,
    http_port: Option<u16>,
    database_url: Option<String>,
    jwt_secret: Option<String>,
    rust_log: Option<String>,
) -> (r: Option<Config>)
    ensures
        (r is Some) == (database_url is Some && jwt_secret is Some),
        r matches Some(c) ==> {
            &&& service_name matches Some(n) ==> c.service_name == n
            &&& service_name is None ==> c.service_name@ == "local"@
            &&& http_port matches Some(p) ==> c.http_port == p
            &&& http_port is None ==> c.http_port == DEFAULT_HTTP_PORT
            &&& database_url matches Some(d) ==> c.database_url == d
            &&& jwt_secret matches Some(s) ==> c.jwt_secret == s
            &&& rust_log matches Some(l) ==> c.rust_log == l
            &&& rust_log is None ==> c.rust_log@ == "info"@
        },
{
    match (database_url, jwt_secret) {
        (Some(database_url), Some(jwt_secret)) => {
            let service_name = match service_name {
                Some(n) => n,
                None => String::from_str("local"),
            };
            let http_port = match http_port {
                Some(p) => p,
                None => DEFAULT_HTTP_PORT,
            };
            let rust_log = match rust_log {
                Some(l) => l,
                None => String::from_str("info"),
            };
            Some(Config { service_name, http_port, database_url, jwt_secret, rust_log })
        },
        _ => None,
    }
}

} // verus!
