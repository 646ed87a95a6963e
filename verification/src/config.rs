//! The server's configuration and its defaults.

use vstd::prelude::*;

use crate::num::{parse_usize, usize_text};

verus! {

/// The server's configuration.
#[derive(Debug)]
pub struct AppConfig {
    /// The configuration file the settings were read from, if any.
    pub config: Option<String>,
    pub database_url: String,
    /// The most connections the database pool opens.
    pub max_size: u32,
    /// The connections the database pool keeps open.
    pub min_idle: u32,
    pub run_migrations: bool,
    /// The log filter.
    pub rust_log: String,
    pub port: u16,
    pub cors_origin: String,
    /// The size of the policy matcher's cache.
    pub cache_size: usize,
    /// The host name the service announces.
    pub endpoint: String,
    /// The lifetime of issued tokens, in seconds.
    pub expiration: i64,
    /// The longest lifetime of a refresh token, in seconds.
    pub absolute_lifetime: i64,
    /// How long a refresh token stays good unused, in seconds.
    pub valid_if_not_used_for: i64,
    /// How long after its use a refresh token may be presented again, in
    /// seconds.
    pub reuse_interval: i64,
    pub rotate_refresh_tokens: bool,
}

pub fn default_rust_log() -> (r: String)
    ensures
        r@ == "server=info"@,
{
    String::from_str("server=info")
}

pub fn default_endpoint() -> (r: String)
    ensures
        r@ == "0.0.0.0"@,
{
    String::from_str("0.0.0.0")
}

pub fn default_port() -> (r: u16)
    ensures
        r == 30050,
{
    30050
}

pub fn default_max_size() -> (r: u32)
    ensures
        r == 50,
{
    50
}

pub fn default_min_idle() -> (r: u32)
    ensures
        r == 30,
{
    30
}

pub fn default_cache_size() -> (r: usize)
    ensures
        r == 512,
{
    512
}

pub fn default_expiration() -> (r: i64)
    ensures
        r == 3600,
{
    3600
}

pub fn default_time() -> (r: i64)
    ensures
        r == 10,
{
    10
}

pub fn default_rotate() -> (r: bool)
    ensures
        r,
{
    true
}

/// The lowest port a server may listen on.
pub const PORT_MIN: usize = 1;

/// The highest port a server may listen on.
pub const PORT_MAX: usize = 65535;

/// Reads a port number: a decimal number between 1 and 65535.
pub fn port_in_range(s: &str) -> (r: Result<u16, String>)
    ensures
        match usize_text(s@) {
            None => r is Err && r->Err_0@ == "`"@ + s@ + "` isn't a port number"@,
            Some(n) => if 1 <= n <= 65535 {
                r is Ok && r->Ok_0 == n
            } else {
                r is Err && r->Err_0@ == "port not in range 1-65535"@
            },
        },
{
    let port = match parse_usize(s) {
        Some(p) => p,
        None => {
            let mut msg = String::from_str("`");
            msg.append(s);
            msg.append("` isn't a port number");
            return Err(msg);
        },
    };
    if PORT_MIN <= port && port <= PORT_MAX {
        Ok(port as u16)
    } else {
        Err(String::from_str("port not in range 1-65535"))
    }
}

} // verus!
