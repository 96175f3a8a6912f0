//! The configuration of the server, and how the environment overrides it.
//!
//! Reading the files and the environment is the caller's business. What is
//! decided here: the defaults, which setting each environment variable
//! replaces, and what counts as a port number.
pub mod logging;
pub mod security;
pub mod server;

use crate::config::logging::LoggingConfig;
use crate::config::security::{ApiConfig, SecurityConfig};
use crate::config::server::{ServerConfig, ServerSettings};
use vstd::prelude::*;

verus! {

/// The whole configuration.
#[derive(Debug, Clone, PartialEq, Eq)]
pub struct AppConfig {
    pub server: ServerConfig,
    pub security: SecurityConfig,
    pub logging: LoggingConfig,
}

/// What the environment sets, each variable as it was found.
#[derive(Debug, Clone, PartialEq, Eq)]
pub struct EnvOverrides {
    /// `HOST`: the address to listen on.
    pub host: Option<String>,
    /// `PORT`: the port to listen on, in decimal.
    pub port: Option<String>,
    /// `RUST_LOG`: the log level.
    pub log_level: Option<String>,
    /// `API_KEY`: the key of the membership query.
    pub api_key: Option<String>,
}

/// Why the configuration cannot be used.
#[derive(Debug, Clone, Copy, PartialEq, Eq, Structural)]
pub enum ConfigError {
    /// `PORT` is not a number from 0 to 65535.
    InvalidPort,
}

impl ConfigError {
    /// The error in words.
    pub fn message(&self) -> (text: String)
        ensures
            text@ == "Invalid PORT value"@,
    {
        match self {
            ConfigError::InvalidPort => "Invalid PORT value".to_owned(),
        }
    }
}

/// A decimal digit.
pub open spec fn is_digit(c: char) -> bool {
    '0' <= c <= '9'
}

/// The number that a string of decimal digits stands for.
pub open spec fn decimal_value(digits: Seq<char>) -> int
    decreases digits.len(),
{
    if digits.len() == 0 {
        0
    } else {
        decimal_value(digits.drop_last()) * 10 + (digits.last() as int - '0' as int)
    }
}

/// Every character is a decimal digit.
pub open spec fn all_digits(digits: Seq<char>) -> bool {
    forall|i: int| 0 <= i < digits.len() ==> is_digit(#[trigger] digits[i])
}

/// The text without the `+` that may stand in front.
pub open spec fn unsigned_part(text: Seq<char>) -> Seq<char> {
    if text.len() > 0 && text[0] == '+' {
        text.skip(1)
    } else {
        text
    }
}

/// A port number in decimal: one or more digits, after an optional `+`,
/// that stand for a number of at most 65535. Nothing else may be there, not
/// even blanks.
pub open spec fn spec_parse_port(text: Seq<char>) -> Option<u16> {
    let digits = unsigned_part(text);
    if digits.len() > 0 && all_digits(digits) && decimal_value(digits) <= 65535 {
        Some(decimal_value(digits) as u16)
    } else {
        None
    }
}

/// A string of digits stands for at least as much as each of its beginnings.
proof fn lemma_decimal_grows(digits: Seq<char>, k: int)
    requires
        0 <= k <= digits.len(),
        all_digits(digits),
    ensures
        0 <= decimal_value(digits.take(k)) <= decimal_value(digits),
    decreases digits.len(),
{
    if digits.len() > 0 {
        if k == digits.len() {
            assert(digits.take(k) == digits);
            lemma_decimal_grows(digits.drop_last(), k - 1);
        } else {
            assert(digits.drop_last().take(k) == digits.take(k));
            lemma_decimal_grows(digits.drop_last(), k);
        }
    }
}

/// Reads a port number.
pub fn parse_port(text: &str) -> (port: Option<u16>)
    ensures
        port == spec_parse_port(text@),
{
    let n: usize = text.unicode_len();
    let start: usize = if n > 0 && text.get_char(0) == '+' {
        1
    } else {
        0
    };
    let ghost digits = unsigned_part(text@);
    if start == n {
        return None;
    }
    let mut value: u32 = 0;
    let mut i: usize = start;
    while i < n
        invariant
            start <= i <= n,
            n == text@.len(),
            digits == unsigned_part(text@),
            digits == text@.skip(start as int),
            all_digits(digits.take(i - start)),
            value == decimal_value(digits.take(i - start)),
            value <= 65535,
        decreases n - i,
    {
        let c = text.get_char(i);
        if c < '0' || c > '9' {
            assert(!is_digit(digits[i - start]));
            return None;
        }
        let d: u32 = (c as u32) - ('0' as u32);
        value = value * 10 + d;
        proof {
            let grown = digits.take(i - start + 1);
            assert(grown.drop_last() == digits.take(i - start));
            assert(all_digits(grown));
        }
        if value > 65535 {
            proof {
                if all_digits(digits) {
                    lemma_decimal_grows(digits, i - start + 1);
                }
            }
            return None;
        }
        i += 1;
    }
    assert(digits.take(n - start) == digits);
    Some(value as u16)
}

/// `config` with the settings that `env` names put in place of its own, and
/// with `port` as its port.
pub open spec fn overridden(config: AppConfig, env: EnvOverrides, port: u16) -> AppConfig {
    AppConfig {
        server: ServerConfig {
            server: ServerSettings {
                host: match env.host {
                    Some(host) => host,
                    None => config.server.server.host,
                },
                port,
                workers: config.server.server.workers,
            },
            ..config.server
        },
        security: SecurityConfig {
            api: ApiConfig {
                key: match env.api_key {
                    Some(key) => key,
                    None => config.security.api.key,
                },
                ..config.security.api
            },
            ..config.security
        },
        logging: LoggingConfig {
            level: match env.log_level {
                Some(level) => level,
                None => config.logging.level,
            },
            ..config.logging
        },
    }
}

/// The configuration that results from `config` under the environment
/// `env`: each variable that is set replaces its setting. A `PORT` that is
/// no port number makes the whole configuration unusable.
pub open spec fn spec_apply_env(config: AppConfig, env: EnvOverrides) -> Result<
    AppConfig,
    ConfigError,
> {
    match env.port {
        None => Ok(overridden(config, env, config.server.server.port)),
        Some(text) => match spec_parse_port(text@) {
            Some(port) => Ok(overridden(config, env, port)),
            None => Err(ConfigError::InvalidPort),
        },
    }
}

impl AppConfig {
    /// Every part has its default; the number of workers is left open.
    pub open spec fn is_default(&self) -> bool {
        &&& self.server.is_default()
        &&& self.security.is_default()
        &&& self.logging.is_default()
    }

    /// Applies the overrides of the environment.
    pub fn apply_env_overrides(self, env: EnvOverrides) -> (r: Result<AppConfig, ConfigError>)
        ensures
            r == spec_apply_env(self, env),
    {
        let mut config = self;
        match env.port {
            Some(text) => {
                match parse_port(text.as_str()) {
                    Some(port) => {
                        config.server.server.port = port;
                    },
                    None => {
                        return Err(ConfigError::InvalidPort);
                    },
                }
            },
            None => {},
        }
        match env.host {
            Some(host) => {
                config.server.server.host = host;
            },
            None => {},
        }
        match env.log_level {
            Some(level) => {
                config.logging.level = level;
            },
            None => {},
        }
        match env.api_key {
            Some(key) => {
                config.security.api.key = key;
            },
            None => {},
        }
        Ok(config)
    }
}

impl Default for AppConfig {
    fn default() -> (r: AppConfig)
        ensures
            r.is_default(),
            r.server.server.workers >= 1,
    {
        AppConfig {
            server: ServerConfig::default(),
            security: SecurityConfig::default(),
            logging: LoggingConfig::default(),
        }
    }
}

} // verus!
