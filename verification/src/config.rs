//! The application's settings, read from the environment variables
//! `DATABASE_URL`, `REDIS_URL`, `NATS_URL` and `SERVER_PORT`.

use vstd::prelude::*;
use vstd::string::*;

use crate::text::{append_decimal, decimal, parsed_integer, parse_u16};

verus! {

/// Where the backing services are, and the port to listen on.
#[derive(Debug)]
pub struct AppConfig {
    pub database_url: String,
    pub redis_url: String,
    pub nats_url: String,
    pub server_port: u16,
}

/// The environment variables that configure the application.
#[derive(Clone, Copy, Debug, PartialEq, Eq, Structural)]
pub enum ConfigVar {
    DatabaseUrl,
    RedisUrl,
    NatsUrl,
    ServerPort,
}

pub open spec fn var_text(v: ConfigVar) -> Seq<char> {
    match v {
        ConfigVar::DatabaseUrl => "DATABASE_URL"@,
        ConfigVar::RedisUrl => "REDIS_URL"@,
        ConfigVar::NatsUrl => "NATS_URL"@,
        ConfigVar::ServerPort => "SERVER_PORT"@,
    }
}

impl ConfigVar {
    /// The variable's name.
    pub fn name(&self) -> (s: &'static str)
        ensures
            s@ == var_text(*self),
    {
        match self {
            ConfigVar::DatabaseUrl => "DATABASE_URL",
            ConfigVar::RedisUrl => "REDIS_URL",
            ConfigVar::NatsUrl => "NATS_URL",
            ConfigVar::ServerPort => "SERVER_PORT",
        }
    }
}

/// Why the settings could not be read.
#[derive(Clone, Copy, Debug, PartialEq, Eq, Structural)]
pub enum ConfigError {
    /// The variable is not set.
    Unset(ConfigVar),
    /// `SERVER_PORT` does not hold a port number.
    InvalidPort,
}

pub open spec fn config_error_text(e: ConfigError) -> Seq<char> {
    match e {
        ConfigError::Unset(v) => var_text(v) + " is not set"@,
        ConfigError::InvalidPort => "SERVER_PORT is not a valid port number"@,
    }
}

impl ConfigError {
    /// The message that reports the error.
    pub fn message(&self) -> (m: String)
        ensures
            m@ == config_error_text(*self),
    {
        match self {
            ConfigError::Unset(v) => {
                let mut m = String::from_str(v.name());
                m.append(" is not set");
                m
            },
            ConfigError::InvalidPort => String::from_str("SERVER_PORT is not a valid port number"),
        }
    }
}

/// The port number that a `SERVER_PORT` text denotes, if any.
pub open spec fn port_of(t: Seq<char>) -> Option<int> {
    parsed_integer(t, false, 0, u16::MAX as int)
}

impl AppConfig {
    /// The settings from the variables' values (`None` where a variable is
    /// not set), checked in the order database, Redis, NATS, port; the
    /// first that is missing or wrong is reported.
    pub fn from_values(
        database_url: Option<String>,
        redis_url: Option<String>,
        nats_url: Option<String>,
        server_port: Option<String>,
    ) -> (res: Result<AppConfig, ConfigError>)
        ensures
            database_url is None ==> res == Err::<AppConfig, ConfigError>(
                ConfigError::Unset(ConfigVar::DatabaseUrl),
            ),
            database_url is Some && redis_url is None ==> res == Err::<AppConfig, ConfigError>(
                ConfigError::Unset(ConfigVar::RedisUrl),
            ),
            database_url is Some && redis_url is Some && nats_url is None ==> res == Err::<
                AppConfig,
                ConfigError,
            >(ConfigError::Unset(ConfigVar::NatsUrl)),
            database_url is Some && redis_url is Some && nats_url is Some && server_port is None
                ==> res == Err::<AppConfig, ConfigError>(ConfigError::Unset(ConfigVar::ServerPort)),
            database_url is Some && redis_url is Some && nats_url is Some && (server_port matches Some(
                p,
            ) && port_of(p@) is None) ==> res == Err::<AppConfig, ConfigError>(
                ConfigError::InvalidPort,
            ),
            res matches Ok(c) ==> database_url == Some(c.database_url) && redis_url == Some(
                c.redis_url,
            ) && nats_url == Some(c.nats_url) && (server_port matches Some(p) && port_of(p@)
                == Some(c.server_port as int)),
            database_url is Some && redis_url is Some && nats_url is Some && (server_port matches Some(
                p,
            ) && port_of(p@) is Some) ==> res is Ok,
    {
        let database_url = match database_url {
            Some(v) => v,
            None => return Err(ConfigError::Unset(ConfigVar::DatabaseUrl)),
        };
        let redis_url = match redis_url {
            Some(v) => v,
            None => return Err(ConfigError::Unset(ConfigVar::RedisUrl)),
        };
        let nats_url = match nats_url {
            Some(v) => v,
            None => return Err(ConfigError::Unset(ConfigVar::NatsUrl)),
        };
        let port_text = match server_port {
            Some(v) => v,
            None => return Err(ConfigError::Unset(ConfigVar::ServerPort)),
        };
        let server_port = match parse_u16(port_text.as_str()) {
            Some(p) => p,
            None => return Err(ConfigError::InvalidPort),
        };
        Ok(AppConfig { database_url, redis_url, nats_url, server_port })
    }

    /// The address the server listens on: every interface, at the
    /// configured port.
    pub fn listen_address(&self) -> (s: String)
        ensures
            s@ == "0.0.0.0:"@ + decimal(self.server_port as int),
    {
        let mut s = String::from_str("0.0.0.0:");
        append_decimal(&mut s, self.server_port as i64);
        s
    }
}

} // verus!
