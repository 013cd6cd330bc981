use vstd::prelude::*;

use crate::text::{all_ascii_digits, digits_value, parse_u16, spec_parse_u16, unsigned_digits_part};

verus! {

/// The service's settings.
#[derive(Debug, Clone)]
pub struct Config {
    pub database_url: String,
    pub jwt_secret: String,
    pub server_host: String,
    pub server_port: u16,
}

/// Why settings could not be formed.
#[derive(Debug, Clone, Copy, PartialEq, Eq, Structural)]
pub enum ConfigError {
    MissingDatabaseUrl,
    MissingJwtSecret,
    InvalidServerPort,
}

impl ConfigError {
    /// The text that the service stops with.
    pub fn message(&self) -> (m: String)
        ensures
            *self == ConfigError::MissingDatabaseUrl ==> m@ == "DATABASE_URL must be set"@,
            *self == ConfigError::MissingJwtSecret ==> m@ == "JWT_SECRET must be set"@,
            *self == ConfigError::InvalidServerPort ==> m@ == "SERVER_PORT must be a number"@,
    {
        match self {
            ConfigError::MissingDatabaseUrl => "DATABASE_URL must be set".to_string(),
            ConfigError::MissingJwtSecret => "JWT_SECRET must be set".to_string(),
            ConfigError::InvalidServerPort => "SERVER_PORT must be a number".to_string(),
        }
    }
}

/// The port text that stands when none is set.
pub open spec fn default_port_text() -> Seq<char> {
    "3000"@
}

/// The port that settings hold: the one set, else 3000, as text to be read.
pub open spec fn port_text(server_port: Option<String>) -> Seq<char> {
    match server_port {
        Some(p) => p@,
        None => default_port_text(),
    }
}

proof fn lemma_default_port_reads_3000()
    ensures
        spec_parse_u16(default_port_text()) == Some(3000u16),
{
    reveal_strlit("3000");
    let s = default_port_text();
    assert(s.len() == 4);
    assert(unsigned_digits_part(s) == s);
    assert(s.drop_last().drop_last().drop_last().drop_last().len() == 0);
    reveal_with_fuel(digits_value, 5);
    assert(digits_value(s) == 3000) by {
        assert(s.drop_last() =~= seq!['3', '0', '0']);
        assert(s.drop_last().drop_last() =~= seq!['3', '0']);
        assert(s.drop_last().drop_last().drop_last() =~= seq!['3']);
    }
    assert(all_ascii_digits(s));
}

impl Config {
    /// Forms the settings from the values of `DATABASE_URL`, `JWT_SECRET`,
    /// `SERVER_HOST` and `SERVER_PORT` (each `None` where unset).  The two
    /// first must be set; the host defaults to `127.0.0.1` and the port to
    /// `3000`; the port must be a decimal `u16`.
    pub fn from_values(
        database_url: Option<String>,
        jwt_secret: Option<String>,
        server_host: Option<String>,
        server_port: Option<String>,
    ) -> (r: Result<Config, ConfigError>)
        ensures
            database_url is None ==> r == Err::<Config, ConfigError>(
                ConfigError::MissingDatabaseUrl,
            ),
            database_url is Some && jwt_secret is None ==> r == Err::<Config, ConfigError>(
                ConfigError::MissingJwtSecret,
            ),
            database_url is Some && jwt_secret is Some && spec_parse_u16(port_text(server_port))
                is None ==> r == Err::<Config, ConfigError>(ConfigError::InvalidServerPort),
            database_url is Some && jwt_secret is Some && spec_parse_u16(port_text(server_port))
                is Some ==> (r matches Ok(c) && c.database_url == database_url.unwrap()
                && c.jwt_secret == jwt_secret.unwrap() && c.server_port == spec_parse_u16(
                port_text(server_port),
            ).unwrap() && (server_host matches Some(h) ==> c.server_host == h) && (
            server_host is None ==> c.server_host@ == "127.0.0.1"@)),
            database_url is Some && jwt_secret is Some && server_port is None ==> (r matches Ok(c)
                && c.server_port == 3000),
    {
        proof {
            lemma_default_port_reads_3000();
        }
        let database_url = match database_url {
            Some(u) => u,
            None => return Err(ConfigError::MissingDatabaseUrl),
        };
        let jwt_secret = match jwt_secret {
            Some(s) => s,
            None => return Err(ConfigError::MissingJwtSecret),
        };
        let server_host = match server_host {
            Some(h) => h,
            None => "127.0.0.1".to_string(),
        };
        let parsed = match &server_port {
            Some(p) => parse_u16(p.as_str()),
            None => parse_u16("3000"),
        };
        match parsed {
            Some(server_port) => Ok(Config { database_url, jwt_secret, server_host, server_port }),
            None => Err(ConfigError::InvalidServerPort),
        }
    }
}

} // verus!
