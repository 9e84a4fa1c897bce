//! The service's settings and their defaults.

use vstd::prelude::*;

verus! {

/// Whether a character is one of the ten decimal digits.
pub open spec fn is_digit(c: char) -> bool {
    48 <= c as int <= 57
}

/// The number that a text of decimal digits denotes; leading zeros count for nothing.
pub open spec fn decimal_value(digits: Seq<char>) -> nat
    decreases digits.len(),
{
    if digits.len() == 0 {
        0
    } else {
        decimal_value(digits.drop_last()) * 10 + (digits.last() as int - 48) as nat
    }
}

/// A text without the one plus sign that may stand at its start.
pub open spec fn without_sign(s: Seq<char>) -> Seq<char> {
    if s.len() > 0 && s[0] == '+' {
        s.skip(1)
    } else {
        s
    }
}

/// The port that a text denotes: at least one decimal digit and nothing
/// else, but for a plus sign that may come first, with a value of at most
/// 65535. Any other text denotes none.
pub open spec fn parsed_port(s: Seq<char>) -> Option<u16> {
    let digits = without_sign(s);
    if digits.len() > 0 && (forall|i: int| 0 <= i < digits.len() ==> is_digit(#[trigger] digits[i]))
        && decimal_value(digits) <= 65535 {
        Some(decimal_value(digits) as u16)
    } else {
        None
    }
}

/// Calls `str::parse::<u16>`.
///
/// Trusted: the parser reads an optional plus sign and then decimal digits
/// only, at least one; it refuses every other character, white space
/// included, and every value above 65535.
#[verifier::external_body]
fn parse_port(s: &str) -> (r: Option<u16>)
    ensures
        r == parsed_port(s@),
{
    s.parse::<u16>().ok()
}

/// The settings of the service.
#[derive(Debug, Clone, PartialEq, Eq)]
pub struct Config {
    /// Where the store is reached.
    pub database_url: String,
    pub database_name: String,
    pub collection_name: String,
    /// The address the server binds to.
    pub host: String,
    pub port: u16,
    /// One of debug, info, warn, error.
    pub log_level: String,
}

/// Why no settings could be made.
#[derive(Debug, Clone, Copy, PartialEq, Eq, Structural)]
pub enum ConfigError {
    /// No store address was given, and there is no default for it.
    MissingDatabaseUrl,
}

/// A given text, or the default where none was given.
pub open spec fn text_or(value: Option<String>, default: Seq<char>) -> Seq<char> {
    match value {
        Some(v) => v@,
        None => default,
    }
}

/// The port for a parse outcome: the number read, or 8080 where none was read.
pub open spec fn port_or_default(parsed: Option<u16>) -> u16 {
    match parsed {
        Some(p) => p,
        None => 8080u16,
    }
}

/// The port for an optional text: the number it holds, or 8080 where there is
/// no text or it holds no port number.
pub open spec fn port_of(value: Option<String>) -> u16 {
    match value {
        Some(v) => port_or_default(parsed_port(v@)),
        None => 8080u16,
    }
}

fn or_default(value: Option<String>, default: &str) -> (r: String)
    ensures
        r@ == text_or(value, default@),
{
    match value {
        Some(v) => v,
        None => default.to_owned(),
    }
}

impl Config {
    /// Settings from values that are already read: each one that is absent
    /// takes its default, but the store address, which must be given.
    pub fn from_parts(
        database_url: Option<String>,
        database_name: Option<String>,
        collection_name: Option<String>,
        host: Option<String>,
        port: Option<u16>,
        log_level: Option<String>,
    ) -> (r: Result<Config, ConfigError>)
        ensures
            database_url is None ==> r == Err::<Config, ConfigError>(
                ConfigError::MissingDatabaseUrl,
            ),
            database_url matches Some(url) ==> (r matches Ok(c) && c.database_url@ == url@
                && c.database_name@ == text_or(database_name, "primary"@) && c.collection_name@
                == text_or(collection_name, "teachers"@) && c.host@ == text_or(host, "127.0.0.1"@)
                && c.port == port_or_default(port) && c.log_level@ == text_or(log_level, "info"@)),
    {
        let url = match database_url {
            Some(url) => url,
            None => {
                return Err(ConfigError::MissingDatabaseUrl);
            },
        };
        let port_number: u16 = match port {
            Some(p) => p,
            None => 8080,
        };
        Ok(
            Config {
                database_url: url,
                database_name: or_default(database_name, "primary"),
                collection_name: or_default(collection_name, "teachers"),
                host: or_default(host, "127.0.0.1"),
                port: port_number,
                log_level: or_default(log_level, "info"),
            },
        )
    }

    /// Settings from the texts of the six variables, each absent where the
    /// variable is not set. A port that is no number counts as absent.
    pub fn from_values(
        database_url: Option<String>,
        database_name: Option<String>,
        collection_name: Option<String>,
        host: Option<String>,
        port: Option<String>,
        log_level: Option<String>,
    ) -> (r: Result<Config, ConfigError>)
        ensures
            database_url is None ==> r == Err::<Config, ConfigError>(
                ConfigError::MissingDatabaseUrl,
            ),
            database_url matches Some(url) ==> (r matches Ok(c) && c.database_url@ == url@
                && c.database_name@ == text_or(database_name, "primary"@) && c.collection_name@
                == text_or(collection_name, "teachers"@) && c.host@ == text_or(host, "127.0.0.1"@)
                && c.port == port_of(port) && c.log_level@ == text_or(log_level, "info"@)),
    {
        let parsed = match &port {
            Some(text) => parse_port(text.as_str()),
            None => None,
        };
        Config::from_parts(database_url, database_name, collection_name, host, parsed, log_level)
    }
}

} // verus!
