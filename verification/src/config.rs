//! Process configuration, built from the values found in the environment.

use vstd::prelude::*;

verus! {

/// The connection pool of the store. Both timeouts are in seconds.
#[derive(Debug, Clone)]
pub struct DBConfig {
    pub url: String,
    pub max_connections: u32,
    pub min_connections: u32,
    pub connection_timeout: u64,
    pub idle_timeout: u64,
}

#[derive(Debug, Clone)]
pub struct ServerConfig {
    pub host: String,
    pub port: String,
}

#[derive(Debug, Clone)]
pub struct JWTConfig {
    /// The secret that signs and verifies tokens.
    pub secret: String,
    /// How long an issued token is valid, in seconds.
    pub expiration: i64,
}

#[derive(Debug, Clone)]
pub struct Config {
    pub database: DBConfig,
    pub server: ServerConfig,
    pub jwt_config: JWTConfig,
}

#[derive(Debug)]
pub enum ConfigError {
    MissingEnv(&'static str),
}

/// The variables that the configuration is read from, each as found
/// (`None`: not set, or not text).
pub struct Environment {
    pub database_url: Option<String>,
    pub app_host: Option<String>,
    pub app_port: Option<String>,
    pub secret: Option<String>,
    pub expiration: Option<String>,
}

pub const DEFAULT_MAX_CONNECTIONS: u32 = 5;

pub const DEFAULT_MIN_CONNECTIONS: u32 = 1;

pub const DEFAULT_CONNECTION_TIMEOUT: u64 = 200;

pub const DEFAULT_IDLE_TIMEOUT: u64 = 300;

/// One hour.
pub const DEFAULT_EXPIRATION: i64 = 3600;

/// Whether `c` is one of the ten decimal digits.
pub open spec fn is_digit(c: char) -> bool {
    '0' as u32 <= c as u32 <= '9' as u32
}

/// The number that a run of decimal digits spells; zero for no digits.
pub open spec fn digits_value(digits: Seq<char>) -> int
    decreases digits.len(),
{
    if digits.len() == 0 {
        0
    } else {
        10 * digits_value(digits.drop_last()) + (digits.last() as u32 - '0' as u32)
    }
}

/// The digits of a decimal number: the text without its sign, if it has
/// one.
pub open spec fn unsigned_part(text: Seq<char>) -> Seq<char> {
    if text.len() > 0 && (text[0] == '-' || text[0] == '+') {
        text.skip(1)
    } else {
        text
    }
}

/// The number that a text spells in decimal: an optional `+` or `-`, then
/// at least one digit and nothing but digits, and a value that fits `i64`.
/// `None` for every other text.
pub open spec fn decimal_i64(text: Seq<char>) -> Option<i64> {
    let digits = unsigned_part(text);
    let value = if text.len() > 0 && text[0] == '-' {
        -digits_value(digits)
    } else {
        digits_value(digits)
    };
    if digits.len() > 0 && (forall|i: int| 0 <= i < digits.len() ==> is_digit(#[trigger] digits[i]))
        && i64::MIN <= value <= i64::MAX {
        Some(value as i64)
    } else {
        None
    }
}

/// `str::parse::<i64>`, with its error dropped: the number where the text
/// is an optional sign followed by decimal digits within the range of
/// `i64`; an error for the empty text, a sign alone, any other character
/// (white space and `_` included) and a value out of range.
#[verifier::external_body]
fn parse_i64(text: &str) -> (parsed: Option<i64>)
    ensures
        parsed == decimal_i64(text@),
{
    text.parse::<i64>().ok()
}

pub open spec fn default_host() -> Seq<char> {
    "0.0.0.0"@
}

pub open spec fn default_port() -> Seq<char> {
    "8000"@
}

/// The secret used where none is configured. It is public knowledge: tokens
/// signed with it prove nothing.
pub open spec fn default_secret() -> Seq<char> {
    "very_long_but_unsafe_secret_in_the_air"@
}

/// The text if there is one, else the fallback.
pub open spec fn text_or(found: Option<String>, fallback: Seq<char>) -> Seq<char> {
    match found {
        Some(text) => text@,
        None => fallback,
    }
}

/// The token lifetime that a setting stands for: the number it spells, or
/// one hour where it is absent or spells none.
pub open spec fn expiration_of(found: Option<String>) -> i64 {
    match found {
        Some(text) => match decimal_i64(text@) {
            Some(seconds) => seconds,
            None => DEFAULT_EXPIRATION,
        },
        None => DEFAULT_EXPIRATION,
    }
}

fn or_default(found: Option<String>, fallback: &str) -> (text: String)
    ensures
        text@ == text_or(found, fallback@),
{
    match found {
        Some(text) => text,
        None => fallback.to_owned(),
    }
}

impl JWTConfig {
    /// Whether tokens are signed with the built-in secret. A deployment in
    /// which this holds should say so loudly.
    pub fn uses_default_secret(&self) -> (insecure: bool)
        ensures
            insecure == (self.secret@ == default_secret()),
    {
        let fallback = "very_long_but_unsafe_secret_in_the_air".to_owned();
        self.secret == fallback
    }
}

impl Config {
    /// The configuration for an environment. The database URL has no
    /// default; everything else has.
    pub fn default(environment: Environment) -> (config: Result<Config, ConfigError>)
        ensures
            match environment.database_url {
                None => config matches Err(ConfigError::MissingEnv(name)) && name@
                    == "DATABASE_URL"@,
                Some(url) => config matches Ok(c) && {
                    &&& c.database.url@ == url@
                    &&& c.database.max_connections == DEFAULT_MAX_CONNECTIONS
                    &&& c.database.min_connections == DEFAULT_MIN_CONNECTIONS
                    &&& c.database.connection_timeout == DEFAULT_CONNECTION_TIMEOUT
                    &&& c.database.idle_timeout == DEFAULT_IDLE_TIMEOUT
                    &&& c.server.host@ == text_or(environment.app_host, default_host())
                    &&& c.server.port@ == text_or(environment.app_port, default_port())
                    &&& c.jwt_config.secret@ == text_or(environment.secret, default_secret())
                    &&& c.jwt_config.expiration == expiration_of(environment.expiration)
                },
            },
    {
        let url = match environment.database_url {
            Some(url) => url,
            None => {
                return Err(ConfigError::MissingEnv("DATABASE_URL"));
            },
        };
        let expiration = match environment.expiration {
            Some(text) => match parse_i64(text.as_str()) {
                Some(seconds) => seconds,
                None => DEFAULT_EXPIRATION,
            },
            None => DEFAULT_EXPIRATION,
        };
        Ok(
            Config {
                database: DBConfig {
                    url,
                    max_connections: DEFAULT_MAX_CONNECTIONS,
                    min_connections: DEFAULT_MIN_CONNECTIONS,
                    connection_timeout: DEFAULT_CONNECTION_TIMEOUT,
                    idle_timeout: DEFAULT_IDLE_TIMEOUT,
                },
                server: ServerConfig {
                    host: or_default(environment.app_host, "0.0.0.0"),
                    port: or_default(environment.app_port, "8000"),
                },
                jwt_config: JWTConfig {
                    secret: or_default(
                        environment.secret,
                        "very_long_but_unsafe_secret_in_the_air",
                    ),
                    expiration,
                },
            },
        )
    }
}

} // verus!
