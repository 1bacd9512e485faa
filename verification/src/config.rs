//! The configuration loader: from the values of the environment variables to
//! an immutable configuration, or to the reason why there is none.

use crate::decimal::{parse_u16, u16_of, parse_u8, u8_of, IntParseError};
use crate::text::{optional_text, same_text};
use vstd::prelude::*;

verus! {

/// Name of the variable that holds the port to listen on.
pub const PORT: &'static str = "PORT";

/// Name of the variable that holds the request timeout, in seconds.
pub const GLOBAL_TIMEOUT: &'static str = "GLOBAL_TIMEOUT";

/// Name of the variable that holds the connection string of the database.
pub const DATABASE_URL: &'static str = "DATABASE_URL";

/// Name of the variable that says whether the database requires SSL.
pub const SSL_REQUIRED: &'static str = "SSL_REQUIRED";

/// Port the service listens on when `PORT` is not set.
pub const DEFAULT_PORT: u16 = 3000;

/// Seconds granted to a request when `GLOBAL_TIMEOUT` is not set.
pub const DEFAULT_GLOBAL_TIMEOUT: u8 = 10;

/// Whether the service is backed by a database.
#[derive(Clone, Copy, Debug, PartialEq, Eq, Structural)]
pub enum Variant {
    /// No database: the health check reports the process alone.
    Plain,
    /// A database whose reachability the health check reports too.
    Database,
}

/// The values of the environment variables that the loader reads. `None`
/// stands for a variable that is not set.
#[derive(Debug, PartialEq, Eq)]
pub struct Environment {
    /// `PORT`
    pub port: Option<String>,
    /// `GLOBAL_TIMEOUT`
    pub global_timeout: Option<String>,
    /// `DATABASE_URL`
    pub database_url: Option<String>,
    /// `SSL_REQUIRED`
    pub ssl_required: Option<String>,
}

/// An [`Environment`] as plain character sequences.
pub struct EnvironmentView {
    pub port: Option<Seq<char>>,
    pub global_timeout: Option<Seq<char>>,
    pub database_url: Option<Seq<char>>,
    pub ssl_required: Option<Seq<char>>,
}

impl View for Environment {
    type V = EnvironmentView;

    open spec fn view(&self) -> EnvironmentView {
        EnvironmentView {
            port: optional_text(self.port),
            global_timeout: optional_text(self.global_timeout),
            database_url: optional_text(self.database_url),
            ssl_required: optional_text(self.ssl_required),
        }
    }
}

/// Why no configuration could be built.
#[derive(Clone, Copy, Debug, PartialEq, Eq, Structural)]
pub enum ConfigError {
    /// `PORT` is not an unsigned 16-bit integer.
    Port(IntParseError),
    /// `GLOBAL_TIMEOUT` is not an unsigned 8-bit integer.
    GlobalTimeout(IntParseError),
    /// `DATABASE_URL` is required and not set.
    MissingDatabaseUrl,
    /// `SSL_REQUIRED` is neither `true` nor `false`.
    SslRequired,
}

/// The database part of a configuration.
pub struct DatabaseView {
    pub database_url: Seq<char>,
    pub ssl_required: bool,
}

/// A [`Config`] as plain values.
pub struct ConfigView {
    pub port: u16,
    pub global_timeout: u8,
    pub database: Option<DatabaseView>,
}

/// The configuration of the service. It is built once by [`Config::build`]
/// and offers no way to change it afterwards.
#[derive(Debug, PartialEq, Eq)]
pub struct Config {
    port: u16,
    global_timeout: u8,
    database: Option<(String, bool)>,
}

impl View for Config {
    type V = ConfigView;

    closed spec fn view(&self) -> ConfigView {
        ConfigView {
            port: self.port,
            global_timeout: self.global_timeout,
            database: match self.database {
                Some((url, ssl_required)) => Some(
                    DatabaseView { database_url: url@, ssl_required },
                ),
                None => None,
            },
        }
    }
}

/// A list of variables, each a name and a value, as plain character
/// sequences.
pub open spec fn variables(vars: Seq<(String, String)>) -> Seq<(Seq<char>, Seq<char>)> {
    vars.map_values(|pair: (String, String)| (pair.0@, pair.1@))
}

/// The value of the variable `name` in `vars`: that of the first entry with
/// this name.
pub open spec fn value_of(vars: Seq<(Seq<char>, Seq<char>)>, name: Seq<char>) -> Option<
    Seq<char>,
>
    decreases vars.len(),
{
    if vars.len() == 0 {
        None
    } else if vars[0].0 == name {
        Some(vars[0].1)
    } else {
        value_of(vars.drop_first(), name)
    }
}

/// What the loader reads from a list of variables.
pub open spec fn environment_of(vars: Seq<(Seq<char>, Seq<char>)>) -> EnvironmentView {
    EnvironmentView {
        port: value_of(vars, PORT@),
        global_timeout: value_of(vars, GLOBAL_TIMEOUT@),
        database_url: value_of(vars, DATABASE_URL@),
        ssl_required: value_of(vars, SSL_REQUIRED@),
    }
}

/// The variant that a configuration is for: the one with a database exactly
/// when it holds a connection string.
pub open spec fn variant_of(config: ConfigView) -> Variant {
    if config.database is Some {
        Variant::Database
    } else {
        Variant::Plain
    }
}

/// What a text means as a boolean: `true` and `false` are the two texts
/// accepted.
pub open spec fn bool_of(text: Seq<char>) -> Option<bool> {
    if text == "true"@ {
        Some(true)
    } else if text == "false"@ {
        Some(false)
    } else {
        None
    }
}

/// The port that the environment asks for.
pub open spec fn port_of(env: EnvironmentView) -> Result<u16, IntParseError> {
    match env.port {
        Some(text) => u16_of(text),
        None => Ok(DEFAULT_PORT),
    }
}

/// The request timeout that the environment asks for, in seconds.
pub open spec fn global_timeout_of(env: EnvironmentView) -> Result<u8, IntParseError> {
    match env.global_timeout {
        Some(text) => u8_of(text),
        None => Ok(DEFAULT_GLOBAL_TIMEOUT),
    }
}

/// Whether the environment asks for SSL towards the database; `None` where
/// the variable's text is not a boolean.
pub open spec fn ssl_required_of(env: EnvironmentView) -> Option<bool> {
    match env.ssl_required {
        Some(text) => bool_of(text),
        None => Some(false),
    }
}

/// The configuration that an environment describes: every variable parsed or
/// defaulted, or the first defect in the order `PORT`, `GLOBAL_TIMEOUT`,
/// `DATABASE_URL`, `SSL_REQUIRED`. The last two count in the database
/// variant only.
pub open spec fn configuration_of(variant: Variant, env: EnvironmentView) -> Result<
    ConfigView,
    ConfigError,
> {
    match (port_of(env), global_timeout_of(env)) {
        (Err(e), _) => Err(ConfigError::Port(e)),
        (Ok(_), Err(e)) => Err(ConfigError::GlobalTimeout(e)),
        (Ok(port), Ok(global_timeout)) => match variant {
            Variant::Plain => Ok(ConfigView { port, global_timeout, database: None }),
            Variant::Database => match (env.database_url, ssl_required_of(env)) {
                (None, _) => Err(ConfigError::MissingDatabaseUrl),
                (Some(_), None) => Err(ConfigError::SslRequired),
                (Some(database_url), Some(ssl_required)) => Ok(
                    ConfigView {
                        port,
                        global_timeout,
                        database: Some(DatabaseView { database_url, ssl_required }),
                    },
                ),
            },
        },
    }
}

/// Looks the variable `name` up in `vars`.
fn lookup(vars: &Vec<(String, String)>, name: &str) -> (value: Option<String>)
    ensures
        optional_text(value) == value_of(variables(vars@), name@),
{
    let ghost all = variables(vars@);
    let mut i: usize = 0;
    assert(all.skip(0) =~= all);
    while i < vars.len()
        invariant
            0 <= i <= vars.len(),
            all == variables(vars@),
            value_of(all, name@) == value_of(all.skip(i as int), name@),
        decreases vars.len() - i,
    {
        let entry = &vars[i];
        proof {
            assert(all.skip(i as int)[0] == (entry.0@, entry.1@));
            assert(all.skip(i as int).drop_first() =~= all.skip(i + 1));
        }
        if same_text(entry.0.as_str(), name) {
            return Some(entry.1.clone());
        }
        i = i + 1;
    }
    None
}

impl Environment {
    /// Picks the variables that the loader reads out of a list of variables.
    pub fn from_vars(vars: &Vec<(String, String)>) -> (env: Environment)
        ensures
            env@ == environment_of(variables(vars@)),
    {
        Environment {
            port: lookup(vars, PORT),
            global_timeout: lookup(vars, GLOBAL_TIMEOUT),
            database_url: lookup(vars, DATABASE_URL),
            ssl_required: lookup(vars, SSL_REQUIRED),
        }
    }
}

/// Reads a boolean: `true` or `false`, nothing else.
pub fn parse_bool(text: &str) -> (r: Option<bool>)
    ensures
        r == bool_of(text@),
{
    if same_text(text, "true") {
        Some(true)
    } else if same_text(text, "false") {
        Some(false)
    } else {
        None
    }
}

impl ConfigError {
    /// The text that describes the error.
    pub open spec fn description(self) -> Seq<char> {
        match self {
            ConfigError::Port(e) | ConfigError::GlobalTimeout(e) => match e {
                IntParseError::Empty => "cannot parse integer from empty string"@,
                IntParseError::InvalidDigit => "invalid digit found in string"@,
                IntParseError::PosOverflow => "number too large to fit in target type"@,
            },
            ConfigError::MissingDatabaseUrl => "environment variable not found"@,
            ConfigError::SslRequired => "provided string was not `true` or `false`"@,
        }
    }

    /// Describes the error in words.
    pub fn message(&self) -> (text: String)
        ensures
            text@ == self.description(),
    {
        let text = match self {
            ConfigError::Port(e) | ConfigError::GlobalTimeout(e) => match e {
                IntParseError::Empty => "cannot parse integer from empty string",
                IntParseError::InvalidDigit => "invalid digit found in string",
                IntParseError::PosOverflow => "number too large to fit in target type",
            },
            ConfigError::MissingDatabaseUrl => "environment variable not found",
            ConfigError::SslRequired => "provided string was not `true` or `false`",
        };
        String::from_str(text)
    }
}

impl Config {
    /// Builds the configuration that `env` describes, or reports the first
    /// defect. No partial configuration is ever returned.
    pub fn build(variant: Variant, env: &Environment) -> (r: Result<Config, ConfigError>)
        ensures
            r matches Ok(config) ==> configuration_of(variant, env@) == Ok::<
                ConfigView,
                ConfigError,
            >(config@),
            r matches Err(e) ==> configuration_of(variant, env@) == Err::<ConfigView, ConfigError>(
                e,
            ),
    {
        let port: u16 = match &env.port {
            Some(text) => match parse_u16(text.as_str()) {
                Ok(port) => port,
                Err(e) => {
                    return Err(ConfigError::Port(e));
                },
            },
            None => DEFAULT_PORT,
        };
        let global_timeout: u8 = match &env.global_timeout {
            Some(text) => match parse_u8(text.as_str()) {
                Ok(seconds) => seconds,
                Err(e) => {
                    return Err(ConfigError::GlobalTimeout(e));
                },
            },
            None => DEFAULT_GLOBAL_TIMEOUT,
        };
        match variant {
            Variant::Plain => Ok(Config { port, global_timeout, database: None }),
            Variant::Database => {
                let database_url = match &env.database_url {
                    Some(url) => url.clone(),
                    None => {
                        return Err(ConfigError::MissingDatabaseUrl);
                    },
                };
                let ssl_required = match &env.ssl_required {
                    Some(text) => match parse_bool(text.as_str()) {
                        Some(flag) => flag,
                        None => {
                            return Err(ConfigError::SslRequired);
                        },
                    },
                    None => false,
                };
                Ok(Config { port, global_timeout, database: Some((database_url, ssl_required)) })
            },
        }
    }

    /// The port to listen on.
    pub fn port(&self) -> (port: u16)
        ensures
            port == self@.port,
    {
        self.port
    }

    /// Seconds granted to each request.
    pub fn global_timeout(&self) -> (seconds: u8)
        ensures
            seconds == self@.global_timeout,
    {
        self.global_timeout
    }

    /// Which variant of the service this configuration is for.
    pub fn variant(&self) -> (variant: Variant)
        ensures
            variant == variant_of(self@),
    {
        match &self.database {
            Some(_) => Variant::Database,
            None => Variant::Plain,
        }
    }

    /// The connection string of the database, if there is one.
    pub fn database_url(&self) -> (url: Option<&str>)
        ensures
            url is Some <==> self@.database is Some,
            url matches Some(text) ==> text@ == self@.database->0.database_url,
    {
        match &self.database {
            Some((url, _)) => Some(url.as_str()),
            None => None,
        }
    }

    /// Whether connections to the database must use SSL, if there is a
    /// database.
    pub fn ssl_required(&self) -> (flag: Option<bool>)
        ensures
            flag is Some <==> self@.database is Some,
            flag matches Some(required) ==> required == self@.database->0.ssl_required,
    {
        match &self.database {
            Some((_, ssl_required)) => Some(*ssl_required),
            None => None,
        }
    }
}

} // verus!
