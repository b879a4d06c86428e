//! The settings of the service, and what follows from them.
use vstd::prelude::*;

verus! {

/// Why the settings cannot be used.
#[derive(Debug, Clone, Copy, PartialEq, Eq, Structural)]
pub enum ConfigurationError {
    /// The environment is neither `local` nor `production`.
    UnsupportedEnvironment,
}

/// All settings of the service.
pub struct Settings {
    pub database: DatabaseSettings,
    pub application: ApplicationSettings,
    pub email_client: EmailClientSettings,
}

/// Where the service listens, and under which address it is reached.
#[derive(Debug)]
pub struct ApplicationSettings {
    pub host: String,
    pub port: u16,
    pub base_url: String,
}

/// How the mail endpoint is reached.
pub struct EmailClientSettings {
    pub base_url: String,
    pub sender_email: String,
    pub authorization_token: String,
    pub timeout_milliseconds: u64,
}

/// How the database is reached.
pub struct DatabaseSettings {
    pub username: String,
    pub password: String,
    pub host: String,
    pub port: u16,
    pub database_name: String,
    pub require_ssl: bool,
}

/// Whether a connection must be encrypted, or is encrypted where the server
/// offers it.
#[derive(Debug, Clone, Copy, PartialEq, Eq, Structural)]
pub enum SslMode {
    Require,
    Prefer,
}

/// What a connection to the database server is opened with.
pub struct ConnectionOptions {
    pub username: String,
    pub password: String,
    pub host: String,
    pub port: u16,
    pub ssl_mode: SslMode,
    pub database: Option<String>,
}

/// What a connection to the database server is opened with.
pub struct ConnectionOptionsView {
    pub username: Seq<char>,
    pub password: Seq<char>,
    pub host: Seq<char>,
    pub port: u16,
    pub ssl_mode: SslMode,
    pub database: Option<Seq<char>>,
}

impl View for ConnectionOptions {
    type V = ConnectionOptionsView;

    open spec fn view(&self) -> ConnectionOptionsView {
        ConnectionOptionsView {
            username: self.username@,
            password: self.password@,
            host: self.host@,
            port: self.port,
            ssl_mode: self.ssl_mode,
            database: match self.database {
                Some(name) => Some(name@),
                None => None,
            },
        }
    }
}

impl DatabaseSettings {
    /// The options of a connection to the server that names no database.
    pub open spec fn server_options(&self) -> ConnectionOptionsView {
        ConnectionOptionsView {
            username: self.username@,
            password: self.password@,
            host: self.host@,
            port: self.port,
            ssl_mode: if self.require_ssl {
                SslMode::Require
            } else {
                SslMode::Prefer
            },
            database: None,
        }
    }

    /// The options of a connection to the server that names no database.
    pub fn without_db(&self) -> (options: ConnectionOptions)
        ensures
            options@ == self.server_options(),
    {
        let ssl_mode = if self.require_ssl {
            SslMode::Require
        } else {
            SslMode::Prefer
        };
        ConnectionOptions {
            username: self.username.clone(),
            password: self.password.clone(),
            host: self.host.clone(),
            port: self.port,
            ssl_mode,
            database: None,
        }
    }

    /// The options of a connection to the database of the service.
    pub fn with_db(&self) -> (options: ConnectionOptions)
        ensures
            options@ == (ConnectionOptionsView {
                database: Some(self.database_name@),
                ..self.server_options()
            }),
    {
        let mut options = self.without_db();
        options.database = Some(self.database_name.clone());
        options
    }
}

/// Where the service runs.
#[derive(Debug, Clone, Copy, PartialEq, Eq, Structural)]
pub enum Environment {
    Local,
    Production,
}

/// `s` with each of its characters in lower case, as `str::to_lowercase`
/// gives it.
pub uninterp spec fn lowercase(s: Seq<char>) -> Seq<char>;

/// Puts `value` in lower case with `str::to_lowercase`. Nothing is proved
/// of the mapping of characters: the result is only given its name.
#[verifier::external_body]
fn to_lowercase(value: &str) -> (lowered: String)
    ensures
        lowered@ == lowercase(value@),
{
    value.to_lowercase()
}

/// The name of `environment`.
pub open spec fn environment_name(environment: Environment) -> Seq<char> {
    match environment {
        Environment::Local => "local"@,
        Environment::Production => "production"@,
    }
}

/// The environment that `name`, in lower case, is the name of.
pub open spec fn environment_named(name: Seq<char>) -> Result<Environment, ConfigurationError> {
    if name == "local"@ {
        Ok(Environment::Local)
    } else if name == "production"@ {
        Ok(Environment::Production)
    } else {
        Err(ConfigurationError::UnsupportedEnvironment)
    }
}

impl Environment {
    /// The name of this environment.
    pub fn as_str(&self) -> (name: &'static str)
        ensures
            name@ == environment_name(*self),
    {
        match self {
            Environment::Local => "local",
            Environment::Production => "production",
        }
    }

    /// The name of the file that holds the settings of this environment.
    pub fn file_name(&self) -> (name: String)
        ensures
            name@ == environment_name(*self) + ".yaml"@,
    {
        let mut name = String::from_str(self.as_str());
        name.append(".yaml");
        name
    }

    /// The environment with the name `name`, which is in lower case.
    pub fn from_name(name: &str) -> (r: Result<Environment, ConfigurationError>)
        ensures
            r == environment_named(name@),
    {
        let name = String::from_str(name);
        if name == String::from_str("local") {
            Ok(Environment::Local)
        } else if name == String::from_str("production") {
            Ok(Environment::Production)
        } else {
            Err(ConfigurationError::UnsupportedEnvironment)
        }
    }

    /// The environment with the name `value`, in whatever case it is
    /// written.
    pub fn parse(value: String) -> (r: Result<Environment, ConfigurationError>)
        ensures
            r == environment_named(lowercase(value@)),
    {
        let lowered = to_lowercase(value.as_str());
        Environment::from_name(lowered.as_str())
    }
}

impl TryFrom<String> for Environment {
    type Error = ConfigurationError;

    /// The same as `Environment::parse`.
    fn try_from(value: String) -> (r: Result<Environment, ConfigurationError>)
        ensures
            r == environment_named(lowercase(value@)),
    {
        Environment::parse(value)
    }
}

impl vstd::std_specs::convert::TryFromSpecImpl<String> for Environment {
    open spec fn obeys_try_from_spec() -> bool {
        true
    }

    open spec fn try_from_spec(v: String) -> Result<Environment, ConfigurationError> {
        environment_named(lowercase(v@))
    }
}

} // verus!
