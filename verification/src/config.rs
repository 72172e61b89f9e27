//! Process-wide configuration, as read from the environment.
//!
//! Reading the environment is the caller's business. What is decided here is
//! which variables are required, which have defaults, and which error a
//! missing one gives.

use vstd::prelude::*;

verus! {

/// The environment variables that the configuration is made of.
#[derive(Debug, Clone, Copy, PartialEq, Eq, Structural)]
pub enum ConfigKey {
    ClientId,
    ClientSecret,
    AuthUrl,
    TokenUrl,
    RedirectUrl,
    Host,
    Port,
    RedisUrl,
}

/// Why a configuration could not be built. Both are fatal at startup.
#[derive(Debug, Clone, Copy, PartialEq, Eq, Structural)]
pub enum ConfigError {
    /// A required variable is not set.
    Missing(ConfigKey),
    /// A variable is set to something that is not an absolute URL.
    Malformed(ConfigKey),
}

/// The environment as a list of name and value pairs.
pub type Environment = Vec<(String, String)>;

/// The name of the variable that holds `key`.
pub open spec fn key_name(key: ConfigKey) -> Seq<char> {
    match key {
        ConfigKey::ClientId => "CLIENT_ID"@,
        ConfigKey::ClientSecret => "CLIENT_SECRET"@,
        ConfigKey::AuthUrl => "AUTH_URL"@,
        ConfigKey::TokenUrl => "TOKEN_URL"@,
        ConfigKey::RedirectUrl => "REDIRECT_URL"@,
        ConfigKey::Host => "HOST"@,
        ConfigKey::Port => "PORT"@,
        ConfigKey::RedisUrl => "REDIS_URL"@,
    }
}

/// The value of the first pair named `name` at or after position `from`.
pub open spec fn lookup_from(
    env: Seq<(Seq<char>, Seq<char>)>,
    name: Seq<char>,
    from: int,
) -> Option<Seq<char>>
    decreases env.len() - from,
{
    if from < 0 || from >= env.len() {
        None
    } else if env[from].0 == name {
        Some(env[from].1)
    } else {
        lookup_from(env, name, from + 1)
    }
}

/// The value that the environment gives to `key`, if any.
pub open spec fn lookup(env: Seq<(Seq<char>, Seq<char>)>, key: ConfigKey) -> Option<Seq<char>> {
    lookup_from(env, key_name(key), 0)
}

/// The first required variable that the environment lacks, in the order
/// client id, client secret, authorization URL, token URL, redirect URL.
pub open spec fn first_missing(env: Seq<(Seq<char>, Seq<char>)>) -> Option<ConfigKey> {
    if lookup(env, ConfigKey::ClientId) is None {
        Some(ConfigKey::ClientId)
    } else if lookup(env, ConfigKey::ClientSecret) is None {
        Some(ConfigKey::ClientSecret)
    } else if lookup(env, ConfigKey::AuthUrl) is None {
        Some(ConfigKey::AuthUrl)
    } else if lookup(env, ConfigKey::TokenUrl) is None {
        Some(ConfigKey::TokenUrl)
    } else if lookup(env, ConfigKey::RedirectUrl) is None {
        Some(ConfigKey::RedirectUrl)
    } else {
        None
    }
}

/// What a [`Config`] holds, as plain sequences of characters.
pub struct ConfigView {
    pub client_id: Seq<char>,
    pub client_secret: Seq<char>,
    pub auth_url: Seq<char>,
    pub token_url: Seq<char>,
    pub redirect_url: Seq<char>,
    pub host: Seq<char>,
    pub port: Seq<char>,
    pub redis_url: Option<Seq<char>>,
}

/// The configuration that an environment stands for: an error for the first
/// required variable that is missing, else the values found, with
/// `127.0.0.1` and `8080` where host and port are not set.
pub open spec fn config_from(env: Seq<(Seq<char>, Seq<char>)>) -> Result<ConfigView, ConfigError> {
    match first_missing(env) {
        Some(key) => Err(ConfigError::Missing(key)),
        None => Ok(
            ConfigView {
                client_id: lookup(env, ConfigKey::ClientId).unwrap(),
                client_secret: lookup(env, ConfigKey::ClientSecret).unwrap(),
                auth_url: lookup(env, ConfigKey::AuthUrl).unwrap(),
                token_url: lookup(env, ConfigKey::TokenUrl).unwrap(),
                redirect_url: lookup(env, ConfigKey::RedirectUrl).unwrap(),
                host: match lookup(env, ConfigKey::Host) {
                    Some(host) => host,
                    None => "127.0.0.1"@,
                },
                port: match lookup(env, ConfigKey::Port) {
                    Some(port) => port,
                    None => "8080"@,
                },
                redis_url: lookup(env, ConfigKey::RedisUrl),
            },
        ),
    }
}

impl ConfigKey {
    /// The name of the environment variable that holds this key.
    pub fn name(&self) -> (name: &'static str)
        ensures
            name@ == key_name(*self),
    {
        match self {
            ConfigKey::ClientId => "CLIENT_ID",
            ConfigKey::ClientSecret => "CLIENT_SECRET",
            ConfigKey::AuthUrl => "AUTH_URL",
            ConfigKey::TokenUrl => "TOKEN_URL",
            ConfigKey::RedirectUrl => "REDIRECT_URL",
            ConfigKey::Host => "HOST",
            ConfigKey::Port => "PORT",
            ConfigKey::RedisUrl => "REDIS_URL",
        }
    }

    /// The value that `env` gives to this key: that of the first pair that
    /// carries the key's name.
    pub fn find_in(&self, env: &Environment) -> (value: Option<String>)
        ensures
            value is Some <==> lookup(env.deep_view(), *self) is Some,
            value matches Some(v) ==> lookup(env.deep_view(), *self) == Some(v@),
    {
        let name = self.name().to_owned();
        let mut i: usize = 0;
        while i < env.len()
            invariant
                i <= env.len(),
                name@ == key_name(*self),
                lookup(env.deep_view(), *self) == lookup_from(env.deep_view(), name@, i as int),
            decreases env.len() - i,
        {
            assert(env.deep_view()[i as int] == (env[i as int].0@, env[i as int].1@));
            if env[i].0 == name {
                return Some(env[i].1.clone());
            }
            i += 1;
        }
        None
    }
}

/// The settings of the process: the OAuth2 client's credentials and
/// endpoints, the address to serve on, and the message backend.
#[derive(Clone)]
pub struct Config {
    pub client_id: String,
    pub client_secret: String,
    pub auth_url: String,
    pub token_url: String,
    pub redirect_url: String,
    pub host: String,
    pub port: String,
    pub redis_url: Option<String>,
}

impl View for Config {
    type V = ConfigView;

    open spec fn view(&self) -> ConfigView {
        ConfigView {
            client_id: self.client_id@,
            client_secret: self.client_secret@,
            auth_url: self.auth_url@,
            token_url: self.token_url@,
            redirect_url: self.redirect_url@,
            host: self.host@,
            port: self.port@,
            redis_url: match self.redis_url {
                Some(url) => Some(url@),
                None => None,
            },
        }
    }
}

impl Config {
    /// Builds the configuration from the variables of the environment.
    ///
    /// The client id, the client secret and the three URLs are required;
    /// the first of them that is missing is reported. Host and port fall
    /// back to `127.0.0.1` and `8080`. The message backend's URL is taken
    /// where it is set.
    pub fn from_env(env: &Environment) -> (res: Result<Config, ConfigError>)
        ensures
            match res {
                Ok(config) => config_from(env.deep_view()) == Ok::<ConfigView, ConfigError>(config@),
                Err(e) => config_from(env.deep_view()) == Err::<ConfigView, ConfigError>(e),
            },
    {
        let client_id = match ConfigKey::ClientId.find_in(env) {
            Some(value) => value,
            None => return Err(ConfigError::Missing(ConfigKey::ClientId)),
        };
        let client_secret = match ConfigKey::ClientSecret.find_in(env) {
            Some(value) => value,
            None => return Err(ConfigError::Missing(ConfigKey::ClientSecret)),
        };
        let auth_url = match ConfigKey::AuthUrl.find_in(env) {
            Some(value) => value,
            None => return Err(ConfigError::Missing(ConfigKey::AuthUrl)),
        };
        let token_url = match ConfigKey::TokenUrl.find_in(env) {
            Some(value) => value,
            None => return Err(ConfigError::Missing(ConfigKey::TokenUrl)),
        };
        let redirect_url = match ConfigKey::RedirectUrl.find_in(env) {
            Some(value) => value,
            None => return Err(ConfigError::Missing(ConfigKey::RedirectUrl)),
        };
        let host = match ConfigKey::Host.find_in(env) {
            Some(value) => value,
            None => "127.0.0.1".to_owned(),
        };
        let port = match ConfigKey::Port.find_in(env) {
            Some(value) => value,
            None => "8080".to_owned(),
        };
        let redis_url = ConfigKey::RedisUrl.find_in(env);
        Ok(Config { client_id, client_secret, auth_url, token_url, redirect_url, host, port, redis_url })
    }
}

} // verus!
