//! Configuration taken from the environment at startup.

use vstd::prelude::*;

verus! {

/// What the console needs to know before it serves its first request.
#[derive(Debug)]
pub struct Config {
    pub auth0_domain: String,
    pub auth0_client_id: String,
    pub auth0_client_secret: String,
    /// The address to listen on, as text that is known to be a socket
    /// address.
    pub bind_addr: String,
}

/// The address to listen on as the environment gives it: its text, and
/// whether that text is a socket address. Reading socket addresses is not
/// this library's work; whoever hands the text in says what came of it.
#[derive(Debug)]
pub struct BindAddr {
    pub text: String,
    pub parses: bool,
}

/// Why no configuration could be made.
#[derive(Debug)]
pub enum ConfigError {
    /// The named environment variable is not set.
    Missing(&'static str),
    /// The address to listen on is no socket address.
    Addr,
}

/// The address that is listened on when the environment names none: every
/// interface, port 3000.
pub const DEFAULT_BIND_ADDR: &'static str = "0.0.0.0:3000";

/// The first of the three required variables that is not set, if any.
pub open spec fn first_missing(
    auth0_domain: Option<String>,
    auth0_client_id: Option<String>,
    auth0_client_secret: Option<String>,
) -> Option<Seq<char>> {
    if auth0_domain is None {
        Some("AUTH0_DOMAIN"@)
    } else if auth0_client_id is None {
        Some("AUTH0_CLIENT_ID"@)
    } else if auth0_client_secret is None {
        Some("AUTH0_CLIENT_SECRET"@)
    } else {
        None
    }
}

/// True when the address can be listened on: none is given, so that the
/// default stands, or the one given is a socket address.
pub open spec fn address_is_good(bind_addr: Option<BindAddr>) -> bool {
    match bind_addr {
        Some(addr) => addr.parses,
        None => true,
    }
}

/// The address to listen on: the one given, or the default.
pub open spec fn bind_addr_or_default(bind_addr: Option<BindAddr>) -> Seq<char> {
    match bind_addr {
        Some(addr) => addr.text@,
        None => DEFAULT_BIND_ADDR@,
    }
}

impl ConfigError {
    /// The error in words.
    pub open spec fn spec_message(self) -> Seq<char> {
        match self {
            ConfigError::Missing(name) => "missing environment variable: "@ + name@,
            ConfigError::Addr => "invalid bind address"@,
        }
    }

    /// The error in words.
    pub fn message(&self) -> (text: String)
        ensures
            text@ == self.spec_message(),
    {
        match self {
            ConfigError::Missing(name) => String::from_str("missing environment variable: ").concat(
                name,
            ),
            ConfigError::Addr => String::from_str("invalid bind address"),
        }
    }
}

impl Config {
    /// Builds the configuration from the values of `AUTH0_DOMAIN`,
    /// `AUTH0_CLIENT_ID`, `AUTH0_CLIENT_SECRET` and `BIND_ADDR`, each `None`
    /// when the variable is not set.
    ///
    /// The first three are required and are looked at in that order: the
    /// first that is not set is the one reported. The address has a
    /// default; one that is given must be a socket address. A variable that
    /// is missing is reported before an address that is bad.
    pub fn from_env(
        auth0_domain: Option<String>,
        auth0_client_id: Option<String>,
        auth0_client_secret: Option<String>,
        bind_addr: Option<BindAddr>,
    ) -> (config: Result<Config, ConfigError>)
        ensures
            config is Ok <==> first_missing(auth0_domain, auth0_client_id, auth0_client_secret)
                is None && address_is_good(bind_addr),
            config matches Ok(c) ==> {
                &&& Some(c.auth0_domain) == auth0_domain
                &&& Some(c.auth0_client_id) == auth0_client_id
                &&& Some(c.auth0_client_secret) == auth0_client_secret
                &&& c.bind_addr@ == bind_addr_or_default(bind_addr)
            },
            config matches Err(ConfigError::Missing(_)) <==> first_missing(
                auth0_domain,
                auth0_client_id,
                auth0_client_secret,
            ) is Some,
            config matches Err(ConfigError::Missing(name)) ==> Some(name@) == first_missing(
                auth0_domain,
                auth0_client_id,
                auth0_client_secret,
            ),
            config matches Err(ConfigError::Addr) <==> first_missing(
                auth0_domain,
                auth0_client_id,
                auth0_client_secret,
            ) is None && !address_is_good(bind_addr),
    {
        let auth0_domain = match auth0_domain {
            Some(value) => value,
            None => {
                return Err(ConfigError::Missing("AUTH0_DOMAIN"));
            },
        };
        let auth0_client_id = match auth0_client_id {
            Some(value) => value,
            None => {
                return Err(ConfigError::Missing("AUTH0_CLIENT_ID"));
            },
        };
        let auth0_client_secret = match auth0_client_secret {
            Some(value) => value,
            None => {
                return Err(ConfigError::Missing("AUTH0_CLIENT_SECRET"));
            },
        };
        let bind_addr = match bind_addr {
            Some(addr) => {
                if !addr.parses {
                    return Err(ConfigError::Addr);
                }
                addr.text
            },
            None => String::from_str(DEFAULT_BIND_ADDR),
        };
        Ok(Config { auth0_domain, auth0_client_id, auth0_client_secret, bind_addr })
    }
}

} // verus!
