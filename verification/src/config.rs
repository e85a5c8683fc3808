//! Process configuration.

use vstd::prelude::*;

verus! {

/// The settings the service runs with.
#[derive(Clone)]
pub struct AppConfig {
    /// Connection string of the user store.
    pub database_url: String,
    /// Address the HTTP server binds to.
    pub bind_address: String,
    /// Secret used to sign and check tokens.
    pub jwt_secret: String,
}

/// The settings as plain text.
pub struct AppConfigView {
    pub database_url: Seq<char>,
    pub bind_address: Seq<char>,
    pub jwt_secret: Seq<char>,
}

impl View for AppConfig {
    type V = AppConfigView;

    open spec fn view(&self) -> AppConfigView {
        AppConfigView {
            database_url: self.database_url@,
            bind_address: self.bind_address@,
            jwt_secret: self.jwt_secret@,
        }
    }
}

/// The bind address used where none is configured.
pub open spec fn default_bind_address() -> Seq<char> {
    "127.0.0.1:8080"@
}

/// The signing secret used where none is configured. It is a placeholder:
/// a deployment must configure its own.
pub open spec fn default_jwt_secret() -> Seq<char> {
    "change-me"@
}

/// A configured value, or the default where it is absent.
pub open spec fn or_default(value: Option<String>, default: Seq<char>) -> Seq<char> {
    match value {
        Some(value) => value@,
        None => default,
    }
}

impl AppConfig {
    /// Builds the configuration from the values of `DATABASE_URL`,
    /// `BIND_ADDRESS` and `JWT_SECRET`. The first is required; the other
    /// two fall back to their defaults when absent.
    pub fn from_vars(
        database_url: String,
        bind_address: Option<String>,
        jwt_secret: Option<String>,
    ) -> (config: AppConfig)
        ensures
            config@ == (AppConfigView {
                database_url: database_url@,
                bind_address: or_default(bind_address, default_bind_address()),
                jwt_secret: or_default(jwt_secret, default_jwt_secret()),
            }),
    {
        let bind_address = match bind_address {
            Some(address) => address,
            None => String::from_str("127.0.0.1:8080"),
        };
        let jwt_secret = match jwt_secret {
            Some(secret) => secret,
            None => String::from_str("change-me"),
        };
        AppConfig { database_url, bind_address, jwt_secret }
    }
}

} // verus!
