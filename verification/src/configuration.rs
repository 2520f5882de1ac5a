//! The settings the application starts from, and the database connection
//! settings that follow from them.
//!
//! The two secrets among the settings, the database password and the key
//! that signs cookies, are of a type `S` that the caller chooses. Nothing
//! here opens a value of it: a secret is held, and handed on by reference.

use vstd::prelude::*;

verus! {

/// Everything the application is configured with. It is read once, at
/// startup, and not changed afterwards.
#[derive(Clone, Debug)]
pub struct Configuration<S> {
    pub application: ApplicationConfiguration<S>,
    pub database: DatabaseConfiguration<S>,
}

/// Where the application listens and how it signs what it hands to visitors.
#[derive(Clone, Debug)]
pub struct ApplicationConfiguration<S> {
    pub port: u16,
    pub host: String,
    pub base_url: String,
    /// The key that signs the flash message cookie.
    pub hmac_secret: S,
}

/// Where the database is and who connects to it.
#[derive(Clone, Debug)]
pub struct DatabaseConfiguration<S> {
    pub username: String,
    pub password: S,
    pub port: u16,
    pub host: String,
    pub database_name: String,
    pub require_ssl: bool,
}

/// How much a connection insists on encryption.
#[derive(Clone, Copy, Debug, PartialEq, Eq, Structural)]
pub enum SslMode {
    /// Encrypt when the server offers it, go on in the clear when not.
    Prefer,
    /// Encrypt, or do not connect.
    Require,
}

/// The settings of one database connection, as long as the configuration
/// they are taken from is at hand.
#[derive(Debug)]
pub struct ConnectOptions<'a, S> {
    pub host: &'a str,
    pub port: u16,
    pub username: &'a str,
    pub password: &'a S,
    pub ssl_mode: SslMode,
    /// The database to open, where one is named.
    pub database: Option<&'a str>,
}

/// Connection settings as contracts see them.
pub struct ConnectOptionsView<S> {
    pub host: Seq<char>,
    pub port: u16,
    pub username: Seq<char>,
    pub password: S,
    pub ssl_mode: SslMode,
    pub database: Option<Seq<char>>,
}

impl<'a, S> View for ConnectOptions<'a, S> {
    type V = ConnectOptionsView<S>;

    open spec fn view(&self) -> ConnectOptionsView<S> {
        ConnectOptionsView {
            host: self.host@,
            port: self.port,
            username: self.username@,
            password: *self.password,
            ssl_mode: self.ssl_mode,
            database: match self.database {
                Some(name) => Some(name@),
                None => None,
            },
        }
    }
}

impl<S> DatabaseConfiguration<S> {
    /// The encryption the configuration asks for: required when
    /// `require_ssl` is set, preferred when it is not.
    pub open spec fn ssl_mode(&self) -> SslMode {
        if self.require_ssl {
            SslMode::Require
        } else {
            SslMode::Prefer
        }
    }

    /// The settings to reach the server without naming a database: host,
    /// port and credentials as configured, encryption as `ssl_mode` says.
    pub open spec fn server_options(&self) -> ConnectOptionsView<S> {
        ConnectOptionsView {
            host: self.host@,
            port: self.port,
            username: self.username@,
            password: self.password,
            ssl_mode: self.ssl_mode(),
            database: None,
        }
    }

    /// The settings to open the configured database: those of `without_db`,
    /// with the database named.
    pub fn with_db(&self) -> (options: ConnectOptions<'_, S>)
        ensures
            options@ == (ConnectOptionsView {
                database: Some(self.database_name@),
                ..self.server_options()
            }),
    {
        let mut options = self.without_db();
        options.database = Some(self.database_name.as_str());
        options
    }

    /// The settings to reach the server without naming a database: host,
    /// port and credentials as configured, encryption required or preferred
    /// as `require_ssl` says.
    pub fn without_db(&self) -> (options: ConnectOptions<'_, S>)
        ensures
            options@ == self.server_options(),
    {
        let ssl_mode = if self.require_ssl {
            SslMode::Require
        } else {
            SslMode::Prefer
        };
        ConnectOptions {
            host: self.host.as_str(),
            port: self.port,
            username: self.username.as_str(),
            password: &self.password,
            ssl_mode,
            database: None,
        }
    }
}

} // verus!
