//! The already-validated configuration values that the daemon hands to
//! the service bootstrap code.  The core consumes these; it does not
//! parse files or environment variables itself.

use vstd::prelude::*;

verus! {

/// Where the Message Director binds, and the optional address of the
/// upstream Message Director it federates with (absent on a cluster
/// root).
pub struct MessageDirectorConfig {
    pub bind: String,
    pub upstream: Option<String>,
}

/// Credentials of the SQL backend, with `host` in `host:port` form.
pub struct SQL {
    pub host: String,
    pub database: String,
    pub user: String,
    pub pass: String,
}

/// Configuration of the Database Server service.
pub struct DBServer {
    pub sql: Option<SQL>,
}

/// Per-service configuration sections.
pub struct Services {
    pub database_server: Option<DBServer>,
}

/// The daemon's whole configuration surface.
pub struct DonetConfig {
    pub message_director: MessageDirectorConfig,
    pub services: Services,
}

/// Validated connection parameters for the database backend.
#[derive(Debug)]
pub struct DBCredentials {
    pub host: String,
    pub port: i16,
    pub database: String,
    pub user: String,
    pub password: String,
}

/// Mathematical model of `DBCredentials`.
pub struct DBCredentialsModel {
    pub host: Seq<char>,
    pub port: i16,
    pub database: Seq<char>,
    pub user: Seq<char>,
    pub password: Seq<char>,
}

impl View for DBCredentials {
    type V = DBCredentialsModel;

    open spec fn view(&self) -> DBCredentialsModel {
        DBCredentialsModel {
            host: self.host@,
            port: self.port,
            database: self.database@,
            user: self.user@,
            password: self.password@,
        }
    }
}

} // verus!
