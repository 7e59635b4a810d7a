//! The web server's settings, taken from its command line.
use vstd::prelude::*;
use crate::settings::{connection_url, postgres_url};

verus! {

broadcast use vstd::string::group_string_axioms;

/// The web server's command line.
#[derive(Debug, Clone)]
pub struct Args {
    pub db_host: String,
    pub db_port: u16,
    pub db_name: String,
    pub db_user: String,
    pub db_password: String,
    pub db_max_connections: Option<usize>,
    pub worker_threads: Option<usize>,
    pub request_timeout: u64,
    pub rate_limit: u32,
    pub bind_address: String,
}

#[derive(Debug, Clone)]
pub struct AppConfig {
    pub database: DatabaseConfig,
    pub server: ServerConfig,
}

#[derive(Debug, Clone)]
pub struct DatabaseConfig {
    pub host: String,
    pub port: u16,
    pub database: String,
    pub username: String,
    pub password: String,
    pub max_connections: usize,
}

#[derive(Debug, Clone)]
pub struct ServerConfig {
    pub bind_address: String,
    pub request_timeout: u64,
    pub rate_limit: u32,
}

/// The pool size used where none is given: three connections per worker
/// thread, and never fewer than ten.
pub open spec fn default_db_connections(worker_threads: usize) -> int {
    if worker_threads * 3 > 10 { worker_threads * 3 } else { 10 }
}

impl AppConfig {
    /// The configuration the command line gives for a server running
    /// `worker_threads` worker threads.
    pub fn from_args(args: &Args, worker_threads: usize) -> (c: Self)
        requires
            worker_threads * 3 <= usize::MAX,
        ensures
            c.database.host@ == args.db_host@,
            c.database.port == args.db_port,
            c.database.database@ == args.db_name@,
            c.database.username@ == args.db_user@,
            c.database.password@ == args.db_password@,
            c.database.max_connections == (match args.db_max_connections {
                Some(m) => m as int,
                None => default_db_connections(worker_threads),
            }),
            c.server.bind_address@ == args.bind_address@,
            c.server.request_timeout == args.request_timeout,
            c.server.rate_limit == args.rate_limit,
    {
        let scaled = worker_threads * 3;
        let default_db_connections: usize = if scaled > 10 { scaled } else { 10 };
        let max_connections = match args.db_max_connections {
            Some(m) => m,
            None => default_db_connections,
        };
        AppConfig {
            database: DatabaseConfig {
                host: args.db_host.clone(),
                port: args.db_port,
                database: args.db_name.clone(),
                username: args.db_user.clone(),
                password: args.db_password.clone(),
                max_connections,
            },
            server: ServerConfig {
                bind_address: args.bind_address.clone(),
                request_timeout: args.request_timeout,
                rate_limit: args.rate_limit,
            },
        }
    }

    /// The PostgreSQL connection URL of the configured database.
    pub fn connection_string(&self) -> (s: String)
        ensures
            s@ == postgres_url("postgresql"@, self.database.username@, self.database.password@,
                self.database.host@, self.database.port, self.database.database@),
    {
        connection_url("postgresql", self.database.username.as_str(), self.database.password.as_str(),
            self.database.host.as_str(), self.database.port, self.database.database.as_str())
    }
}

} // verus!
