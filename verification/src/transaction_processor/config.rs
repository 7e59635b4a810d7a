//! The transaction processor's settings, taken from its command line.
use vstd::prelude::*;
use crate::settings::{connection_url, or_default, postgres_url, string_or};
use crate::text::{str_equal, trim, trim_spec};

verus! {

broadcast use vstd::string::group_string_axioms;

/// The processor's command line.
#[derive(Debug, Clone)]
pub struct Args {
    pub db_host: Option<String>,
    pub db_port: Option<u16>,
    pub db_name: Option<String>,
    pub db_user: Option<String>,
    pub db_password: Option<String>,
    pub db_max_connections: Option<usize>,
    pub workers: Option<usize>,
    pub channel: Option<String>,
    pub retry_attempts: Option<u32>,
    pub retry_delay: Option<u64>,
    pub network: String,
    pub initialize_db: bool,
    pub upgrade_db: bool,
}

#[derive(Debug, Clone)]
pub struct AppConfig {
    pub database: DatabaseConfig,
    pub workers: WorkerConfig,
    pub processing: ProcessingConfig,
    pub network: String,
}

#[derive(Debug, Clone)]
pub struct DatabaseConfig {
    pub host: String,
    pub port: u16,
    pub database: String,
    pub username: String,
    pub password: String,
    pub max_connections: usize,
}

#[derive(Debug, Clone)]
pub struct WorkerConfig {
    pub count: usize,
}

#[derive(Debug, Clone)]
pub struct ProcessingConfig {
    pub channel_name: String,
    pub retry_attempts: u32,
    pub retry_delay_ms: u64,
}

/// The networks the processor can index.
pub open spec fn is_supported_network(n: Seq<char>) -> bool {
    n == "testnet-10"@ || n == "mainnet"@
}

/// Whether the network named on the command line (surrounding white space
/// ignored) is one the processor supports; the processor refuses to start
/// otherwise.
pub fn network_supported(network: &str) -> (b: bool)
    ensures
        b == is_supported_network(trim_spec(network@)),
{
    let n = trim(network);
    str_equal(n.as_str(), "testnet-10") || str_equal(n.as_str(), "mainnet")
}

impl AppConfig {
    pub fn connection_string(&self) -> (s: String)
        ensures
            s@ == postgres_url("postgresql"@, self.database.username@, self.database.password@,
                self.database.host@, self.database.port, self.database.database@),
    {
        connection_url("postgresql", self.database.username.as_str(), self.database.password.as_str(),
            self.database.host.as_str(), self.database.port, self.database.database.as_str())
    }

    /// The configuration the command line gives, with defaults for what it
    /// leaves out; the network is kept without surrounding white space.
    pub fn from_args(args: &Args) -> (c: Self)
        requires
            is_supported_network(trim_spec(args.network@)),
        ensures
            c.database.host@ == or_default(args.db_host, "localhost"@),
            c.database.port == (match args.db_port { Some(p) => p, None => 5432 }),
            c.database.database@ == or_default(args.db_name, "your_database"@),
            c.database.username@ == or_default(args.db_user, "your_user"@),
            c.database.password@ == or_default(args.db_password, "your_password"@),
            c.database.max_connections == (match args.db_max_connections { Some(m) => m, None => 10 }),
            c.workers.count == (match args.workers { Some(w) => w, None => 4 }),
            c.processing.channel_name@ == or_default(args.channel, "transaction_channel"@),
            c.processing.retry_attempts == (match args.retry_attempts { Some(r) => r, None => 3 }),
            c.processing.retry_delay_ms == (match args.retry_delay { Some(r) => r, None => 1000 }),
            c.network@ == trim_spec(args.network@),
    {
        let network = trim(args.network.as_str());
        AppConfig {
            database: DatabaseConfig {
                host: string_or(&args.db_host, "localhost"),
                port: match args.db_port { Some(p) => p, None => 5432 },
                database: string_or(&args.db_name, "your_database"),
                username: string_or(&args.db_user, "your_user"),
                password: string_or(&args.db_password, "your_password"),
                max_connections: match args.db_max_connections { Some(m) => m, None => 10 },
            },
            workers: WorkerConfig { count: match args.workers { Some(w) => w, None => 4 } },
            processing: ProcessingConfig {
                channel_name: string_or(&args.channel, "transaction_channel"),
                retry_attempts: match args.retry_attempts { Some(r) => r, None => 3 },
                retry_delay_ms: match args.retry_delay { Some(r) => r, None => 1000 },
            },
            network,
        }
    }
}

} // verus!
