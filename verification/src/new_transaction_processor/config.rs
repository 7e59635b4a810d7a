//! The processor's settings: from the command line, or from a file with
//! the command line taking precedence.
use vstd::prelude::*;
use crate::settings::{connection_url, or_default, postgres_url, string_or};

verus! {

broadcast use vstd::string::group_string_axioms;

/// The processor's command line.
#[derive(Debug, Clone)]
pub struct Args {
    pub db_host: Option<String>,
    pub db_port: Option<u16>,
    pub db_name: Option<String>,
    pub db_user: Option<String>,
    pub db_password: Option<String>,
    pub db_max_connections: Option<usize>,
    pub workers: Option<usize>,
    pub channel: Option<String>,
    pub retry_attempts: Option<u32>,
    pub retry_delay: Option<u64>,
    pub config: Option<String>,
}

#[derive(Debug, Clone)]
pub struct AppConfig {
    pub database: DatabaseConfig,
    pub workers: WorkerConfig,
    pub processing: ProcessingConfig,
}

#[derive(Debug, Clone)]
pub struct DatabaseConfig {
    pub host: String,
    pub port: u16,
    pub database: String,
    pub username: String,
    pub password: String,
    pub max_connections: usize,
}

#[derive(Debug, Clone)]
pub struct WorkerConfig {
    pub count: usize,
}

#[derive(Debug, Clone)]
pub struct ProcessingConfig {
    pub channel_name: String,
    pub retry_attempts: u32,
    pub retry_delay_ms: u64,
}

/// A configuration as plain values.
pub struct ConfigView {
    pub host: Seq<char>,
    pub port: u16,
    pub database: Seq<char>,
    pub username: Seq<char>,
    pub password: Seq<char>,
    pub max_connections: usize,
    pub workers: usize,
    pub channel_name: Seq<char>,
    pub retry_attempts: u32,
    pub retry_delay_ms: u64,
}

impl View for AppConfig {
    type V = ConfigView;

    open spec fn view(&self) -> ConfigView {
        ConfigView {
            host: self.database.host@,
            port: self.database.port,
            database: self.database.database@,
            username: self.database.username@,
            password: self.database.password@,
            max_connections: self.database.max_connections,
            workers: self.workers.count,
            channel_name: self.processing.channel_name@,
            retry_attempts: self.processing.retry_attempts,
            retry_delay_ms: self.processing.retry_delay_ms,
        }
    }
}

pub open spec fn value_or<T>(o: Option<T>, d: T) -> T {
    match o {
        Some(v) => v,
        None => d,
    }
}

/// The configuration used where nothing is given.
pub open spec fn default_config() -> ConfigView {
    ConfigView {
        host: "localhost"@,
        port: 5432,
        database: "your_database"@,
        username: "your_user"@,
        password: "your_password"@,
        max_connections: 10,
        workers: 4,
        channel_name: "transaction_channel"@,
        retry_attempts: 3,
        retry_delay_ms: 1000,
    }
}

/// The configuration the command line gives, with defaults for what it
/// leaves out.
pub open spec fn config_of_args(args: Args) -> ConfigView {
    ConfigView {
        host: or_default(args.db_host, "localhost"@),
        port: value_or(args.db_port, 5432u16),
        database: or_default(args.db_name, "your_database"@),
        username: or_default(args.db_user, "your_user"@),
        password: or_default(args.db_password, "your_password"@),
        max_connections: value_or(args.db_max_connections, 10usize),
        workers: value_or(args.workers, 4usize),
        channel_name: or_default(args.channel, "transaction_channel"@),
        retry_attempts: value_or(args.retry_attempts, 3u32),
        retry_delay_ms: value_or(args.retry_delay, 1000u64),
    }
}

/// A configuration with every value the command line gives put in place
/// of its own.
pub open spec fn with_args(c: ConfigView, args: Args) -> ConfigView {
    ConfigView {
        host: or_default(args.db_host, c.host),
        port: value_or(args.db_port, c.port),
        database: or_default(args.db_name, c.database),
        username: or_default(args.db_user, c.username),
        password: or_default(args.db_password, c.password),
        max_connections: value_or(args.db_max_connections, c.max_connections),
        workers: value_or(args.workers, c.workers),
        channel_name: or_default(args.channel, c.channel_name),
        retry_attempts: value_or(args.retry_attempts, c.retry_attempts),
        retry_delay_ms: value_or(args.retry_delay, c.retry_delay_ms),
    }
}

/// A command line that sets none of the configuration's values.
pub open spec fn sets_nothing(args: Args) -> bool {
    &&& args.db_host is None
    &&& args.db_port is None
    &&& args.db_name is None
    &&& args.db_user is None
    &&& args.db_password is None
    &&& args.db_max_connections is None
    &&& args.workers is None
    &&& args.channel is None
    &&& args.retry_attempts is None
    &&& args.retry_delay is None
}

impl AppConfig {
    /// The PostgreSQL connection URL of the configured database.
    pub fn connection_string(&self) -> (s: String)
        ensures
            s@ == postgres_url("postgresql"@, self.database.username@, self.database.password@,
                self.database.host@, self.database.port, self.database.database@),
    {
        connection_url("postgresql", self.database.username.as_str(), self.database.password.as_str(),
            self.database.host.as_str(), self.database.port, self.database.database.as_str())
    }

    /// The configuration the command line gives, with defaults for what it
    /// leaves out.
    pub fn from_args(args: &Args) -> (c: Self)
        ensures
            c@ == config_of_args(*args),
    {
        AppConfig {
            database: DatabaseConfig {
                host: string_or(&args.db_host, "localhost"),
                port: match args.db_port { Some(p) => p, None => 5432 },
                database: string_or(&args.db_name, "your_database"),
                username: string_or(&args.db_user, "your_user"),
                password: string_or(&args.db_password, "your_password"),
                max_connections: match args.db_max_connections { Some(m) => m, None => 10 },
            },
            workers: WorkerConfig { count: match args.workers { Some(w) => w, None => 4 } },
            processing: ProcessingConfig {
                channel_name: string_or(&args.channel, "transaction_channel"),
                retry_attempts: match args.retry_attempts { Some(r) => r, None => 3 },
                retry_delay_ms: match args.retry_delay { Some(r) => r, None => 1000 },
            },
        }
    }

    /// Puts every value the command line gives in place of the
    /// configuration's own.
    pub fn apply_args(&mut self, args: &Args)
        ensures
            final(self)@ == with_args(old(self)@, *args),
    {
        if let Some(host) = &args.db_host {
            self.database.host = host.clone();
        }
        if let Some(port) = args.db_port {
            self.database.port = port;
        }
        if let Some(database) = &args.db_name {
            self.database.database = database.clone();
        }
        if let Some(username) = &args.db_user {
            self.database.username = username.clone();
        }
        if let Some(password) = &args.db_password {
            self.database.password = password.clone();
        }
        if let Some(max_connections) = args.db_max_connections {
            self.database.max_connections = max_connections;
        }
        if let Some(workers) = args.workers {
            self.workers.count = workers;
        }
        if let Some(channel) = &args.channel {
            self.processing.channel_name = channel.clone();
        }
        if let Some(retry_attempts) = args.retry_attempts {
            self.processing.retry_attempts = retry_attempts;
        }
        if let Some(retry_delay) = args.retry_delay {
            self.processing.retry_delay_ms = retry_delay;
        }
    }
}

/// Taking the configuration from the command line is the same as applying
/// the command line to the defaults.
pub proof fn lemma_from_args_is_defaults_with_args(args: Args)
    ensures
        config_of_args(args) == with_args(default_config(), args),
{
}

/// Applying the same command line twice changes nothing more than
/// applying it once.
pub proof fn lemma_apply_args_idempotent(c: ConfigView, args: Args)
    ensures
        with_args(with_args(c, args), args) == with_args(c, args),
{
}

/// A command line that sets nothing leaves a configuration as it is.
pub proof fn lemma_apply_nothing(c: ConfigView, args: Args)
    requires
        sets_nothing(args),
    ensures
        with_args(c, args) == c,
{
}

/// Whatever two configurations held, once the same command line is
/// applied they agree on every value it gives.
pub proof fn lemma_command_line_wins(c1: ConfigView, c2: ConfigView, args: Args)
    ensures
        args.db_host is Some ==> with_args(c1, args).host == with_args(c2, args).host,
        args.db_port is Some ==> with_args(c1, args).port == with_args(c2, args).port,
        args.db_name is Some ==> with_args(c1, args).database == with_args(c2, args).database,
        args.db_user is Some ==> with_args(c1, args).username == with_args(c2, args).username,
        args.db_password is Some ==> with_args(c1, args).password == with_args(c2, args).password,
        args.db_max_connections is Some ==> with_args(c1, args).max_connections == with_args(c2, args).max_connections,
        args.workers is Some ==> with_args(c1, args).workers == with_args(c2, args).workers,
        args.channel is Some ==> with_args(c1, args).channel_name == with_args(c2, args).channel_name,
        args.retry_attempts is Some ==> with_args(c1, args).retry_attempts == with_args(c2, args).retry_attempts,
        args.retry_delay is Some ==> with_args(c1, args).retry_delay_ms == with_args(c2, args).retry_delay_ms,
{
}

} // verus!
