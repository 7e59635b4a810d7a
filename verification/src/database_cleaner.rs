//! The database cleaner: a node dedicated to one user keeps only what that
//! user needs, purging in cycles of five operations.
use vstd::prelude::*;
use crate::settings::{connection_url, postgres_url};

verus! {

broadcast use vstd::string::group_string_axioms;

/// The cleaner's command line.
#[derive(Debug, Clone)]
pub struct Args {
    pub db_host: String,
    pub db_port: u16,
    pub db_name: String,
    pub db_user: String,
    pub db_password: String,
    pub db_max_connections: usize,
    pub user_pubkey: String,
    pub purge_interval: u64,
    pub data_retention_hours: u64,
}

pub struct AppConfig {
    pub database: DatabaseConfig,
    pub user_pubkey: String,
    pub purge_interval: u64,
    pub data_retention_hours: u64,
}

pub struct DatabaseConfig {
    pub host: String,
    pub port: u16,
    pub database: String,
    pub user: String,
    pub password: String,
    pub max_connections: usize,
}

impl AppConfig {
    /// The configuration the command line gives.
    pub fn from_args(args: &Args) -> (c: Self)
        ensures
            c.database.host@ == args.db_host@,
            c.database.port == args.db_port,
            c.database.database@ == args.db_name@,
            c.database.user@ == args.db_user@,
            c.database.password@ == args.db_password@,
            c.database.max_connections == args.db_max_connections,
            c.user_pubkey@ == args.user_pubkey@,
            c.purge_interval == args.purge_interval,
            c.data_retention_hours == args.data_retention_hours,
    {
        AppConfig {
            database: DatabaseConfig {
                host: args.db_host.clone(),
                port: args.db_port,
                database: args.db_name.clone(),
                user: args.db_user.clone(),
                password: args.db_password.clone(),
                max_connections: args.db_max_connections,
            },
            user_pubkey: args.user_pubkey.clone(),
            purge_interval: args.purge_interval,
            data_retention_hours: args.data_retention_hours,
        }
    }

    /// The PostgreSQL connection URL of the configured database.
    pub fn connection_string(&self) -> (s: String)
        ensures
            s@ == postgres_url("postgres"@, self.database.user@, self.database.password@,
                self.database.host@, self.database.port, self.database.database@),
    {
        connection_url("postgres", self.database.user.as_str(), self.database.password.as_str(),
            self.database.host.as_str(), self.database.port, self.database.database.as_str())
    }
}

/// Milliseconds in an hour.
pub const MILLIS_PER_HOUR: i64 = 3_600_000;

/// The block time before which posts and quotes of users the dedicated
/// user does not follow are purged: the retention period before now, in
/// milliseconds.
pub fn retention_cutoff_ms(now_ms: i64, data_retention_hours: u64) -> (cutoff: i64)
    requires
        data_retention_hours <= i64::MAX,
        data_retention_hours * MILLIS_PER_HOUR <= i64::MAX,
        now_ms - data_retention_hours * MILLIS_PER_HOUR >= i64::MIN,
    ensures
        cutoff == now_ms - data_retention_hours * MILLIS_PER_HOUR,
{
    let hours = data_retention_hours as i64;
    now_ms - hours * 3600 * 1000
}

/// The purge operations of a cycle, in the order they run: the dedicated
/// user's blocks and follows only; content of blocked users; old posts and
/// quotes of users not followed; replies to purged content; votes on
/// purged content.
pub const PURGE_OPERATIONS: u8 = 5;

/// What the cleaner does after an operation.
#[derive(Debug, Clone, Copy, PartialEq, Eq)]
pub enum PurgeAction {
    /// Run this operation next.
    Run(u8),
    /// The cycle is over (complete, or cut short by a failure): wait for
    /// the purge interval, then start again with the first operation.
    WaitForNextCycle,
}

/// The first operation of every cycle.
pub fn first_operation() -> (op: u8)
    ensures
        op == 1,
{
    1
}

/// The step after operation `op`: the next operation where it succeeded
/// and one remains; otherwise the cycle ends, a failure skipping the
/// operations after it.
pub fn after_operation(op: u8, succeeded: bool) -> (a: PurgeAction)
    requires
        1 <= op <= PURGE_OPERATIONS,
    ensures
        a == (if succeeded && op < PURGE_OPERATIONS {
            PurgeAction::Run((op + 1) as u8)
        } else {
            PurgeAction::WaitForNextCycle
        }),
{
    if succeeded && op < PURGE_OPERATIONS {
        PurgeAction::Run(op + 1)
    } else {
        PurgeAction::WaitForNextCycle
    }
}

} // verus!
