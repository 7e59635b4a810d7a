//! The content remover: it deletes everything one user created, after a
//! preview, and unless told otherwise only once the operator confirms.
use vstd::prelude::*;
use crate::settings::{connection_url, postgres_url};
use crate::text::{str_equal, trim, trim_spec};

verus! {

broadcast use vstd::string::group_string_axioms;

/// The remover's command line.
#[derive(Debug, Clone)]
pub struct Args {
    pub db_host: String,
    pub db_port: u16,
    pub db_name: String,
    pub db_user: String,
    pub db_password: String,
    pub db_max_connections: usize,
    pub target_user_pubkey: String,
    pub dry_run: bool,
    pub skip_confirmation: bool,
}

pub struct AppConfig {
    pub database: DatabaseConfig,
    pub target_user_pubkey: String,
    pub dry_run: bool,
    pub skip_confirmation: bool,
}

pub struct DatabaseConfig {
    pub host: String,
    pub port: u16,
    pub database: String,
    pub user: String,
    pub password: String,
    pub max_connections: usize,
}

impl AppConfig {
    /// The configuration the command line gives.
    pub fn from_args(args: &Args) -> (c: Self)
        ensures
            c.database.host@ == args.db_host@,
            c.database.port == args.db_port,
            c.database.database@ == args.db_name@,
            c.database.user@ == args.db_user@,
            c.database.password@ == args.db_password@,
            c.database.max_connections == args.db_max_connections,
            c.target_user_pubkey@ == args.target_user_pubkey@,
            c.dry_run == args.dry_run,
            c.skip_confirmation == args.skip_confirmation,
    {
        AppConfig {
            database: DatabaseConfig {
                host: args.db_host.clone(),
                port: args.db_port,
                database: args.db_name.clone(),
                user: args.db_user.clone(),
                password: args.db_password.clone(),
                max_connections: args.db_max_connections,
            },
            target_user_pubkey: args.target_user_pubkey.clone(),
            dry_run: args.dry_run,
            skip_confirmation: args.skip_confirmation,
        }
    }

    /// The PostgreSQL connection URL of the configured database.
    pub fn connection_string(&self) -> (s: String)
        ensures
            s@ == postgres_url("postgres"@, self.database.user@, self.database.password@,
                self.database.host@, self.database.port, self.database.database@),
    {
        connection_url("postgres", self.database.user.as_str(), self.database.password.as_str(),
            self.database.host.as_str(), self.database.port, self.database.database.as_str())
    }
}

/// How many rows of each table a removal deletes (or would delete).
#[derive(Debug)]
pub struct RemovalStats {
    pub mentions_deleted: i64,
    pub contents_deleted: i64,
    pub votes_deleted: i64,
    pub broadcasts_deleted: i64,
    pub blocks_deleted: i64,
    pub follows_deleted: i64,
}

/// The running sums of the counts, in the order they are added.
pub open spec fn partial_sums(s: RemovalStats) -> Seq<int> {
    let a = s.mentions_deleted + s.contents_deleted;
    let b = a + s.votes_deleted;
    let c = b + s.broadcasts_deleted;
    let d = c + s.blocks_deleted;
    let e = d + s.follows_deleted;
    seq![a, b, c, d, e]
}

/// The counts can be added up without leaving the range of `i64`.
pub open spec fn sums_fit(s: RemovalStats) -> bool {
    forall|k: int| 0 <= k < 5 ==> i64::MIN <= #[trigger] partial_sums(s)[k] <= i64::MAX
}

/// All rows counted.
pub open spec fn stats_total(s: RemovalStats) -> int {
    s.mentions_deleted + s.contents_deleted + s.votes_deleted + s.broadcasts_deleted + s.blocks_deleted
        + s.follows_deleted
}

impl RemovalStats {
    /// The rows counted over all tables.
    pub fn total(&self) -> (t: i64)
        requires
            sums_fit(*self),
        ensures
            t == stats_total(*self),
    {
        assert(i64::MIN <= partial_sums(*self)[0] <= i64::MAX);
        assert(i64::MIN <= partial_sums(*self)[1] <= i64::MAX);
        assert(i64::MIN <= partial_sums(*self)[2] <= i64::MAX);
        assert(i64::MIN <= partial_sums(*self)[3] <= i64::MAX);
        assert(i64::MIN <= partial_sums(*self)[4] <= i64::MAX);
        self.mentions_deleted + self.contents_deleted + self.votes_deleted + self.broadcasts_deleted
            + self.blocks_deleted + self.follows_deleted
    }

    /// Whether nothing was counted at all.
    pub fn is_empty(&self) -> (b: bool)
        requires
            sums_fit(*self),
        ensures
            b == (stats_total(*self) == 0),
    {
        self.total() == 0
    }
}

/// What the remover does once it has previewed a removal.
#[derive(Debug, Clone, Copy, PartialEq, Eq)]
pub enum RemovalPlan {
    /// The user has nothing stored: nothing to do.
    NothingToRemove,
    /// A dry run: report and stop.
    DryRun,
    /// Ask the operator to confirm first.
    AskConfirmation,
    /// Delete at once.
    Execute,
}

/// The step after a preview: nothing found ends the run, a dry run stops
/// after the preview, and deletion waits for confirmation unless that was
/// waived.
pub fn plan_removal(config: &AppConfig, preview: &RemovalStats) -> (p: RemovalPlan)
    requires
        sums_fit(*preview),
    ensures
        p == (if stats_total(*preview) == 0 {
            RemovalPlan::NothingToRemove
        } else if config.dry_run {
            RemovalPlan::DryRun
        } else if !config.skip_confirmation {
            RemovalPlan::AskConfirmation
        } else {
            RemovalPlan::Execute
        }),
{
    if preview.is_empty() {
        RemovalPlan::NothingToRemove
    } else if config.dry_run {
        RemovalPlan::DryRun
    } else if !config.skip_confirmation {
        RemovalPlan::AskConfirmation
    } else {
        RemovalPlan::Execute
    }
}

/// Whether the operator's answer confirms the deletion: exactly `DELETE`,
/// surrounding white space aside.
pub fn confirmation_given(input: &str) -> (b: bool)
    ensures
        b == (trim_spec(input@) == "DELETE"@),
{
    let answer = trim(input);
    str_equal(answer.as_str(), "DELETE")
}

} // verus!
