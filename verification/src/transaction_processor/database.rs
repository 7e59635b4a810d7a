//! The transaction processor's view of the database: the transaction rows it
//! reads, the schema versions it migrates between, and the check it runs on
//! the schema once set up.
use vstd::prelude::*;
use crate::codec::{hex_decode, hex_decode_spec, hex_encode, hex_encode_spec};
use crate::text::{
    chars_of, int_decimal, parse_i32, parse_i32_spec, push_i64, push_str, split_chars, split_on, trim, trim_spec,
};

verus! {

broadcast use vstd::string::group_string_axioms;

/// A chain transaction, its id and payload hex-encoded.
#[derive(Debug, Clone)]
pub struct Transaction {
    pub transaction_id: String,
    pub payload: Option<String>,
    pub block_time: Option<i64>,
}

impl Transaction {
    /// The transaction as stored: raw id and payload bytes, hex-encoded here.
    pub fn from_row(transaction_id: &[u8], payload: Option<Vec<u8>>, block_time: Option<i64>) -> (t: Transaction)
        ensures
            t.transaction_id@ == hex_encode_spec(transaction_id@),
            match payload {
                Some(p) => t.payload matches Some(h) && h@ == hex_encode_spec(p@),
                None => t.payload is None,
            },
            t.block_time == block_time,
    {
        let payload_hex = match payload {
            Some(p) => Some(hex_encode(p.as_slice())),
            None => None,
        };
        Transaction { transaction_id: hex_encode(transaction_id), payload: payload_hex, block_time }
    }
}

/// The id to look a notified transaction up by: the notification carries it
/// hex-encoded; `None` where it is not hex.
pub fn transaction_lookup_key(transaction_id_hex: &str) -> (r: Option<Vec<u8>>)
    ensures
        match r {
            Some(b) => hex_decode_spec(transaction_id_hex@) == Some(b@),
            None => hex_decode_spec(transaction_id_hex@) is None,
        },
{
    match hex_decode(transaction_id_hex) {
        Ok(b) => Some(b),
        Err(_) => None,
    }
}

// ---------------------------------------------------------------------------
// Migration scripts
// ---------------------------------------------------------------------------

/// The statements of a migration script: the text between semicolons,
/// leaving out those that are only white space.
pub open spec fn ddl_statements_spec(ddl: Seq<char>) -> Seq<Seq<char>> {
    split_on(ddl, ';').filter(|stmt: Seq<char>| trim_spec(stmt).len() > 0)
}

/// Splits a migration script into the statements that are run one by one.
pub fn ddl_statements(ddl: &str) -> (r: Vec<String>)
    ensures
        r.deep_view() == ddl_statements_spec(ddl@),
{
    let v = chars_of(ddl);
    let parts = split_chars(&v, ';');
    let ghost all = parts.deep_view();
    let mut out: Vec<String> = Vec::new();
    let mut i: usize = 0;
    while i < parts.len()
        invariant
            i <= parts.len(),
            all == parts.deep_view(),
            all == split_on(ddl@, ';'),
            out.deep_view() == all.take(i as int).filter(|stmt: Seq<char>| trim_spec(stmt).len() > 0),
        decreases parts.len() - i,
    {
        proof {
            reveal(Seq::filter);
            assert(all.take(i + 1).drop_last() =~= all.take(i as int));
            assert(all.take(i + 1).last() == all[i as int]);
        }
        let t = trim(parts[i].as_str());
        if t.as_str().unicode_len() > 0 {
            let ghost before = out.deep_view();
            out.push(parts[i].clone());
            assert(out.deep_view() =~= before.push(parts[i as int]@));
        }
        i = i + 1;
    }
    assert(all.take(all.len() as int) =~= all);
    out
}

// ---------------------------------------------------------------------------
// Schema versions
// ---------------------------------------------------------------------------

/// The schema version this processor writes and expects.
pub const SCHEMA_VERSION: i32 = 8;

/// What to do with the schema found in the database.
#[derive(Debug, Clone, PartialEq, Eq)]
pub enum SchemaPlan {
    /// No schema yet: create the current one and the notification trigger.
    CreateFresh,
    /// The schema is current.
    UpToDate,
    /// Apply the migrations `from -> from + 1` for each `from` listed, in order.
    Upgrade(Vec<i32>),
}

/// Why the schema cannot be used.
#[derive(Debug, Clone, PartialEq, Eq)]
pub enum SchemaError {
    /// An older schema was found and upgrading was not asked for.
    Outdated(i32),
    /// A newer schema than this processor knows was found.
    Unsupported(i32),
    /// The stored version is not a number.
    InvalidVersionFormat(String),
    /// The version found after setup is not the current one.
    VersionMismatch(i32),
    /// No version was found after setup.
    VersionNotFound,
    /// Tables, trigger or indexes are missing after setup.
    VerificationFailed,
}

/// The text a schema error is reported with.
pub open spec fn schema_error_text(e: SchemaError) -> Seq<char> {
    match e {
        SchemaError::Outdated(v) => "Found outdated schema v"@ + int_decimal(v as int)
            + ". Set flag '--upgrade-db' to upgrade"@,
        SchemaError::Unsupported(v) => "Found newer & unsupported schema version "@ + int_decimal(v as int)
            + ". Current supported version is "@ + int_decimal(SCHEMA_VERSION as int),
        SchemaError::InvalidVersionFormat(s) => "Invalid schema version format: "@ + s@,
        SchemaError::VersionMismatch(_) => "Schema version mismatch"@,
        SchemaError::VersionNotFound => "Schema version not found"@,
        SchemaError::VerificationFailed => "Schema setup verification failed"@,
    }
}

impl SchemaError {
    /// The error as it is reported.
    pub fn message(&self) -> (m: String)
        ensures
            m@ == schema_error_text(*self),
    {
        let mut m = String::new();
        match self {
            SchemaError::Outdated(v) => {
                push_str(&mut m, "Found outdated schema v");
                push_i64(&mut m, *v as i64);
                push_str(&mut m, ". Set flag '--upgrade-db' to upgrade");
            },
            SchemaError::Unsupported(v) => {
                push_str(&mut m, "Found newer & unsupported schema version ");
                push_i64(&mut m, *v as i64);
                push_str(&mut m, ". Current supported version is ");
                push_i64(&mut m, SCHEMA_VERSION as i64);
            },
            SchemaError::InvalidVersionFormat(s) => {
                push_str(&mut m, "Invalid schema version format: ");
                push_str(&mut m, s.as_str());
            },
            SchemaError::VersionMismatch(_) => push_str(&mut m, "Schema version mismatch"),
            SchemaError::VersionNotFound => push_str(&mut m, "Schema version not found"),
            SchemaError::VerificationFailed => push_str(&mut m, "Schema setup verification failed"),
        }
        assert(m@ =~= schema_error_text(*self));
        m
    }
}

/// The migrations applied to a schema of version `v` (older than the current
/// one) to bring it up to date: one step per version from `v` on; none for a
/// version below zero, which no migration starts from.
pub open spec fn upgrade_steps(v: int) -> Seq<i32> {
    if v < 0 {
        Seq::empty()
    } else {
        Seq::new((SCHEMA_VERSION - v) as nat, |i: int| (v + i) as i32)
    }
}

/// What `create_schema` does with the version it found (`None`: no schema).
pub open spec fn schema_plan_spec(found: Option<i32>, upgrade_db: bool) -> Result<Seq<i32>, SchemaError> {
    match found {
        None => Ok(Seq::empty()),
        Some(v) => if v < SCHEMA_VERSION {
            if upgrade_db { Ok(upgrade_steps(v as int)) } else { Err(SchemaError::Outdated(v)) }
        } else if v > SCHEMA_VERSION {
            Err(SchemaError::Unsupported(v))
        } else {
            Ok(Seq::empty())
        },
    }
}

/// Decide how to bring the schema found in the database to the current
/// version.
pub fn plan_schema(found: Option<i32>, upgrade_db: bool) -> (r: Result<SchemaPlan, SchemaError>)
    ensures
        match r {
            Ok(SchemaPlan::CreateFresh) => found is None,
            Ok(SchemaPlan::UpToDate) => found == Some(SCHEMA_VERSION),
            Ok(SchemaPlan::Upgrade(steps)) => found matches Some(v) && v < SCHEMA_VERSION && upgrade_db
                && schema_plan_spec(found, upgrade_db) == Ok::<Seq<i32>, SchemaError>(steps@),
            Err(e) => schema_plan_spec(found, upgrade_db) == Err::<Seq<i32>, SchemaError>(e),
        },
        found is None ==> r == Ok::<SchemaPlan, SchemaError>(SchemaPlan::CreateFresh),
        found == Some(SCHEMA_VERSION) ==> r == Ok::<SchemaPlan, SchemaError>(SchemaPlan::UpToDate),
        (found matches Some(v) && v < SCHEMA_VERSION && upgrade_db) ==> r is Ok && r->Ok_0 is Upgrade,
{
    match found {
        None => Ok(SchemaPlan::CreateFresh),
        Some(version) => {
            if version < SCHEMA_VERSION {
                if upgrade_db {
                    let mut steps: Vec<i32> = Vec::new();
                    let mut current = version;
                    if current >= 0 {
                        while current < SCHEMA_VERSION
                            invariant
                                0 <= version <= current <= SCHEMA_VERSION,
                                steps@ == upgrade_steps(version as int).take(current - version),
                            decreases SCHEMA_VERSION - current,
                        {
                            steps.push(current);
                            assert(upgrade_steps(version as int).take(current + 1 - version)
                                == upgrade_steps(version as int).take(current - version).push(current));
                            current = current + 1;
                        }
                        assert(upgrade_steps(version as int).take(SCHEMA_VERSION - version) == upgrade_steps(version as int));
                    } else {
                        assert(steps@ == upgrade_steps(version as int));
                    }
                    Ok(SchemaPlan::Upgrade(steps))
                } else {
                    Err(SchemaError::Outdated(version))
                }
            } else if version > SCHEMA_VERSION {
                Err(SchemaError::Unsupported(version))
            } else {
                Ok(SchemaPlan::UpToDate)
            }
        },
    }
}

/// The stored schema version, read from its text: `Err` where it is not an
/// `i32` as `str::parse` reads one.
pub fn parse_schema_version(value: &str) -> (r: Result<i32, SchemaError>)
    ensures
        match parse_i32_spec(value@) {
            Some(v) => r == Ok::<i32, SchemaError>(v),
            None => r matches Err(SchemaError::InvalidVersionFormat(s)) && s@ == value@,
        },
{
    match parse_i32(value) {
        Some(v) => Ok(v),
        None => Err(SchemaError::InvalidVersionFormat(value.to_string())),
    }
}

// ---------------------------------------------------------------------------
// Schema verification
// ---------------------------------------------------------------------------

/// The names of the tables the K protocol needs.
pub open spec fn expected_table_names() -> Seq<Seq<char>> {
    seq!["k_contents"@, "k_broadcasts"@, "k_votes"@, "k_mentions"@, "k_blocks"@, "k_follows"@]
}

/// The tables the K protocol needs.
pub fn expected_tables() -> (t: Vec<&'static str>)
    ensures
        t@.map_values(|n: &'static str| n@) == expected_table_names(),
{
    vec!["k_contents", "k_broadcasts", "k_votes", "k_mentions", "k_blocks", "k_follows"]
}

/// The names of the indexes the current schema defines.
pub open spec fn expected_index_names() -> Seq<Seq<char>> {
    seq![
        "idx_k_broadcasts_transaction_id"@,
        "idx_k_broadcasts_sender_pubkey"@,
        "idx_k_broadcasts_sender_signature"@,
        "idx_k_broadcasts_block_time"@,
        "idx_k_votes_transaction_id"@,
        "idx_k_votes_sender_pubkey"@,
        "idx_k_votes_sender_signature"@,
        "idx_k_votes_post_id"@,
        "idx_k_votes_vote"@,
        "idx_k_votes_block_time"@,
        "idx_k_mentions_content_id"@,
        "idx_k_mentions_mentioned_pubkey"@,
        "idx_k_mentions_content_type"@,
        "idx_k_votes_post_id_sender"@,
        "idx_k_mentions_content_type_id"@,
        "idx_k_blocks_transaction_id"@,
        "idx_k_blocks_sender_signature"@,
        "idx_k_blocks_sender_blocked_user"@,
        "idx_k_blocks_sender_pubkey"@,
        "idx_k_blocks_blocked_user_pubkey"@,
        "idx_k_blocks_block_time"@,
        "idx_k_mentions_comprehensive"@,
        "idx_k_contents_transaction_id"@,
        "idx_k_contents_sender_signature"@,
        "idx_k_contents_sender_pubkey"@,
        "idx_k_contents_block_time"@,
        "idx_k_contents_replies"@,
        "idx_k_contents_reposts"@,
        "idx_k_contents_quotes"@,
        "idx_k_contents_feed_covering"@,
        "idx_k_contents_content_type"@,
        "idx_k_contents_sender_content_type"@,
        "idx_k_follows_transaction_id"@,
        "idx_k_follows_sender_signature"@,
        "idx_k_follows_sender_followed_user"@,
        "idx_k_follows_followed_user_pubkey"@,
        "idx_k_follows_sender_pubkey"@,
        "idx_k_follows_block_time"@,
    ]
}

/// The indexes the current schema defines.
pub fn expected_indexes() -> (t: Vec<&'static str>)
    ensures
        t@.map_values(|n: &'static str| n@) == expected_index_names(),
{
    vec![
        "idx_k_broadcasts_transaction_id",
        "idx_k_broadcasts_sender_pubkey",
        "idx_k_broadcasts_sender_signature",
        "idx_k_broadcasts_block_time",
        "idx_k_votes_transaction_id",
        "idx_k_votes_sender_pubkey",
        "idx_k_votes_sender_signature",
        "idx_k_votes_post_id",
        "idx_k_votes_vote",
        "idx_k_votes_block_time",
        "idx_k_mentions_content_id",
        "idx_k_mentions_mentioned_pubkey",
        "idx_k_mentions_content_type",
        "idx_k_votes_post_id_sender",
        "idx_k_mentions_content_type_id",
        "idx_k_blocks_transaction_id",
        "idx_k_blocks_sender_signature",
        "idx_k_blocks_sender_blocked_user",
        "idx_k_blocks_sender_pubkey",
        "idx_k_blocks_blocked_user_pubkey",
        "idx_k_blocks_block_time",
        "idx_k_mentions_comprehensive",
        "idx_k_contents_transaction_id",
        "idx_k_contents_sender_signature",
        "idx_k_contents_sender_pubkey",
        "idx_k_contents_block_time",
        "idx_k_contents_replies",
        "idx_k_contents_reposts",
        "idx_k_contents_quotes",
        "idx_k_contents_feed_covering",
        "idx_k_contents_content_type",
        "idx_k_contents_sender_content_type",
        "idx_k_follows_transaction_id",
        "idx_k_follows_sender_signature",
        "idx_k_follows_sender_followed_user",
        "idx_k_follows_followed_user_pubkey",
        "idx_k_follows_sender_pubkey",
        "idx_k_follows_block_time",
    ]
}

/// What the database showed when the schema was checked.
#[derive(Debug, Clone)]
pub struct SchemaObservation {
    /// The schema version found, if any.
    pub version: Option<i32>,
    /// For each of `expected_tables`, in order, whether it exists.
    pub tables_found: Vec<bool>,
    pub notify_function_found: bool,
    pub notify_trigger_found: bool,
    /// For each of `expected_indexes`, in order, whether it exists.
    pub indexes_found: Vec<bool>,
    /// How many indexes named `idx_k_%` exist.
    pub index_count: i64,
}

pub open spec fn all_true(s: Seq<bool>) -> bool {
    forall|i: int| 0 <= i < s.len() ==> s[i]
}

/// The check passes when the current version is recorded and every table,
/// the trigger with its function, and exactly the expected indexes exist:
/// one finding for each expected table and index, each of them found.
pub open spec fn schema_verdict_spec(o: SchemaObservation) -> Result<(), SchemaError> {
    match o.version {
        None => Err(SchemaError::VersionNotFound),
        Some(v) => if v != SCHEMA_VERSION {
            Err(SchemaError::VersionMismatch(v))
        } else if o.tables_found@.len() == expected_table_names().len() && all_true(o.tables_found@)
            && o.notify_function_found && o.notify_trigger_found
            && o.indexes_found@.len() == expected_index_names().len() && all_true(o.indexes_found@)
            && o.index_count == 38 {
            Ok(())
        } else {
            Err(SchemaError::VerificationFailed)
        },
    }
}

fn all_set(v: &Vec<bool>) -> (b: bool)
    ensures
        b == all_true(v@),
{
    let mut i: usize = 0;
    while i < v.len()
        invariant
            i <= v.len(),
            forall|j: int| 0 <= j < i ==> v@[j],
        decreases v.len() - i,
    {
        if !v[i] {
            return false;
        }
        i = i + 1;
    }
    true
}

/// The verdict on a schema check.
pub fn schema_verdict(o: &SchemaObservation) -> (r: Result<(), SchemaError>)
    ensures
        r == schema_verdict_spec(*o),
{
    match o.version {
        None => Err(SchemaError::VersionNotFound),
        Some(v) => {
            if v != SCHEMA_VERSION {
                return Err(SchemaError::VersionMismatch(v));
            }
            let tables_ok = all_set(&o.tables_found);
            let indexes_ok = all_set(&o.indexes_found);
            let tables_complete = o.tables_found.len() == 6;
            let indexes_complete = o.indexes_found.len() == 38;
            if tables_complete && tables_ok && o.notify_function_found && o.notify_trigger_found && indexes_complete
                && indexes_ok && o.index_count == 38 {
                Ok(())
            } else {
                Err(SchemaError::VerificationFailed)
            }
        },
    }
}

/// A planned upgrade leaves the schema at the current version: the steps
/// run from the version found up to the one before the current, each one
/// version higher than the last.
pub proof fn lemma_upgrade_reaches_current(v: i32)
    requires
        0 <= v < SCHEMA_VERSION,
    ensures
        upgrade_steps(v as int).len() == SCHEMA_VERSION - v,
        upgrade_steps(v as int)[0] == v,
        upgrade_steps(v as int).last() + 1 == SCHEMA_VERSION,
        forall|i: int| 0 < i < upgrade_steps(v as int).len()
            ==> #[trigger] upgrade_steps(v as int)[i] == upgrade_steps(v as int)[i - 1] + 1,
{
}

} // verus!
