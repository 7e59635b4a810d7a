//! What the web server's database layer decides on its own: its error type,
//! the paging options and their defaults, compound cursors and how they are
//! read back, the cursor and order clauses added to a query with the
//! parameters bound to them, how a fetched page is trimmed and described,
//! and how rows become records.
use vstd::prelude::*;
use crate::codec::{hex_decode, hex_decode_error_text, hex_decode_spec, hex_encode, hex_encode_spec};
use crate::text::{
    chars_of, concat2, contains_char, int_decimal, lemma_nat_decimal_digits,
    lemma_parse_i64_of_decimal, lemma_parse_u64_of_decimal, lemma_split_on_pair, nat_decimal,
    parse_i64, parse_i64_spec, parse_u64, parse_u64_spec, push_str, push_u64, split_chars, split_on,
    str_equal,
};
use crate::webserver::models::{
    compound_cursor, create_compound_cursor, opt_str, ContentRecord, KBroadcastRecord,
    KPostRecord, KReplyRecord, KVoteRecord, NotificationContentRecord, PaginationMetadata,
};

verus! {

broadcast use vstd::string::group_string_axioms;

// ---------------------------------------------------------------------------
// Errors, options, results
// ---------------------------------------------------------------------------

/// Why a database operation failed.
#[derive(Debug, Clone)]
pub enum DatabaseError {
    ConnectionError(String),
    QueryError(String),
    SerializationError(String),
    NotFound,
    InvalidInput(String),
}

/// The text a database error is shown as.
pub open spec fn database_error_text(e: DatabaseError) -> Seq<char> {
    match e {
        DatabaseError::ConnectionError(m) => "Connection error: "@ + m@,
        DatabaseError::QueryError(m) => "Query error: "@ + m@,
        DatabaseError::SerializationError(m) => "Serialization error: "@ + m@,
        DatabaseError::NotFound => "Record not found"@,
        DatabaseError::InvalidInput(m) => "Invalid input: "@ + m@,
    }
}

impl DatabaseError {
    /// The error as text, as it is logged and shown.
    pub fn message(&self) -> (m: String)
        ensures
            m@ == database_error_text(*self),
    {
        match self {
            DatabaseError::ConnectionError(msg) => concat2("Connection error: ", msg.as_str()),
            DatabaseError::QueryError(msg) => concat2("Query error: ", msg.as_str()),
            DatabaseError::SerializationError(msg) => concat2("Serialization error: ", msg.as_str()),
            DatabaseError::NotFound => "Record not found".to_string(),
            DatabaseError::InvalidInput(msg) => concat2("Invalid input: ", msg.as_str()),
        }
    }
}

/// How a page of results is asked for: at most `limit` items (20 where
/// none is given), strictly before or after a compound cursor, newest
/// first unless `sort_descending` is off.
#[derive(Debug, Clone)]
pub struct QueryOptions {
    pub limit: Option<u64>,
    pub before: Option<String>,
    pub after: Option<String>,
    pub sort_descending: bool,
}

impl Default for QueryOptions {
    fn default() -> (o: Self)
        ensures
            o.limit is None,
            o.before is None,
            o.after is None,
            o.sort_descending,
    {
        QueryOptions { limit: None, before: None, after: None, sort_descending: true }
    }
}

/// A page of items with its pagination metadata.
#[derive(Debug, Clone)]
pub struct PaginatedResult<T> {
    pub items: Vec<T>,
    pub pagination: PaginationMetadata,
}

/// Row counts of the main tables.
#[derive(Debug, Clone)]
pub struct DatabaseStats {
    pub broadcasts_count: i64,
    pub posts_count: i64,
    pub replies_count: i64,
    pub quotes_count: i64,
    pub votes_count: i64,
    pub follows_count: i64,
    pub blocks_count: i64,
}

// ---------------------------------------------------------------------------
// Hex columns
// ---------------------------------------------------------------------------

/// A hex-encoded key or id as the bytes stored in the database; refused,
/// with hex's own words, where it is not hex.
pub fn decode_hex_to_bytes(hex_str: &str) -> (r: Result<Vec<u8>, DatabaseError>)
    ensures
        match r {
            Ok(b) => hex_decode_spec(hex_str@) == Some(b@),
            Err(e) => hex_decode_spec(hex_str@) is None
                && e == DatabaseError::InvalidInput(e->InvalidInput_0)
                && e->InvalidInput_0@ == "Invalid hex string: "@ + hex_decode_error_text(hex_str@),
        },
{
    match hex_decode(hex_str) {
        Ok(b) => Ok(b),
        Err(text) => Err(DatabaseError::InvalidInput(concat2("Invalid hex string: ", text.as_str()))),
    }
}

/// Stored bytes as lower-case hex.
pub fn encode_bytes_to_hex(bytes: &[u8]) -> (s: String)
    ensures
        s@ == hex_encode_spec(bytes@),
{
    hex_encode(bytes)
}

// ---------------------------------------------------------------------------
// Compound cursors
// ---------------------------------------------------------------------------

/// Why a cursor could not be read.
#[derive(Debug, Clone, Copy, PartialEq, Eq)]
pub enum CursorFault {
    BadTimestamp,
    BadId,
    BadFormat,
}

/// The message each cursor fault is reported with.
pub open spec fn cursor_fault_message(f: CursorFault) -> Seq<char> {
    match f {
        CursorFault::BadTimestamp => "Invalid timestamp in cursor"@,
        CursorFault::BadId => "Invalid ID in cursor"@,
        CursorFault::BadFormat => "Invalid cursor format"@,
    }
}

/// How a cursor is read: `<timestamp>_<id>` gives both; text with no single
/// `_` is read as a bare timestamp, which stands for every id at that time
/// (`i64::MAX`).
pub open spec fn parse_cursor_spec(c: Seq<char>) -> Result<(u64, i64), CursorFault> {
    let parts = split_on(c, '_');
    if c.contains('_') && parts.len() == 2 {
        match parse_u64_spec(parts[0]) {
            None => Err(CursorFault::BadTimestamp),
            Some(t) => match parse_i64_spec(parts[1]) {
                None => Err(CursorFault::BadId),
                Some(i) => Ok((t, i)),
            },
        }
    } else {
        match parse_u64_spec(c) {
            None => Err(CursorFault::BadFormat),
            Some(t) => Ok((t, i64::MAX)),
        }
    }
}

/// What a cursor option contributes to a query: its position where it can
/// be read; an unreadable cursor is left out.
pub open spec fn readable_cursor(c: Option<Seq<char>>) -> Option<(u64, i64)> {
    match c {
        Some(s) => match parse_cursor_spec(s) {
            Ok(p) => Some(p),
            Err(_) => None,
        },
        None => None,
    }
}

/// The lower bound of a notification count: none without a cursor, the
/// cursor's timestamp and id where it reads; a cursor that does not read is
/// refused as an invalid cursor format, whatever was wrong with it.
pub fn notification_count_bound(after: &Option<String>) -> (r: Result<Option<(u64, i64)>, DatabaseError>)
    ensures
        match after {
            None => r == Ok::<Option<(u64, i64)>, DatabaseError>(None),
            Some(c) => match parse_cursor_spec(c@) {
                Ok(p) => r == Ok::<Option<(u64, i64)>, DatabaseError>(Some(p)),
                Err(_) => r matches Err(DatabaseError::InvalidInput(m)) && m@ == "Invalid cursor format"@,
            },
        },
{
    match after {
        None => Ok(None),
        Some(c) => match parse_compound_cursor(c.as_str()) {
            Ok(p) => Ok(Some(p)),
            Err(_) => Err(DatabaseError::InvalidInput("Invalid cursor format".to_string())),
        },
    }
}

/// Reads a compound cursor back into its timestamp and id.
pub fn parse_compound_cursor(cursor: &str) -> (r: Result<(u64, i64), DatabaseError>)
    ensures
        match parse_cursor_spec(cursor@) {
            Ok(p) => r == Ok::<(u64, i64), DatabaseError>(p),
            Err(f) => r matches Err(DatabaseError::InvalidInput(m)) && m@ == cursor_fault_message(f),
        },
{
    let v = chars_of(cursor);
    if contains_char(&v, '_') {
        let parts = split_chars(&v, '_');
        if parts.len() == 2 {
            assert(parts[0]@ == split_on(cursor@, '_')[0]);
            assert(parts[1]@ == split_on(cursor@, '_')[1]);
            let timestamp = match parse_u64(parts[0].as_str()) {
                Some(t) => t,
                None => return Err(DatabaseError::InvalidInput("Invalid timestamp in cursor".to_string())),
            };
            let id = match parse_i64(parts[1].as_str()) {
                Some(i) => i,
                None => return Err(DatabaseError::InvalidInput("Invalid ID in cursor".to_string())),
            };
            return Ok((timestamp, id));
        }
    }
    match parse_u64(cursor) {
        Some(t) => Ok((t, i64::MAX)),
        None => Err(DatabaseError::InvalidInput("Invalid cursor format".to_string())),
    }
}

/// A cursor option read for a query: `None` where it is absent or
/// unreadable.
pub fn read_cursor_option(c: &Option<String>) -> (r: Option<(u64, i64)>)
    ensures
        r == readable_cursor(opt_str(*c)),
{
    match c {
        Some(s) => match parse_compound_cursor(s.as_str()) {
            Ok(p) => Some(p),
            Err(_) => None,
        },
        None => None,
    }
}

proof fn lemma_decimal_has_no_underscore(t: u64, id: i64)
    ensures
        !nat_decimal(t as nat).contains('_'),
        !int_decimal(id as int).contains('_'),
{
    lemma_nat_decimal_digits(t as nat);
    if id < 0 {
        let m: nat = (-id) as nat;
        lemma_nat_decimal_digits(m);
        let s = seq!['-'] + nat_decimal(m);
        assert forall|k: int| 0 <= k < s.len() implies s[k] != '_' by {
            if k > 0 {
                assert(s[k] == nat_decimal(m)[k - 1]);
            }
        }
    } else {
        lemma_nat_decimal_digits(id as nat);
    }
}

/// A cursor made from a row's timestamp and id reads back as exactly that
/// timestamp and id.
pub proof fn lemma_cursor_round_trip(timestamp: u64, id: i64)
    ensures
        parse_cursor_spec(compound_cursor(timestamp, id)) == Ok::<(u64, i64), CursorFault>((timestamp, id)),
{
    let a = nat_decimal(timestamp as nat);
    let b = int_decimal(id as int);
    lemma_decimal_has_no_underscore(timestamp, id);
    lemma_split_on_pair(a, b, '_');
    let c = compound_cursor(timestamp, id);
    assert(c == a + seq!['_'] + b);
    assert(c[a.len() as int] == '_');
    assert(c.contains('_'));
    lemma_parse_u64_of_decimal(timestamp);
    lemma_parse_i64_of_decimal(id);
}

// ---------------------------------------------------------------------------
// Pages
// ---------------------------------------------------------------------------

/// A record that pages are ordered and cut by: a time (or count) and a row
/// id.
pub trait HasCompoundCursor {
    spec fn cursor_time(&self) -> u64;

    spec fn cursor_id(&self) -> i64;

    fn get_timestamp(&self) -> (t: u64)
        ensures
            t == self.cursor_time(),
    ;

    fn get_id(&self) -> (i: i64)
        ensures
            i == self.cursor_id(),
    ;
}

impl HasCompoundCursor for KPostRecord {
    open spec fn cursor_time(&self) -> u64 {
        self.block_time
    }

    open spec fn cursor_id(&self) -> i64 {
        self.id
    }

    fn get_timestamp(&self) -> (t: u64) {
        self.block_time
    }

    fn get_id(&self) -> (i: i64) {
        self.id
    }
}

impl HasCompoundCursor for KReplyRecord {
    open spec fn cursor_time(&self) -> u64 {
        self.block_time
    }

    open spec fn cursor_id(&self) -> i64 {
        self.id
    }

    fn get_timestamp(&self) -> (t: u64) {
        self.block_time
    }

    fn get_id(&self) -> (i: i64) {
        self.id
    }
}

impl HasCompoundCursor for KBroadcastRecord {
    open spec fn cursor_time(&self) -> u64 {
        self.block_time
    }

    open spec fn cursor_id(&self) -> i64 {
        self.id
    }

    fn get_timestamp(&self) -> (t: u64) {
        self.block_time
    }

    fn get_id(&self) -> (i: i64) {
        self.id
    }
}

impl HasCompoundCursor for KVoteRecord {
    open spec fn cursor_time(&self) -> u64 {
        self.block_time
    }

    open spec fn cursor_id(&self) -> i64 {
        self.id
    }

    fn get_timestamp(&self) -> (t: u64) {
        self.block_time
    }

    fn get_id(&self) -> (i: i64) {
        self.id
    }
}

impl HasCompoundCursor for ContentRecord {
    open spec fn cursor_time(&self) -> u64 {
        match self {
            ContentRecord::Post(p) => p.block_time,
            ContentRecord::Reply(r) => r.block_time,
            ContentRecord::Vote(v) => v.block_time,
        }
    }

    open spec fn cursor_id(&self) -> i64 {
        match self {
            ContentRecord::Post(p) => p.id,
            ContentRecord::Reply(r) => r.id,
            ContentRecord::Vote(v) => v.id,
        }
    }

    fn get_timestamp(&self) -> (t: u64) {
        match self {
            ContentRecord::Post(post) => post.block_time,
            ContentRecord::Reply(reply) => reply.block_time,
            ContentRecord::Vote(vote) => vote.block_time,
        }
    }

    fn get_id(&self) -> (i: i64) {
        match self {
            ContentRecord::Post(post) => post.id,
            ContentRecord::Reply(reply) => reply.id,
            ContentRecord::Vote(vote) => vote.id,
        }
    }
}

/// The cursor of a record.
pub open spec fn cursor_of<T: HasCompoundCursor>(item: T) -> Seq<char> {
    compound_cursor(item.cursor_time(), item.cursor_id())
}

/// The metadata of a page: the cursor to continue from (the last item's,
/// where more follow) and the cursor to go back from (the first item's).
pub fn create_compound_pagination_metadata<T: HasCompoundCursor>(
    items: &[T],
    limit: u32,
    has_more: bool,
) -> (m: PaginationMetadata)
    ensures
        m.has_more == has_more,
        opt_str(m.next_cursor) == (if has_more && items@.len() > 0 {
            Some(cursor_of(items@.last()))
        } else {
            None
        }),
        opt_str(m.prev_cursor) == (if items@.len() > 0 {
            Some(cursor_of(items@[0]))
        } else {
            None
        }),
{
    let next_cursor = if has_more && items.len() > 0 {
        let last_item = &items[items.len() - 1];
        Some(create_compound_cursor(last_item.get_timestamp(), last_item.get_id()))
    } else {
        None
    };
    let prev_cursor = if items.len() > 0 {
        let first_item = &items[0];
        Some(create_compound_cursor(first_item.get_timestamp(), first_item.get_id()))
    } else {
        None
    };
    PaginationMetadata { has_more, next_cursor, prev_cursor }
}

/// The metadata of a page that reports no further pages when it is empty
/// (the followed-content and hashtag pages).
pub fn nonempty_page_metadata<T: HasCompoundCursor>(items: &[T], has_more: bool) -> (m: PaginationMetadata)
    ensures
        m.has_more == (has_more && items@.len() > 0),
        opt_str(m.next_cursor) == (if has_more && items@.len() > 0 {
            Some(cursor_of(items@.last()))
        } else {
            None
        }),
        opt_str(m.prev_cursor) == (if items@.len() > 0 {
            Some(cursor_of(items@[0]))
        } else {
            None
        }),
{
    if items.len() == 0 {
        PaginationMetadata { has_more: false, next_cursor: None, prev_cursor: None }
    } else {
        create_compound_pagination_metadata(items, 0, has_more)
    }
}

/// The metadata of a most-active-users page, whose cursors carry a user's
/// content count in place of a time.
pub fn active_users_metadata(results: &Vec<(KBroadcastRecord, bool, bool, i64)>, has_more: bool) -> (m: PaginationMetadata)
    ensures
        m.has_more == has_more,
        opt_str(m.next_cursor) == (if has_more && results@.len() > 0 {
            Some(compound_cursor(results@.last().3 as u64, results@.last().0.id))
        } else {
            None
        }),
        opt_str(m.prev_cursor) == (if results@.len() > 0 {
            Some(compound_cursor(results@[0].3 as u64, results@[0].0.id))
        } else {
            None
        }),
{
    if results.len() == 0 {
        return PaginationMetadata { has_more, next_cursor: None, prev_cursor: None };
    }
    let first = &results[0];
    let last = &results[results.len() - 1];
    let next_cursor = if has_more {
        Some(create_compound_cursor(last.3 as u64, last.0.id))
    } else {
        None
    };
    let prev_cursor = Some(create_compound_cursor(first.3 as u64, first.0.id));
    PaginationMetadata { has_more, next_cursor, prev_cursor }
}

/// The metadata of a notifications page: its cursors are those of the
/// mentions, and the next cursor is given whenever the page is not empty.
pub fn notifications_metadata(items: &Vec<NotificationContentRecord>, has_more: bool) -> (m: PaginationMetadata)
    ensures
        m.has_more == has_more,
        opt_str(m.next_cursor) == (if items@.len() > 0 {
            Some(compound_cursor(items@.last().mention_block_time, items@.last().mention_id))
        } else {
            None
        }),
        opt_str(m.prev_cursor) == (if items@.len() > 0 {
            Some(compound_cursor(items@[0].mention_block_time, items@[0].mention_id))
        } else {
            None
        }),
{
    let mut pagination = PaginationMetadata { has_more, next_cursor: None, prev_cursor: None };
    if items.len() > 0 {
        let first_item = &items[0];
        let last_item = &items[items.len() - 1];
        pagination.prev_cursor = Some(create_compound_cursor(first_item.mention_block_time, first_item.mention_id));
        pagination.next_cursor = Some(create_compound_cursor(last_item.mention_block_time, last_item.mention_id));
    }
    pagination
}

/// The number of items a page holds where none is asked for.
pub const DEFAULT_PAGE_LIMIT: u64 = 20;

/// The page size asked for.
pub open spec fn page_limit_spec(options: QueryOptions) -> u64 {
    match options.limit {
        Some(l) => l,
        None => DEFAULT_PAGE_LIMIT,
    }
}

/// How many rows a page query fetches and how many of them the page keeps:
/// one row more than the page holds is fetched, to learn whether more
/// follow.
pub struct PageWindow {
    pub limit: i64,
    pub fetch: i64,
    pub keep: usize,
}

/// The window of a page query.
pub fn page_window(options: &QueryOptions) -> (w: PageWindow)
    requires
        page_limit_spec(*options) as i64 != i64::MAX,
    ensures
        w.limit == page_limit_spec(*options) as i64,
        w.fetch == w.limit + 1,
        w.keep == w.limit as usize,
{
    let requested: u64 = match options.limit {
        Some(l) => l,
        None => DEFAULT_PAGE_LIMIT,
    };
    let limit = requested as i64;
    PageWindow { limit, fetch: limit + 1, keep: limit as usize }
}

/// Drops the extra row a page query fetched; reports whether there was one.
pub fn pop_extra_row<T>(rows: &mut Vec<T>, keep: usize) -> (has_more: bool)
    ensures
        has_more == (old(rows)@.len() > keep),
        final(rows)@ == (if has_more { old(rows)@.drop_last() } else { old(rows)@ }),
{
    let has_more = rows.len() > keep;
    if has_more {
        rows.pop();
    }
    has_more
}

/// Keeps the first `keep` rows; reports whether there were more.
pub fn take_page<T>(rows: &mut Vec<T>, keep: usize) -> (has_more: bool)
    ensures
        has_more == (old(rows)@.len() > keep),
        final(rows)@ == (if has_more { old(rows)@.take(keep as int) } else { old(rows)@ }),
{
    let has_more = rows.len() > keep;
    if has_more {
        rows.truncate(keep);
    }
    has_more
}

// ---------------------------------------------------------------------------
// Cursor and order clauses
// ---------------------------------------------------------------------------

/// The condition that keeps the rows strictly on one side (`op` is `<` or
/// `>`) of the position bound to parameters `$n` (time) and `$n+1` (id).
pub open spec fn bound_condition(time_col: Seq<char>, id_col: Seq<char>, op: Seq<char>, n: nat) -> Seq<char> {
    " AND ("@ + time_col + " "@ + op + " $"@ + nat_decimal(n) + " OR ("@ + time_col + " = $"@
        + nat_decimal(n) + " AND "@ + id_col + " "@ + op + " $"@ + nat_decimal(n + 1) + "))"@
}

/// The conditions a query gets from its cursors, with parameters numbered
/// from `first + 1`: the `before` bound, then the `after` bound.
pub open spec fn cursor_clause_spec(
    time_col: Seq<char>,
    id_col: Seq<char>,
    before: Option<(u64, i64)>,
    after: Option<(u64, i64)>,
    first: nat,
) -> Seq<char> {
    let b = if before is Some { bound_condition(time_col, id_col, "<"@, first + 1) } else { Seq::<char>::empty() };
    let n = if before is Some { first + 2 } else { first };
    let a = if after is Some { bound_condition(time_col, id_col, ">"@, n + 1) } else { Seq::<char>::empty() };
    b + a
}

/// The values bound to a cursor's two parameters.
pub open spec fn cursor_binds(p: Option<(u64, i64)>) -> Seq<(i64, i64)> {
    match p {
        Some((t, i)) => seq![(t as i64, i)],
        None => Seq::<(i64, i64)>::empty(),
    }
}

/// The cursor conditions of a query, the values to bind to their
/// parameters in order, and the last parameter number used.
pub struct CursorConditions {
    pub clause: String,
    pub binds: Vec<(i64, i64)>,
    pub last_param: u64,
}

fn push_bound(clause: &mut String, time_col: &str, id_col: &str, op: &str, n: u64)
    requires
        n < u64::MAX,
    ensures
        final(clause)@ == old(clause)@ + bound_condition(time_col@, id_col@, op@, n as nat),
{
    push_str(clause, " AND (");
    push_str(clause, time_col);
    push_str(clause, " ");
    push_str(clause, op);
    push_str(clause, " $");
    push_u64(clause, n);
    push_str(clause, " OR (");
    push_str(clause, time_col);
    push_str(clause, " = $");
    push_u64(clause, n);
    push_str(clause, " AND ");
    push_str(clause, id_col);
    push_str(clause, " ");
    push_str(clause, op);
    push_str(clause, " $");
    push_u64(clause, n + 1);
    push_str(clause, "))");
    assert(clause@ =~= old(clause)@ + bound_condition(time_col@, id_col@, op@, n as nat));
}

/// The cursor conditions of a page query over `time_col` and `id_col`,
/// whose parameters up to `first` are taken; unreadable cursors add none.
pub fn cursor_conditions(time_col: &str, id_col: &str, options: &QueryOptions, first: u64) -> (c: CursorConditions)
    requires
        first <= u64::MAX - 5,
    ensures
        c.clause@ == cursor_clause_spec(
            time_col@,
            id_col@,
            readable_cursor(opt_str(options.before)),
            readable_cursor(opt_str(options.after)),
            first as nat,
        ),
        c.binds@ == cursor_binds(readable_cursor(opt_str(options.before))) + cursor_binds(
            readable_cursor(opt_str(options.after)),
        ),
        c.last_param == first + 2 * c.binds@.len(),
{
    let before = read_cursor_option(&options.before);
    let after = read_cursor_option(&options.after);
    let mut clause = String::new();
    let mut binds: Vec<(i64, i64)> = Vec::new();
    let mut last_param = first;
    match before {
        Some((t, i)) => {
            push_bound(&mut clause, time_col, id_col, "<", first + 1);
            binds.push((t as i64, i));
            last_param = first + 2;
        },
        None => {},
    }
    let ghost mid = clause@;
    match after {
        Some((t, i)) => {
            push_bound(&mut clause, time_col, id_col, ">", last_param + 1);
            binds.push((t as i64, i));
            last_param = last_param + 2;
        },
        None => {},
    }
    assert(binds@ =~= cursor_binds(before) + cursor_binds(after));
    assert(clause@ =~= cursor_clause_spec(time_col@, id_col@, before, after, first as nat));
    CursorConditions { clause, binds, last_param }
}

/// The ordering of a page query: by time, then id, both descending or both
/// ascending.
pub open spec fn order_clause_spec(time_col: Seq<char>, id_col: Seq<char>, descending: bool) -> Seq<char> {
    if descending {
        " ORDER BY "@ + time_col + " DESC, "@ + id_col + " DESC"@
    } else {
        " ORDER BY "@ + time_col + " ASC, "@ + id_col + " ASC"@
    }
}

/// The ordering clause of a page query.
pub fn order_clause(time_col: &str, id_col: &str, descending: bool) -> (s: String)
    ensures
        s@ == order_clause_spec(time_col@, id_col@, descending),
{
    let mut s = String::new();
    push_str(&mut s, " ORDER BY ");
    push_str(&mut s, time_col);
    if descending {
        push_str(&mut s, " DESC, ");
        push_str(&mut s, id_col);
        push_str(&mut s, " DESC");
    } else {
        push_str(&mut s, " ASC, ");
        push_str(&mut s, id_col);
        push_str(&mut s, " ASC");
    }
    assert(s@ =~= order_clause_spec(time_col@, id_col@, descending));
    s
}

/// The clause that limits a query to the rows bound to parameter `$n`.
pub fn limit_clause(n: u64) -> (s: String)
    ensures
        s@ == " LIMIT $"@ + nat_decimal(n as nat),
{
    let mut s = String::new();
    push_str(&mut s, " LIMIT $");
    push_u64(&mut s, n);
    assert(s@ =~= " LIMIT $"@ + nat_decimal(n as nat));
    s
}

/// The filters a user search adds, with their parameters numbered from
/// `first + 1`, and the patterns bound to them in order.
pub struct SearchFilters {
    pub clause: String,
    pub patterns: Vec<String>,
    pub last_param: u64,
}

/// The search filters: a key matches by the end of its hex form (so that
/// both prefix variants match), a nickname anywhere in the decoded
/// nickname, case aside.  A searched key that is not hex is refused.
pub fn search_user_filters(
    searched_pubkey: &Option<String>,
    searched_nickname: &Option<String>,
    first: u64,
) -> (r: Result<SearchFilters, DatabaseError>)
    requires
        first <= u64::MAX - 2,
    ensures
        match searched_pubkey {
            Some(k) => match hex_decode_spec(k@) {
                None => r matches Err(DatabaseError::InvalidInput(m))
                    && m@ == "Invalid hex string: "@ + hex_decode_error_text(k@),
                Some(b) => r is Ok,
            },
            None => r is Ok,
        },
        r matches Ok(f) ==> {
            let key_clause = if searched_pubkey is Some {
                " AND encode(b.sender_pubkey, 'hex') LIKE $"@ + nat_decimal((first + 1) as nat)
            } else {
                Seq::<char>::empty()
            };
            let n = if searched_pubkey is Some { first + 1 } else { first as int };
            let nick_clause = if searched_nickname is Some {
                " AND convert_from(decode(b.base64_encoded_nickname, 'base64'), 'UTF8') ILIKE $"@
                    + nat_decimal((n + 1) as nat)
            } else {
                Seq::<char>::empty()
            };
            &&& f.clause@ == key_clause + nick_clause
            &&& f.last_param == n + (if searched_nickname is Some { 1int } else { 0int })
            &&& f.patterns@.len() == (if searched_pubkey is Some { 1int } else { 0int }) + (if searched_nickname is Some { 1int } else { 0int })
            &&& (searched_pubkey matches Some(k) ==> hex_decode_spec(k@) matches Some(b)
                && f.patterns@[0]@ == "%"@ + hex_encode_spec(b))
            &&& (searched_nickname matches Some(nick) ==> f.patterns@.last()@ == "%"@ + nick@ + "%"@)
        },
{
    let mut clause = String::new();
    let mut patterns: Vec<String> = Vec::new();
    let mut last_param = first;
    match searched_pubkey {
        Some(k) => {
            let bytes = decode_hex_to_bytes(k.as_str())?;
            last_param = first + 1;
            push_str(&mut clause, " AND encode(b.sender_pubkey, 'hex') LIKE $");
            push_u64(&mut clause, last_param);
            let mut pattern = String::new();
            push_str(&mut pattern, "%");
            let hex = encode_bytes_to_hex(bytes.as_slice());
            push_str(&mut pattern, hex.as_str());
            patterns.push(pattern);
        },
        None => {},
    }
    let ghost mid = clause@;
    match searched_nickname {
        Some(nick) => {
            last_param = last_param + 1;
            push_str(&mut clause, " AND convert_from(decode(b.base64_encoded_nickname, 'base64'), 'UTF8') ILIKE $");
            push_u64(&mut clause, last_param);
            let mut pattern = String::new();
            push_str(&mut pattern, "%");
            push_str(&mut pattern, nick.as_str());
            push_str(&mut pattern, "%");
            patterns.push(pattern);
        },
        None => {},
    }
    proof {
        if searched_pubkey is Some {
            assert(mid =~= " AND encode(b.sender_pubkey, 'hex') LIKE $"@ + nat_decimal((first + 1) as nat));
        } else {
            assert(mid =~= Seq::<char>::empty());
        }
    }
    assert(clause@ =~= mid + (if searched_nickname is Some {
        " AND convert_from(decode(b.base64_encoded_nickname, 'base64'), 'UTF8') ILIKE $"@ + nat_decimal(last_param as nat)
    } else {
        Seq::<char>::empty()
    }));
    Ok(SearchFilters { clause, patterns, last_param })
}

// ---------------------------------------------------------------------------
// Rows
// ---------------------------------------------------------------------------

/// A broadcast row: keys, ids and signatures as stored bytes.
pub struct BroadcastRow {
    pub id: i64,
    pub transaction_id: Vec<u8>,
    pub block_time: i64,
    pub sender_pubkey: Vec<u8>,
    pub sender_signature: Vec<u8>,
    pub base64_encoded_nickname: String,
    pub base64_encoded_profile_image: Option<String>,
    pub base64_encoded_message: String,
}

/// The record of a broadcast row: byte columns as hex, the time as
/// unsigned.
pub fn broadcast_record_from_row(row: BroadcastRow) -> (r: KBroadcastRecord)
    ensures
        r.id == row.id,
        r.transaction_id@ == hex_encode_spec(row.transaction_id@),
        r.block_time == row.block_time as u64,
        r.sender_pubkey@ == hex_encode_spec(row.sender_pubkey@),
        r.sender_signature@ == hex_encode_spec(row.sender_signature@),
        r.base64_encoded_nickname@ == row.base64_encoded_nickname@,
        opt_str(r.base64_encoded_profile_image) == opt_str(row.base64_encoded_profile_image),
        r.base64_encoded_message@ == row.base64_encoded_message@,
{
    KBroadcastRecord {
        id: row.id,
        transaction_id: encode_bytes_to_hex(row.transaction_id.as_slice()),
        block_time: row.block_time as u64,
        sender_pubkey: encode_bytes_to_hex(row.sender_pubkey.as_slice()),
        sender_signature: encode_bytes_to_hex(row.sender_signature.as_slice()),
        base64_encoded_nickname: row.base64_encoded_nickname,
        base64_encoded_profile_image: row.base64_encoded_profile_image,
        base64_encoded_message: row.base64_encoded_message,
    }
}

/// The record standing for a user who has no broadcast yet: id 0, an empty
/// transaction id, time 0, and the key that was asked for.
pub fn placeholder_user_record(user_public_key: &str) -> (r: KBroadcastRecord)
    ensures
        r.id == 0,
        r.transaction_id@ == Seq::<char>::empty(),
        r.block_time == 0,
        r.sender_pubkey@ == user_public_key@,
        r.sender_signature@ == Seq::<char>::empty(),
        r.base64_encoded_nickname@ == Seq::<char>::empty(),
        r.base64_encoded_profile_image is None,
        r.base64_encoded_message@ == Seq::<char>::empty(),
{
    KBroadcastRecord {
        id: 0,
        transaction_id: String::new(),
        block_time: 0,
        sender_pubkey: user_public_key.to_string(),
        sender_signature: String::new(),
        base64_encoded_nickname: String::new(),
        base64_encoded_profile_image: None,
        base64_encoded_message: String::new(),
    }
}

/// A count column as a record count: the database's signed count read as
/// unsigned, where the query gives one.
pub open spec fn count_of(c: Option<i64>) -> Option<u64> {
    match c {
        Some(n) => Some(n as u64),
        None => None,
    }
}

fn count_from(c: Option<i64>) -> (r: Option<u64>)
    ensures
        r == count_of(c),
{
    match c {
        Some(n) => Some(n as u64),
        None => None,
    }
}

/// A feed row: a post or quote with its counts, the viewer's votes, its
/// author's profile and what it quotes.
pub struct PostRow {
    pub id: i64,
    pub transaction_id: Vec<u8>,
    pub block_time: i64,
    pub sender_pubkey: Vec<u8>,
    pub sender_signature: Vec<u8>,
    pub base64_encoded_message: String,
    pub mentioned_pubkeys: Vec<String>,
    pub content_type: Option<String>,
    pub replies_count: Option<i64>,
    pub quotes_count: Option<i64>,
    pub up_votes_count: Option<i64>,
    pub down_votes_count: Option<i64>,
    pub is_upvoted: Option<bool>,
    pub is_downvoted: Option<bool>,
    pub user_nickname: Option<String>,
    pub user_profile_image: Option<String>,
    pub referenced_content_id: Option<String>,
    pub referenced_message: Option<String>,
    pub referenced_sender_pubkey: Option<String>,
    pub referenced_nickname: Option<String>,
    pub referenced_profile_image: Option<String>,
}

/// The record of a feed row: byte columns as hex, counts as unsigned.
pub fn post_record_from_row(row: PostRow) -> (r: KPostRecord)
    ensures
        r.id == row.id,
        r.transaction_id@ == hex_encode_spec(row.transaction_id@),
        r.block_time == row.block_time as u64,
        r.sender_pubkey@ == hex_encode_spec(row.sender_pubkey@),
        r.sender_signature@ == hex_encode_spec(row.sender_signature@),
        r.base64_encoded_message@ == row.base64_encoded_message@,
        r.mentioned_pubkeys.deep_view() == row.mentioned_pubkeys.deep_view(),
        opt_str(r.content_type) == opt_str(row.content_type),
        r.replies_count == count_of(row.replies_count),
        r.quotes_count == count_of(row.quotes_count),
        r.up_votes_count == count_of(row.up_votes_count),
        r.down_votes_count == count_of(row.down_votes_count),
        r.is_upvoted == row.is_upvoted,
        r.is_downvoted == row.is_downvoted,
        opt_str(r.user_nickname) == opt_str(row.user_nickname),
        opt_str(r.user_profile_image) == opt_str(row.user_profile_image),
        opt_str(r.referenced_content_id) == opt_str(row.referenced_content_id),
        opt_str(r.referenced_message) == opt_str(row.referenced_message),
        opt_str(r.referenced_sender_pubkey) == opt_str(row.referenced_sender_pubkey),
        opt_str(r.referenced_nickname) == opt_str(row.referenced_nickname),
        opt_str(r.referenced_profile_image) == opt_str(row.referenced_profile_image),
{
    KPostRecord {
        id: row.id,
        transaction_id: encode_bytes_to_hex(row.transaction_id.as_slice()),
        block_time: row.block_time as u64,
        sender_pubkey: encode_bytes_to_hex(row.sender_pubkey.as_slice()),
        sender_signature: encode_bytes_to_hex(row.sender_signature.as_slice()),
        base64_encoded_message: row.base64_encoded_message,
        mentioned_pubkeys: row.mentioned_pubkeys,
        content_type: row.content_type,
        replies_count: count_from(row.replies_count),
        up_votes_count: count_from(row.up_votes_count),
        down_votes_count: count_from(row.down_votes_count),
        quotes_count: count_from(row.quotes_count),
        is_upvoted: row.is_upvoted,
        is_downvoted: row.is_downvoted,
        user_nickname: row.user_nickname,
        user_profile_image: row.user_profile_image,
        referenced_content_id: row.referenced_content_id,
        referenced_message: row.referenced_message,
        referenced_sender_pubkey: row.referenced_sender_pubkey,
        referenced_nickname: row.referenced_nickname,
        referenced_profile_image: row.referenced_profile_image,
    }
}

/// A reply row: the reply, the content it answers, its counts and its
/// author's profile.
pub struct ReplyRow {
    pub id: i64,
    pub transaction_id: Vec<u8>,
    pub block_time: i64,
    pub sender_pubkey: Vec<u8>,
    pub sender_signature: Vec<u8>,
    pub referenced_content_id: Vec<u8>,
    pub base64_encoded_message: String,
    pub mentioned_pubkeys: Vec<String>,
    pub replies_count: Option<i64>,
    pub quotes_count: Option<i64>,
    pub up_votes_count: Option<i64>,
    pub down_votes_count: Option<i64>,
    pub is_upvoted: Option<bool>,
    pub is_downvoted: Option<bool>,
    pub user_nickname: Option<String>,
    pub user_profile_image: Option<String>,
}

/// The record of a reply row: byte columns as hex (the answered content as
/// the post id), counts as unsigned.
pub fn reply_record_from_row(row: ReplyRow) -> (r: KReplyRecord)
    ensures
        r.id == row.id,
        r.transaction_id@ == hex_encode_spec(row.transaction_id@),
        r.block_time == row.block_time as u64,
        r.sender_pubkey@ == hex_encode_spec(row.sender_pubkey@),
        r.sender_signature@ == hex_encode_spec(row.sender_signature@),
        r.post_id@ == hex_encode_spec(row.referenced_content_id@),
        r.base64_encoded_message@ == row.base64_encoded_message@,
        r.mentioned_pubkeys.deep_view() == row.mentioned_pubkeys.deep_view(),
        r.content_type is None,
        r.replies_count == count_of(row.replies_count),
        r.quotes_count == count_of(row.quotes_count),
        r.up_votes_count == count_of(row.up_votes_count),
        r.down_votes_count == count_of(row.down_votes_count),
        r.is_upvoted == row.is_upvoted,
        r.is_downvoted == row.is_downvoted,
        opt_str(r.user_nickname) == opt_str(row.user_nickname),
        opt_str(r.user_profile_image) == opt_str(row.user_profile_image),
{
    KReplyRecord {
        id: row.id,
        transaction_id: encode_bytes_to_hex(row.transaction_id.as_slice()),
        block_time: row.block_time as u64,
        sender_pubkey: encode_bytes_to_hex(row.sender_pubkey.as_slice()),
        sender_signature: encode_bytes_to_hex(row.sender_signature.as_slice()),
        post_id: encode_bytes_to_hex(row.referenced_content_id.as_slice()),
        base64_encoded_message: row.base64_encoded_message,
        mentioned_pubkeys: row.mentioned_pubkeys,
        content_type: None,
        replies_count: count_from(row.replies_count),
        up_votes_count: count_from(row.up_votes_count),
        down_votes_count: count_from(row.down_votes_count),
        quotes_count: count_from(row.quotes_count),
        is_upvoted: row.is_upvoted,
        is_downvoted: row.is_downvoted,
        user_nickname: row.user_nickname,
        user_profile_image: row.user_profile_image,
    }
}

/// The shape a stored content row is read into.
#[derive(Debug, Clone, Copy, PartialEq, Eq)]
pub enum ContentShape {
    Post,
    Reply,
}

/// The shape of a stored content type: posts and quotes read as posts,
/// replies as replies; any other type is refused.
pub fn content_shape(content_type: &str) -> (r: Result<ContentShape, DatabaseError>)
    ensures
        content_type@ == "post"@ || content_type@ == "quote"@ ==> r == Ok::<ContentShape, DatabaseError>(ContentShape::Post),
        content_type@ != "post"@ && content_type@ != "quote"@ && content_type@ == "reply"@
            ==> r == Ok::<ContentShape, DatabaseError>(ContentShape::Reply),
        content_type@ != "post"@ && content_type@ != "quote"@ && content_type@ != "reply"@ ==> (r matches Err(
            DatabaseError::QueryError(m),
        ) && m@ == "Unknown content type: "@ + content_type@),
{
    if str_equal(content_type, "post") || str_equal(content_type, "quote") {
        Ok(ContentShape::Post)
    } else if str_equal(content_type, "reply") {
        Ok(ContentShape::Reply)
    } else {
        Err(DatabaseError::QueryError(concat2("Unknown content type: ", content_type)))
    }
}

/// The content a stored reply answers; a reply row without one is
/// refused.
pub fn reply_parent(referenced_content_id: Option<Vec<u8>>) -> (r: Result<Vec<u8>, DatabaseError>)
    ensures
        match referenced_content_id {
            Some(b) => r matches Ok(p) && p@ == b@,
            None => r matches Err(DatabaseError::QueryError(m)) && m@ == "Missing referenced_content_id for reply"@,
        },
{
    match referenced_content_id {
        Some(bytes) => Ok(bytes),
        None => Err(DatabaseError::QueryError("Missing referenced_content_id for reply".to_string())),
    }
}

/// A notification row: the mention, the content or vote it is about, and
/// its sender's profile.
pub struct NotificationRow {
    pub id: i64,
    pub transaction_id: Vec<u8>,
    pub block_time: i64,
    pub sender_pubkey: Vec<u8>,
    pub content_type: String,
    pub notification_id: i64,
    pub base64_encoded_message: String,
    pub user_nickname: String,
    pub user_profile_image: Option<String>,
    pub quoted_content_id: Option<String>,
    pub quoted_content_message: Option<String>,
    pub content_id: Option<String>,
    pub vote_type: Option<String>,
    pub voted_content: Option<String>,
}

/// An optional text, empty where absent.
pub open spec fn text_or_empty(o: Option<String>) -> Seq<char> {
    match o {
        Some(s) => s@,
        None => Seq::<char>::empty(),
    }
}

fn unwrap_text(o: Option<String>) -> (s: String)
    ensures
        s@ == text_or_empty(o),
{
    match o {
        Some(s) => s,
        None => String::new(),
    }
}

/// The post (or, with `quoted`, the quote) a notification row shows.
pub open spec fn notified_post(p: KPostRecord, row: NotificationRow, quoted: bool) -> bool {
    &&& p.id == row.id
    &&& p.transaction_id@ == hex_encode_spec(row.transaction_id@)
    &&& p.block_time == row.block_time as u64
    &&& p.sender_pubkey@ == hex_encode_spec(row.sender_pubkey@)
    &&& p.sender_signature@ == Seq::<char>::empty()
    &&& p.base64_encoded_message@ == row.base64_encoded_message@
    &&& p.mentioned_pubkeys@.len() == 0
    &&& p.content_type is None
    &&& p.up_votes_count is None && p.down_votes_count is None
    &&& p.is_upvoted is None && p.is_downvoted is None
    &&& p.replies_count is None && p.quotes_count is None
    &&& p.user_nickname matches Some(n) && n@ == row.user_nickname@
    &&& opt_str(p.user_profile_image) == opt_str(row.user_profile_image)
    &&& opt_str(p.referenced_content_id) == (if quoted { opt_str(row.quoted_content_id) } else { None })
    &&& opt_str(p.referenced_message) == (if quoted { opt_str(row.quoted_content_message) } else { None })
    &&& p.referenced_sender_pubkey is None
    &&& p.referenced_nickname is None
    &&& p.referenced_profile_image is None
}

/// The reply a notification row shows.
pub open spec fn notified_reply(r: KReplyRecord, row: NotificationRow) -> bool {
    &&& r.id == row.id
    &&& r.transaction_id@ == hex_encode_spec(row.transaction_id@)
    &&& r.block_time == row.block_time as u64
    &&& r.sender_pubkey@ == hex_encode_spec(row.sender_pubkey@)
    &&& r.sender_signature@ == Seq::<char>::empty()
    &&& r.post_id@ == Seq::<char>::empty()
    &&& r.base64_encoded_message@ == row.base64_encoded_message@
    &&& r.mentioned_pubkeys@.len() == 0
    &&& r.content_type is None
    &&& r.replies_count is None && r.quotes_count is None
    &&& r.up_votes_count is None && r.down_votes_count is None
    &&& r.is_upvoted is None && r.is_downvoted is None
    &&& r.user_nickname matches Some(n) && n@ == row.user_nickname@
    &&& opt_str(r.user_profile_image) == opt_str(row.user_profile_image)
}

/// The vote a notification row shows.
pub open spec fn notified_vote(v: KVoteRecord, row: NotificationRow) -> bool {
    &&& v.id == row.id
    &&& v.transaction_id@ == hex_encode_spec(row.transaction_id@)
    &&& v.block_time == row.block_time as u64
    &&& v.sender_pubkey@ == hex_encode_spec(row.sender_pubkey@)
    &&& v.sender_signature@ == Seq::<char>::empty()
    &&& v.post_id@ == text_or_empty(row.content_id)
    &&& v.vote@ == text_or_empty(row.vote_type)
    &&& v.mention_block_time == Some(row.block_time as u64)
    &&& opt_str(v.voted_content) == opt_str(row.voted_content)
    &&& v.user_nickname matches Some(n) && n@ == row.user_nickname@
    &&& opt_str(v.user_profile_image) == opt_str(row.user_profile_image)
}

/// Whether a notification row is of a kind shown: a post, quote, reply or vote.
pub open spec fn known_notification(row: NotificationRow) -> bool {
    row.content_type@ == "post"@ || row.content_type@ == "quote"@ || row.content_type@ == "reply"@
        || row.content_type@ == "vote"@
}

/// `n` is the notification a row of a known kind stands for.
pub open spec fn notification_of_row(n: NotificationContentRecord, row: NotificationRow) -> bool {
    &&& n.mention_id == row.notification_id
    &&& n.mention_block_time == row.block_time as u64
    &&& if row.content_type@ == "post"@ {
        n.content matches ContentRecord::Post(p) && notified_post(p, row, false)
    } else if row.content_type@ == "quote"@ {
        n.content matches ContentRecord::Post(p) && notified_post(p, row, true)
    } else if row.content_type@ == "reply"@ {
        n.content matches ContentRecord::Reply(rr) && notified_reply(rr, row)
    } else if row.content_type@ == "vote"@ {
        n.content matches ContentRecord::Vote(v) && notified_vote(v, row)
    } else {
        false
    }
}

/// The notification a row stands for, with the mention's id and time;
/// a row of any content type but post, quote, reply or vote gives none.
pub fn notification_from_row(row: NotificationRow) -> (r: Option<NotificationContentRecord>)
    ensures
        r is Some <==> known_notification(row),
        r matches Some(n) ==> notification_of_row(n, row),
        r matches Some(n) ==> n.mention_id == row.notification_id && n.mention_block_time == row.block_time as u64,
        if row.content_type@ == "post"@ {
            r matches Some(n) && n.content matches ContentRecord::Post(p) && notified_post(p, row, false)
        } else if row.content_type@ == "quote"@ {
            r matches Some(n) && n.content matches ContentRecord::Post(p) && notified_post(p, row, true)
        } else if row.content_type@ == "reply"@ {
            r matches Some(n) && n.content matches ContentRecord::Reply(rr) && notified_reply(rr, row)
        } else if row.content_type@ == "vote"@ {
            r matches Some(n) && n.content matches ContentRecord::Vote(v) && notified_vote(v, row)
        } else {
            r is None
        },
{
    let ghost old_row = row;
    let transaction_id = encode_bytes_to_hex(row.transaction_id.as_slice());
    let sender_pubkey = encode_bytes_to_hex(row.sender_pubkey.as_slice());
    let block_time = row.block_time as u64;
    let mention_id = row.notification_id;
    let is_post = str_equal(row.content_type.as_str(), "post");
    let is_quote = str_equal(row.content_type.as_str(), "quote");
    let is_reply = str_equal(row.content_type.as_str(), "reply");
    let is_vote = str_equal(row.content_type.as_str(), "vote");
    let content = if is_post || is_quote {
        let (referenced_content_id, referenced_message) = if is_post {
            (None, None)
        } else {
            (row.quoted_content_id, row.quoted_content_message)
        };
        ContentRecord::Post(KPostRecord {
            id: row.id,
            transaction_id,
            block_time,
            sender_pubkey,
            sender_signature: String::new(),
            base64_encoded_message: row.base64_encoded_message,
            mentioned_pubkeys: Vec::new(),
            content_type: None,
            up_votes_count: None,
            down_votes_count: None,
            is_upvoted: None,
            is_downvoted: None,
            replies_count: None,
            quotes_count: None,
            user_nickname: Some(row.user_nickname),
            user_profile_image: row.user_profile_image,
            referenced_content_id,
            referenced_message,
            referenced_sender_pubkey: None,
            referenced_nickname: None,
            referenced_profile_image: None,
        })
    } else if is_reply {
        ContentRecord::Reply(KReplyRecord {
            id: row.id,
            transaction_id,
            block_time,
            sender_pubkey,
            sender_signature: String::new(),
            post_id: String::new(),
            base64_encoded_message: row.base64_encoded_message,
            mentioned_pubkeys: Vec::new(),
            content_type: None,
            replies_count: None,
            quotes_count: None,
            up_votes_count: None,
            down_votes_count: None,
            is_upvoted: None,
            is_downvoted: None,
            user_nickname: Some(row.user_nickname),
            user_profile_image: row.user_profile_image,
        })
    } else if is_vote {
        ContentRecord::Vote(KVoteRecord {
            id: row.id,
            transaction_id,
            block_time,
            sender_pubkey,
            sender_signature: String::new(),
            post_id: unwrap_text(row.content_id),
            vote: unwrap_text(row.vote_type),
            mention_block_time: Some(block_time),
            voted_content: row.voted_content,
            user_nickname: Some(row.user_nickname),
            user_profile_image: row.user_profile_image,
        })
    } else {
        return None;
    };
    Some(NotificationContentRecord { content, mention_id, mention_block_time: block_time })
}

/// The notifications of a fetched page, already cut to its size: the rows
/// of a kind shown, each as its notification, in order (rows of another
/// kind are left out), with the page's metadata.
pub fn notification_page(rows: Vec<NotificationRow>, has_more: bool) -> (r: PaginatedResult<NotificationContentRecord>)
    ensures
        r.items@.len() == rows@.filter(|row: NotificationRow| known_notification(row)).len(),
        forall|j: int| 0 <= j < r.items@.len() ==> notification_of_row(#[trigger] r.items@[j],
            rows@.filter(|row: NotificationRow| known_notification(row))[j]),
        r.pagination.has_more == has_more,
        opt_str(r.pagination.next_cursor) == (if r.items@.len() > 0 {
            Some(compound_cursor(r.items@.last().mention_block_time, r.items@.last().mention_id))
        } else {
            None
        }),
        opt_str(r.pagination.prev_cursor) == (if r.items@.len() > 0 {
            Some(compound_cursor(r.items@[0].mention_block_time, r.items@[0].mention_id))
        } else {
            None
        }),
{
    let ghost all = rows@;
    let ghost keep = |row: NotificationRow| known_notification(row);
    let mut rest = rows;
    let mut items: Vec<NotificationContentRecord> = Vec::new();
    let ghost mut i: int = 0;
    while rest.len() > 0
        invariant
            0 <= i <= all.len(),
            keep == (|row: NotificationRow| known_notification(row)),
            rest@ == all.skip(i),
            items@.len() == all.take(i).filter(keep).len(),
            forall|j: int| 0 <= j < items@.len() ==> notification_of_row(#[trigger] items@[j], all.take(i).filter(keep)[j]),
        decreases rest@.len(),
    {
        let row = rest.remove(0);
        let ghost kept_before = all.take(i).filter(keep);
        proof {
            reveal(Seq::filter);
            assert(all.take(i + 1).drop_last() =~= all.take(i));
            assert(all.take(i + 1).last() == row);
            assert(all.skip(i).remove(0) =~= all.skip(i + 1));
        }
        let ghost r0 = row;
        match notification_from_row(row) {
            Some(n) => {
                proof {
                    reveal(Seq::filter);
                    assert(all.take(i + 1).drop_last() =~= all.take(i));
                    assert(all.take(i + 1).last() == r0);
                    assert(keep(r0) == known_notification(r0));
                    assert(all.take(i + 1).filter(keep) == kept_before.push(r0));
                }
                items.push(n);
            },
            None => {
                proof {
                    reveal(Seq::filter);
                    assert(all.take(i + 1).drop_last() =~= all.take(i));
                    assert(all.take(i + 1).last() == r0);
                    assert(keep(r0) == known_notification(r0));
                    assert(all.take(i + 1).filter(keep) == kept_before);
                }
            },
        }
        proof {
            i = i + 1;
        }
    }
    assert(all.take(all.len() as int) =~= all);
    let pagination = notifications_metadata(&items, has_more);
    PaginatedResult { items, pagination }
}

} // verus!
