//! What the web server's handlers decide before and after they ask the
//! database: which keys and ids they accept and what they answer to the
//! others, the paging options they ask with, the time windows they count
//! over, and how records become API entries.
use vstd::prelude::*;
use crate::text::{all_hex, all_hex_digits, chars_of, has_prefix, push_str, starts_with, string_from_range};
use crate::webserver::database::{text_or_empty, QueryOptions};
use crate::webserver::models::{
    compound_cursor, count_or_zero, opt_str, post_from_record, reply_post_from_record,
    shown_message, user_from_record, vote_post_from_record, clone_opt, ApiError, ContentRecord,
    KBroadcastRecord, NotificationContentRecord, NotificationPost, ServerPost, ServerUserPost,
    TrendingHashtag,
};

verus! {

broadcast use vstd::string::group_string_axioms;

/// The web server's request handlers.
pub struct ApiHandlers {}

impl ApiHandlers {
    pub fn new() -> (h: Self) {
        ApiHandlers {}
    }

    /// The error answer with this message and code.
    pub fn create_error_response(&self, message: &str, code: &str) -> (e: ApiError)
        ensures
            e.error@ == message@,
            e.code@ == code@,
    {
        error_response(message, code)
    }
}

/// The error answer with this message and code.
pub fn error_response(message: &str, code: &str) -> (e: ApiError)
    ensures
        e.error@ == message@,
        e.code@ == code@,
{
    ApiError { error: message.to_string(), code: code.to_string() }
}

/// The answer given when the database fails.
pub fn database_error_response() -> (e: ApiError)
    ensures
        e.error@ == "Internal server error during database query"@,
        e.code@ == "DATABASE_ERROR"@,
{
    error_response("Internal server error during database query", "DATABASE_ERROR")
}

/// The answer given when a response cannot be serialized.
pub fn serialization_error_response() -> (e: ApiError)
    ensures
        e.error@ == "Internal server error during serialization"@,
        e.code@ == "SERIALIZATION_ERROR"@,
{
    error_response("Internal server error during serialization", "SERIALIZATION_ERROR")
}

/// The answer given when the content asked for does not exist.
pub fn not_found_response() -> (e: ApiError)
    ensures
        e.error@ == "Content not found"@,
        e.code@ == "NOT_FOUND"@,
{
    error_response("Content not found", "NOT_FOUND")
}

// ---------------------------------------------------------------------------
// Keys and ids
// ---------------------------------------------------------------------------

/// The length of a text in UTF-8 bytes, as `str::len` reports it.
pub open spec fn byte_len(s: Seq<char>) -> usize {
    vstd::utf8::encode_utf8(s).len() as usize
}

/// What is wrong with a key given as a compressed public key.
#[derive(Debug, Clone, Copy, PartialEq, Eq)]
pub enum KeyFault {
    Length,
    NotHex,
    Prefix,
}

/// A compressed public key: 66 bytes of hex digits, starting with `02` or
/// `03`.  The first fault found, in that order.
pub open spec fn pubkey_fault(k: Seq<char>) -> Option<KeyFault> {
    if byte_len(k) != 66 {
        Some(KeyFault::Length)
    } else if !all_hex_digits(k) {
        Some(KeyFault::NotHex)
    } else if !(has_prefix(k, "02"@) || has_prefix(k, "03"@)) {
        Some(KeyFault::Prefix)
    } else {
        None
    }
}

/// The message a refused key of the given role is answered with.
pub open spec fn pubkey_fault_message(role: Seq<char>, f: KeyFault) -> Seq<char> {
    match f {
        KeyFault::Length => "Invalid "@ + role + " public key format. Must be 66 hex characters."@,
        KeyFault::NotHex => "Invalid "@ + role + " public key format. Must contain only hex characters."@,
        KeyFault::Prefix => "Invalid "@ + role + " public key format. Compressed public key must start with 02 or 03."@,
    }
}

fn phrase(a: &str, b: &str, c: &str) -> (s: String)
    ensures
        s@ == a@ + b@ + c@,
{
    let mut s = String::new();
    push_str(&mut s, a);
    push_str(&mut s, b);
    push_str(&mut s, c);
    assert(s@ =~= a@ + b@ + c@);
    s
}

/// Checks a compressed public key given for `role` (`user`, `requester`);
/// a refused key is answered with `INVALID_USER_KEY` and the first fault.
pub fn validate_pubkey(key: &str, role: &str) -> (r: Result<(), ApiError>)
    ensures
        match pubkey_fault(key@) {
            None => r is Ok,
            Some(f) => r matches Err(e) && e.error@ == pubkey_fault_message(role@, f)
                && e.code@ == "INVALID_USER_KEY"@,
        },
{
    if key.len() != 66 {
        return Err(ApiError {
            error: phrase("Invalid ", role, " public key format. Must be 66 hex characters."),
            code: "INVALID_USER_KEY".to_string(),
        });
    }
    let v = chars_of(key);
    if !all_hex(&v) {
        return Err(ApiError {
            error: phrase("Invalid ", role, " public key format. Must contain only hex characters."),
            code: "INVALID_USER_KEY".to_string(),
        });
    }
    if !starts_with(&v, "02") && !starts_with(&v, "03") {
        return Err(ApiError {
            error: phrase("Invalid ", role, " public key format. Compressed public key must start with 02 or 03."),
            code: "INVALID_USER_KEY".to_string(),
        });
    }
    Ok(())
}

/// What is wrong with a content id.
#[derive(Debug, Clone, Copy, PartialEq, Eq)]
pub enum IdFault {
    Length,
    NotHex,
}

/// A content id: 64 bytes of hex digits.
pub open spec fn content_id_fault(id: Seq<char>) -> Option<IdFault> {
    if byte_len(id) != 64 {
        Some(IdFault::Length)
    } else if !all_hex_digits(id) {
        Some(IdFault::NotHex)
    } else {
        None
    }
}

/// The message a refused id of the given kind (`post`, `content`) is
/// answered with.
pub open spec fn content_id_fault_message(kind: Seq<char>, f: IdFault) -> Seq<char> {
    match f {
        IdFault::Length => "Invalid "@ + kind + " ID format. Must be 64 hex characters."@,
        IdFault::NotHex => "Invalid "@ + kind + " ID format. Must contain only hex characters."@,
    }
}

/// Checks a content id; a refused id is answered with `INVALID_POST_ID`.
pub fn validate_content_id(id: &str, kind: &str) -> (r: Result<(), ApiError>)
    ensures
        match content_id_fault(id@) {
            None => r is Ok,
            Some(f) => r matches Err(e) && e.error@ == content_id_fault_message(kind@, f)
                && e.code@ == "INVALID_POST_ID"@,
        },
{
    if id.len() != 64 {
        return Err(ApiError {
            error: phrase("Invalid ", kind, " ID format. Must be 64 hex characters."),
            code: "INVALID_POST_ID".to_string(),
        });
    }
    let v = chars_of(id);
    if !all_hex(&v) {
        return Err(ApiError {
            error: phrase("Invalid ", kind, " ID format. Must contain only hex characters."),
            code: "INVALID_POST_ID".to_string(),
        });
    }
    Ok(())
}

/// The key part a user search looks for: a searched key must be 66 bytes
/// long and start with `02` or `03`; what follows that prefix is searched,
/// so that both variants match.
pub fn searched_pubkey_suffix(searched: &Option<String>) -> (r: Result<Option<String>, ApiError>)
    ensures
        match searched {
            None => r == Ok::<Option<String>, ApiError>(None),
            Some(k) => if byte_len(k@) != 66 {
                r matches Err(e) && e.error@ == "Invalid searched user public key format. Must be 66 hex characters."@
                    && e.code@ == "INVALID_USER_KEY"@
            } else if !(has_prefix(k@, "02"@) || has_prefix(k@, "03"@)) {
                r matches Err(e) && e.error@ == "Invalid searched user public key prefix. Must start with 02 or 03."@
                    && e.code@ == "INVALID_USER_KEY"@
            } else {
                r matches Ok(Some(s)) && s@ == k@.skip(2)
            },
        },
{
    match searched {
        None => Ok(None),
        Some(k) => {
            if k.as_str().len() != 66 {
                return Err(error_response(
                    "Invalid searched user public key format. Must be 66 hex characters.",
                    "INVALID_USER_KEY",
                ));
            }
            let v = chars_of(k.as_str());
            if !starts_with(&v, "02") && !starts_with(&v, "03") {
                return Err(error_response(
                    "Invalid searched user public key prefix. Must start with 02 or 03.",
                    "INVALID_USER_KEY",
                ));
            }
            proof {
                reveal_strlit("02");
                reveal_strlit("03");
            }
            let suffix = string_from_range(&v, 2, v.len());
            assert(v@.subrange(2, v@.len() as int) =~= k@.skip(2));
            Ok(Some(suffix))
        },
    }
}

// ---------------------------------------------------------------------------
// Options and time windows
// ---------------------------------------------------------------------------

/// The options of a handler's page query: `limit` items, newest first.
pub fn page_options(limit: u32, before: Option<String>, after: Option<String>) -> (o: QueryOptions)
    ensures
        o.limit == Some(limit as u64),
        opt_str(o.before) == opt_str(before),
        opt_str(o.after) == opt_str(after),
        o.sort_descending,
{
    QueryOptions { limit: Some(limit as u64), before, after, sort_descending: true }
}

/// The options of a page query that asks for one item more than the page
/// (mentions and notifications).
pub fn lookahead_options(limit: u32, before: Option<String>, after: Option<String>) -> (o: QueryOptions)
    requires
        limit < u32::MAX,
    ensures
        o.limit == Some((limit + 1) as u64),
        opt_str(o.before) == opt_str(before),
        opt_str(o.after) == opt_str(after),
        o.sort_descending,
{
    let fetch_limit = limit + 1;
    QueryOptions { limit: Some(fetch_limit as u64), before, after, sort_descending: true }
}

/// The length of a named time window in milliseconds.
pub open spec fn window_millis_spec(w: Seq<char>) -> Option<u64> {
    if w == "1h"@ {
        Some(3_600_000)
    } else if w == "6h"@ {
        Some(21_600_000)
    } else if w == "24h"@ {
        Some(86_400_000)
    } else if w == "7d"@ {
        Some(604_800_000)
    } else if w == "30d"@ {
        Some(2_592_000_000)
    } else {
        None
    }
}

/// The length of a named time window (`1h`, `6h`, `24h`, `7d`, `30d`);
/// `None` for any other name.
pub fn time_window_millis(w: &str) -> (r: Option<u64>)
    ensures
        r == window_millis_spec(w@),
{
    let v = chars_of(w);
    if crate::text::chars_equal(&v, "1h") {
        Some(3_600_000)
    } else if crate::text::chars_equal(&v, "6h") {
        Some(21_600_000)
    } else if crate::text::chars_equal(&v, "24h") {
        Some(86_400_000)
    } else if crate::text::chars_equal(&v, "7d") {
        Some(604_800_000)
    } else if crate::text::chars_equal(&v, "30d") {
        Some(2_592_000_000)
    } else {
        None
    }
}

/// The answer to a time window it does not know.
pub fn invalid_time_window_response() -> (e: ApiError)
    ensures
        e.error@ == "Invalid time window parameter"@,
        e.code@ == "INVALID_PARAMETER"@,
{
    error_response("Invalid time window parameter", "INVALID_PARAMETER")
}

/// The milliseconds a window ending now covers: from `window` before `now`
/// (never before time zero) up to `now`.
pub fn window_range(window_millis: u64, now_millis: u64) -> (r: (u64, u64))
    ensures
        r.1 == now_millis,
        r.0 == (if now_millis >= window_millis { (now_millis - window_millis) as u64 } else { 0 }),
{
    let from = if now_millis >= window_millis { now_millis - window_millis } else { 0 };
    (from, now_millis)
}

/// The window's ends in whole seconds, as the trending answer gives them.
pub fn range_in_seconds(range: (u64, u64)) -> (r: (u64, u64))
    ensures
        r.0 == range.0 / 1000,
        r.1 == range.1 / 1000,
{
    (range.0 / 1000, range.1 / 1000)
}

/// The trending hashtags with their ranks: the first is ranked 1, the next
/// 2, and so on, in the order the database gave them.
pub fn rank_hashtags(tags: Vec<(String, u64)>) -> (r: Vec<TrendingHashtag>)
    ensures
        r@.len() == tags@.len(),
        forall|i: int|
            0 <= i < tags@.len() ==> {
                &&& (#[trigger] r@[i]).hashtag@ == tags@[i].0@
                &&& r@[i].usage_count == tags@[i].1
                &&& r@[i].rank == (i + 1) as u32
            },
{
    let mut out: Vec<TrendingHashtag> = Vec::new();
    let mut i: usize = 0;
    while i < tags.len()
        invariant
            i <= tags@.len(),
            out@.len() == i,
            forall|j: int|
                0 <= j < i ==> {
                    &&& (#[trigger] out@[j]).hashtag@ == tags@[j].0@
                    &&& out@[j].usage_count == tags@[j].1
                    &&& out@[j].rank == (j + 1) as u32
                },
        decreases tags@.len() - i,
    {
        let rank = (i as u64 + 1) as u32;
        out.push(TrendingHashtag { hashtag: tags[i].0.clone(), usage_count: tags[i].1, rank });
        i = i + 1;
    }
    out
}

// ---------------------------------------------------------------------------
// Entries
// ---------------------------------------------------------------------------

/// A user in a user list: the profile (masked where blocked), with the
/// requester's block and follow status.
pub fn user_entry(record: &KBroadcastRecord, is_blocked: bool, is_followed: bool) -> (u: ServerUserPost)
    ensures
        user_from_record(u, *record),
        u.post_content@ == shown_message(is_blocked, record.base64_encoded_message@),
        u.blocked_user == Some(is_blocked),
        u.followed_user == Some(is_followed),
{
    let mut u = ServerUserPost::from_k_broadcast_record_with_block_status(record, is_blocked);
    u.user_nickname = Some(record.base64_encoded_nickname.clone());
    u.user_profile_image = clone_opt(&record.base64_encoded_profile_image);
    u.followed_user = Some(is_followed);
    u
}

/// A user in the most-active list, with the number of contents counted.
pub fn active_user_entry(record: &KBroadcastRecord, is_blocked: bool, is_followed: bool, content_count: i64) -> (u: ServerUserPost)
    ensures
        u.id@ == record.transaction_id@,
        u.user_public_key@ == record.sender_pubkey@,
        u.signature@ == record.sender_signature@,
        u.timestamp == record.block_time,
        u.user_nickname matches Some(n) && n@ == record.base64_encoded_nickname@,
        opt_str(u.user_profile_image) == opt_str(record.base64_encoded_profile_image),
        u.post_content@ == shown_message(is_blocked, record.base64_encoded_message@),
        u.blocked_user == Some(is_blocked),
        u.followed_user == Some(is_followed),
        u.followers_count is None && u.following_count is None && u.blocked_count is None,
        u.contents_count == Some(content_count),
{
    let mut u = user_entry(record, is_blocked, is_followed);
    u.contents_count = Some(content_count);
    u
}

/// A user in the requester's block list: marked blocked, without content.
pub fn blocked_user_entry(record: &KBroadcastRecord) -> (u: ServerUserPost)
    ensures
        user_from_record(u, *record),
        u.post_content@ == Seq::<char>::empty(),
        u.blocked_user == Some(true),
        u.followed_user is None,
{
    let mut u = ServerUserPost::from_k_broadcast_record(record);
    u.blocked_user = Some(true);
    u.post_content = String::new();
    u
}

/// A user in a follow list: whether the requester follows the user,
/// without content.
pub fn follow_list_entry(record: &KBroadcastRecord, followed: bool) -> (u: ServerUserPost)
    ensures
        user_from_record(u, *record),
        u.post_content@ == Seq::<char>::empty(),
        u.blocked_user is None,
        u.followed_user == Some(followed),
{
    let mut u = ServerUserPost::from_k_broadcast_record(record);
    u.followed_user = Some(followed);
    u.post_content = String::new();
    u
}

/// A user the requester follows: marked followed, without content.
pub fn followed_user_entry(record: &KBroadcastRecord) -> (u: ServerUserPost)
    ensures
        user_from_record(u, *record),
        u.post_content@ == Seq::<char>::empty(),
        u.blocked_user is None,
        u.followed_user == Some(true),
{
    follow_list_entry(record, true)
}

/// A user's details: the profile with the requester's block and follow
/// status and the user's follower, following and block counts.  A user
/// with no broadcast (the stand-in record with id 0 and no transaction)
/// is shown by key alone.
pub fn user_details_entry(
    user_public_key: &str,
    found: Option<(KBroadcastRecord, bool, bool, i64, i64, i64)>,
) -> (u: ServerUserPost)
    ensures
        match found {
            Some((record, blocked, followed, followers, following, blocks)) => {
                &&& u.blocked_user == Some(blocked)
                &&& u.followed_user == Some(followed)
                &&& u.followers_count == Some(followers)
                &&& u.following_count == Some(following)
                &&& u.blocked_count == Some(blocks)
                &&& u.contents_count is None
                &&& if record.id == 0 && record.transaction_id@.len() == 0 {
                    &&& u.id@ == Seq::<char>::empty()
                    &&& u.user_public_key@ == user_public_key@
                    &&& u.post_content@ == Seq::<char>::empty()
                    &&& u.signature@ == Seq::<char>::empty()
                    &&& u.timestamp == 0
                    &&& u.user_nickname is None
                    &&& u.user_profile_image is None
                } else {
                    &&& u.id@ == record.transaction_id@
                    &&& u.user_public_key@ == record.sender_pubkey@
                    &&& u.signature@ == record.sender_signature@
                    &&& u.timestamp == record.block_time
                    &&& u.post_content@ == shown_message(blocked, record.base64_encoded_message@)
                    &&& u.user_nickname matches Some(n) && n@ == record.base64_encoded_nickname@
                    &&& opt_str(u.user_profile_image) == opt_str(record.base64_encoded_profile_image)
                }
            },
            None => {
                &&& u.id@ == Seq::<char>::empty()
                &&& u.user_public_key@ == user_public_key@
                &&& u.post_content@ == Seq::<char>::empty()
                &&& u.signature@ == Seq::<char>::empty()
                &&& u.timestamp == 0
                &&& u.user_nickname is None
                &&& u.user_profile_image is None
                &&& u.blocked_user == Some(false)
                &&& u.followed_user == Some(false)
                &&& u.followers_count == Some(0i64)
                &&& u.following_count == Some(0i64)
                &&& u.blocked_count == Some(0i64)
                &&& u.contents_count is None
            },
        },
{
    match found {
        Some((record, blocked, followed, followers_count, following_count, blocked_count)) => {
            if record.id == 0 && record.transaction_id.as_str().is_empty() {
                ServerUserPost {
                    id: String::new(),
                    user_public_key: user_public_key.to_string(),
                    post_content: String::new(),
                    signature: String::new(),
                    timestamp: 0,
                    user_nickname: None,
                    user_profile_image: None,
                    blocked_user: Some(blocked),
                    followed_user: Some(followed),
                    followers_count: Some(followers_count),
                    following_count: Some(following_count),
                    blocked_count: Some(blocked_count),
                    contents_count: None,
                }
            } else {
                let mut user_post = ServerUserPost::from_k_broadcast_record_with_block_and_follow_status(
                    &record,
                    blocked,
                    followed,
                );
                user_post.user_nickname = Some(record.base64_encoded_nickname);
                user_post.user_profile_image = record.base64_encoded_profile_image;
                user_post.followers_count = Some(followers_count);
                user_post.following_count = Some(following_count);
                user_post.blocked_count = Some(blocked_count);
                user_post
            }
        },
        None => ServerUserPost {
            id: String::new(),
            user_public_key: user_public_key.to_string(),
            post_content: String::new(),
            signature: String::new(),
            timestamp: 0,
            user_nickname: None,
            user_profile_image: None,
            blocked_user: Some(false),
            followed_user: Some(false),
            followers_count: Some(0),
            following_count: Some(0),
            blocked_count: Some(0),
            contents_count: None,
        },
    }
}

/// Content as a post entry for a requester with the given block status:
/// posts and quotes as posts, replies naming their parent, votes as posts
/// without content.
pub open spec fn content_as_post(p: ServerPost, c: ContentRecord, is_blocked: bool) -> bool {
    match c {
        ContentRecord::Post(r) => post_from_record(p, r, is_blocked),
        ContentRecord::Reply(r) => reply_post_from_record(p, r, is_blocked),
        ContentRecord::Vote(v) => vote_post_from_record(p, v, is_blocked),
    }
}

/// The entry of content shown to a requester with the given block status
/// (the post details answer; mentions show unblocked content).
pub fn content_post(content: &ContentRecord, is_blocked: bool) -> (p: ServerPost)
    ensures
        content_as_post(p, *content, is_blocked),
{
    match content {
        ContentRecord::Post(r) => ServerPost::from_enriched_k_post_record_with_block_status(r, is_blocked),
        ContentRecord::Reply(r) => ServerPost::from_enriched_k_reply_record_with_block_status(r, is_blocked),
        ContentRecord::Vote(v) => ServerPost::from_vote_record(v, is_blocked),
    }
}

/// The entry of a notification: the content with the mention's cursor; a
/// vote shows the voted content (empty where unknown) and the voter's
/// profile.
pub fn notification_post(n: &NotificationContentRecord) -> (p: NotificationPost)
    ensures
        p.cursor@ == compound_cursor(n.mention_block_time, n.mention_id),
        p.timestamp == n.mention_block_time,
        match n.content {
            ContentRecord::Post(r) => p.id@ == r.transaction_id@ && p.post_content@ == r.base64_encoded_message@
                && p.content_type@ == (if r.referenced_content_id is Some { "quote"@ } else { "post"@ }),
            ContentRecord::Reply(r) => p.id@ == r.transaction_id@ && p.post_content@ == r.base64_encoded_message@
                && p.content_type@ == "reply"@,
            ContentRecord::Vote(v) => {
                &&& p.id@ == v.transaction_id@
                &&& p.content_type@ == "vote"@
                &&& p.vote_type matches Some(t) && t@ == v.vote@
                &&& p.voted_content matches Some(c) && c@ == text_or_empty(v.voted_content)
                &&& opt_str(p.user_nickname) == opt_str(v.user_nickname)
                &&& opt_str(p.user_profile_image) == opt_str(v.user_profile_image)
            },
        },
{
    match &n.content {
        ContentRecord::Post(r) => NotificationPost::from_k_post_record_with_mention_cursor(r, n.mention_id, n.mention_block_time),
        ContentRecord::Reply(r) => NotificationPost::from_k_reply_record_with_mention_cursor(r, n.mention_id, n.mention_block_time),
        ContentRecord::Vote(v) => {
            let voted = match &v.voted_content {
                Some(c) => c.clone(),
                None => String::new(),
            };
            NotificationPost::from_k_vote_record_with_mention_cursor(
                v,
                n.mention_id,
                n.mention_block_time,
                voted,
                clone_opt(&v.user_nickname),
                clone_opt(&v.user_profile_image),
            )
        },
    }
}

} // verus!
