//! The records the web server reads from the database and the shapes of its
//! API responses, with the conversions from one to the other.
use vstd::prelude::*;
use crate::text::{int_decimal, nat_decimal, push_char, push_i64, push_u64};

verus! {

broadcast use vstd::string::group_string_axioms;

// ---------------------------------------------------------------------------
// Protocol and database records
// ---------------------------------------------------------------------------

#[derive(Debug, Clone)]
pub struct KTransaction {
    pub transaction_id: String,
    pub block_time: u64,
    pub payload: String,
    pub action_type: KActionType,
}

#[derive(Debug, Clone)]
pub enum KActionType {
    Broadcast(KBroadcast),
    Post(KPost),
    Reply(KReply),
    Vote(KVote),
    Unknown(String),
}

#[derive(Debug, Clone)]
pub struct KBroadcast {
    pub sender_pubkey: String,
    pub sender_signature: String,
    pub base64_encoded_nickname: String,
    pub base64_encoded_profile_image: Option<String>,
    pub base64_encoded_message: String,
}

/// A user's latest broadcast (profile), with its row id.
#[derive(Debug, Clone)]
pub struct KBroadcastRecord {
    pub id: i64,
    pub transaction_id: String,
    pub block_time: u64,
    pub sender_pubkey: String,
    pub sender_signature: String,
    pub base64_encoded_nickname: String,
    pub base64_encoded_profile_image: Option<String>,
    pub base64_encoded_message: String,
}

#[derive(Debug, Clone)]
pub struct KPost {
    pub sender_pubkey: String,
    pub sender_signature: String,
    pub base64_encoded_message: String,
    pub mentioned_pubkeys: Vec<String>,
}

/// A post (or quote) with the counts and flags the feed shows beside it.
#[derive(Debug, Clone)]
pub struct KPostRecord {
    pub id: i64,
    pub transaction_id: String,
    pub block_time: u64,
    pub sender_pubkey: String,
    pub sender_signature: String,
    pub base64_encoded_message: String,
    pub mentioned_pubkeys: Vec<String>,
    pub content_type: Option<String>,
    pub replies_count: Option<u64>,
    pub up_votes_count: Option<u64>,
    pub down_votes_count: Option<u64>,
    pub quotes_count: Option<u64>,
    pub is_upvoted: Option<bool>,
    pub is_downvoted: Option<bool>,
    pub user_nickname: Option<String>,
    pub user_profile_image: Option<String>,
    pub referenced_content_id: Option<String>,
    pub referenced_message: Option<String>,
    pub referenced_sender_pubkey: Option<String>,
    pub referenced_nickname: Option<String>,
    pub referenced_profile_image: Option<String>,
}

#[derive(Debug, Clone)]
pub struct KReply {
    pub sender_pubkey: String,
    pub sender_signature: String,
    pub post_id: String,
    pub base64_encoded_message: String,
    pub mentioned_pubkeys: Vec<String>,
}

/// A reply with the counts and flags shown beside it.
#[derive(Debug, Clone)]
pub struct KReplyRecord {
    pub id: i64,
    pub transaction_id: String,
    pub block_time: u64,
    pub sender_pubkey: String,
    pub sender_signature: String,
    pub post_id: String,
    pub base64_encoded_message: String,
    pub mentioned_pubkeys: Vec<String>,
    pub content_type: Option<String>,
    pub replies_count: Option<u64>,
    pub up_votes_count: Option<u64>,
    pub down_votes_count: Option<u64>,
    pub quotes_count: Option<u64>,
    pub is_upvoted: Option<bool>,
    pub is_downvoted: Option<bool>,
    pub user_nickname: Option<String>,
    pub user_profile_image: Option<String>,
}

#[derive(Debug, Clone)]
pub struct KVote {
    pub sender_pubkey: String,
    pub sender_signature: String,
    pub post_id: String,
    pub vote: String,
}

/// A vote, with what a notification about it shows.
#[derive(Debug, Clone)]
pub struct KVoteRecord {
    pub id: i64,
    pub transaction_id: String,
    pub block_time: u64,
    pub sender_pubkey: String,
    pub sender_signature: String,
    pub post_id: String,
    pub vote: String,
    pub mention_block_time: Option<u64>,
    pub voted_content: Option<String>,
    pub user_nickname: Option<String>,
    pub user_profile_image: Option<String>,
}

/// Any of the three kinds of content.
#[derive(Debug, Clone)]
pub enum ContentRecord {
    Post(KPostRecord),
    Reply(KReplyRecord),
    Vote(KVoteRecord),
}

/// Content that mentions the requester, with the mention's row id and time.
#[derive(Debug, Clone)]
pub struct NotificationContentRecord {
    pub content: ContentRecord,
    pub mention_id: i64,
    pub mention_block_time: u64,
}

// ---------------------------------------------------------------------------
// API responses
// ---------------------------------------------------------------------------

/// The content a quote refers to.
#[derive(Debug, Clone)]
pub struct QuoteData {
    pub referenced_content_id: String,
    pub referenced_message: String,
    pub referenced_sender_pubkey: String,
    pub referenced_nickname: Option<String>,
    pub referenced_profile_image: Option<String>,
}

/// A post, reply, quote or vote as the API returns it.
#[derive(Debug, Clone)]
pub struct ServerPost {
    pub id: String,
    pub user_public_key: String,
    pub post_content: String,
    pub signature: String,
    pub timestamp: u64,
    pub replies_count: u64,
    pub up_votes_count: u64,
    pub down_votes_count: u64,
    pub quotes_count: u64,
    pub reposts_count: u64,
    pub parent_post_id: Option<String>,
    pub mentioned_pubkeys: Vec<String>,
    pub is_upvoted: Option<bool>,
    pub is_downvoted: Option<bool>,
    pub user_nickname: Option<String>,
    pub user_profile_image: Option<String>,
    pub blocked_user: Option<bool>,
    pub content_type: Option<String>,
    pub is_quote: bool,
    pub quote: Option<QuoteData>,
}

/// Replies are returned in the shape of posts.
pub type ServerReply = ServerPost;

#[derive(Debug, Clone)]
pub struct PostsResponse {
    pub posts: Vec<ServerPost>,
}

/// Where a page of results stands: whether more follow, and the cursors of
/// its last and first items.
#[derive(Debug, Clone)]
pub struct PaginationMetadata {
    pub has_more: bool,
    pub next_cursor: Option<String>,
    pub prev_cursor: Option<String>,
}

#[derive(Debug, Clone)]
pub struct PaginatedPostsResponse {
    pub posts: Vec<ServerPost>,
    pub pagination: PaginationMetadata,
}

#[derive(Debug, Clone)]
pub struct PaginatedNotificationsResponse {
    pub notifications: Vec<NotificationPost>,
    pub pagination: PaginationMetadata,
}

#[derive(Debug, Clone)]
pub struct TrendingHashtag {
    pub hashtag: String,
    pub usage_count: u64,
    pub rank: u32,
}

#[derive(Debug, Clone)]
pub struct TrendingHashtagsResponse {
    pub time_window: String,
    pub from_time: u64,
    pub to_time: u64,
    pub hashtags: Vec<TrendingHashtag>,
}

/// A user as the API returns it: the user's profile broadcast and how the
/// requester relates to the user.
#[derive(Debug, Clone)]
pub struct ServerUserPost {
    pub id: String,
    pub user_public_key: String,
    pub post_content: String,
    pub signature: String,
    pub timestamp: u64,
    pub user_nickname: Option<String>,
    pub user_profile_image: Option<String>,
    pub blocked_user: Option<bool>,
    pub followed_user: Option<bool>,
    pub followers_count: Option<i64>,
    pub following_count: Option<i64>,
    pub blocked_count: Option<i64>,
    pub contents_count: Option<i64>,
}

#[derive(Debug, Clone)]
pub struct UsersResponse {
    pub posts: Vec<ServerUserPost>,
}

#[derive(Debug, Clone)]
pub struct PaginatedUsersResponse {
    pub posts: Vec<ServerUserPost>,
    pub pagination: PaginationMetadata,
}

#[derive(Debug, Clone)]
pub struct PostDetailsResponse {
    pub post: ServerPost,
}

/// An error answer: a message and a code.
#[derive(Debug, Clone)]
pub struct ApiError {
    pub error: String,
    pub code: String,
}

/// A notification: content mentioning the requester, or a vote on the
/// requester's content.
#[derive(Debug, Clone)]
pub struct NotificationPost {
    pub id: String,
    pub user_public_key: String,
    pub post_content: String,
    pub timestamp: u64,
    pub user_nickname: Option<String>,
    pub user_profile_image: Option<String>,
    pub content_type: String,
    pub cursor: String,
    pub vote_type: Option<String>,
    pub mention_block_time: Option<u64>,
    pub content_id: Option<String>,
    pub post_id: Option<String>,
    pub voted_content: Option<String>,
}

#[derive(Debug, Clone)]
pub struct RepliesResponse {
    pub replies: Vec<ServerReply>,
}

#[derive(Debug, Clone)]
pub struct PaginatedRepliesResponse {
    pub replies: Vec<ServerReply>,
    pub pagination: PaginationMetadata,
}

// ---------------------------------------------------------------------------
// Helpers
// ---------------------------------------------------------------------------

pub open spec fn opt_str(o: Option<String>) -> Option<Seq<char>> {
    match o {
        Some(s) => Some(s@),
        None => None,
    }
}

pub fn clone_opt(o: &Option<String>) -> (r: Option<String>)
    ensures
        opt_str(r) == opt_str(*o),
{
    match o {
        Some(s) => Some(s.clone()),
        None => None,
    }
}

pub fn clone_strings(v: &Vec<String>) -> (r: Vec<String>)
    ensures
        r.deep_view() == v.deep_view(),
{
    let mut out: Vec<String> = Vec::new();
    let mut i: usize = 0;
    while i < v.len()
        invariant
            i <= v.len(),
            out.deep_view() == v.deep_view().take(i as int),
        decreases v.len() - i,
    {
        let ghost before = out.deep_view();
        out.push(v[i].clone());
        assert(out.deep_view() == before.push(v.deep_view()[i as int]));
        assert(v.deep_view().take(i + 1) == v.deep_view().take(i as int).push(v.deep_view()[i as int]));
        i = i + 1;
    }
    assert(v.deep_view().take(v.len() as int) == v.deep_view());
    out
}

/// The base64 text shown in place of a blocked user's message (it encodes
/// ten asterisks).
pub open spec fn masked_message() -> Seq<char> {
    "KioqKioqKioqKg=="@
}

/// A message as shown to the requester: masked when its author is blocked.
pub open spec fn shown_message(is_blocked: bool, message: Seq<char>) -> Seq<char> {
    if is_blocked { masked_message() } else { message }
}

fn shown(is_blocked: bool, message: &String) -> (s: String)
    ensures
        s@ == shown_message(is_blocked, message@),
{
    if is_blocked { "KioqKioqKioqKg==".to_string() } else { message.clone() }
}

pub open spec fn count_or_zero(c: Option<u64>) -> u64 {
    match c {
        Some(n) => n,
        None => 0,
    }
}

/// The compound cursor `<timestamp>_<id>` a row is paged by.
pub open spec fn compound_cursor(timestamp: u64, id: i64) -> Seq<char> {
    nat_decimal(timestamp as nat) + seq!['_'] + int_decimal(id as int)
}

/// Create compound cursor: `<timestamp>_<id>` in decimal.
pub fn create_compound_cursor(timestamp: u64, id: i64) -> (s: String)
    ensures
        s@ == compound_cursor(timestamp, id),
{
    let mut s = String::new();
    push_u64(&mut s, timestamp);
    push_char(&mut s, '_');
    push_i64(&mut s, id);
    assert(Seq::<char>::empty() + nat_decimal(timestamp as nat) == nat_decimal(timestamp as nat));
    s
}

// ---------------------------------------------------------------------------
// Conversions
// ---------------------------------------------------------------------------

/// The fields every user entry copies from the broadcast record.
pub open spec fn user_from_record(u: ServerUserPost, r: KBroadcastRecord) -> bool {
    &&& u.id@ == r.transaction_id@
    &&& u.user_public_key@ == r.sender_pubkey@
    &&& u.signature@ == r.sender_signature@
    &&& u.timestamp == r.block_time
    &&& u.user_nickname matches Some(n) && n@ == r.base64_encoded_nickname@
    &&& opt_str(u.user_profile_image) == opt_str(r.base64_encoded_profile_image)
    &&& u.followers_count is None
    &&& u.following_count is None
    &&& u.blocked_count is None
    &&& u.contents_count is None
}

impl ServerUserPost {
    pub fn from_k_broadcast_record(record: &KBroadcastRecord) -> (u: Self)
        ensures
            user_from_record(u, *record),
            u.post_content@ == record.base64_encoded_message@,
            u.blocked_user is None,
            u.followed_user is None,
    {
        ServerUserPost {
            id: record.transaction_id.clone(),
            user_public_key: record.sender_pubkey.clone(),
            post_content: record.base64_encoded_message.clone(),
            signature: record.sender_signature.clone(),
            timestamp: record.block_time,
            user_nickname: Some(record.base64_encoded_nickname.clone()),
            user_profile_image: clone_opt(&record.base64_encoded_profile_image),
            blocked_user: None,
            followed_user: None,
            followers_count: None,
            following_count: None,
            blocked_count: None,
            contents_count: None,
        }
    }

    /// A user entry whose message is masked when the requester blocks the user.
    pub fn from_k_broadcast_record_with_block_status(record: &KBroadcastRecord, is_blocked: bool) -> (u: Self)
        ensures
            user_from_record(u, *record),
            u.post_content@ == shown_message(is_blocked, record.base64_encoded_message@),
            u.blocked_user == Some(is_blocked),
            u.followed_user is None,
    {
        ServerUserPost {
            id: record.transaction_id.clone(),
            user_public_key: record.sender_pubkey.clone(),
            post_content: shown(is_blocked, &record.base64_encoded_message),
            signature: record.sender_signature.clone(),
            timestamp: record.block_time,
            user_nickname: Some(record.base64_encoded_nickname.clone()),
            user_profile_image: clone_opt(&record.base64_encoded_profile_image),
            blocked_user: Some(is_blocked),
            followed_user: None,
            followers_count: None,
            following_count: None,
            blocked_count: None,
            contents_count: None,
        }
    }

    /// As above, also saying whether the requester follows the user.
    pub fn from_k_broadcast_record_with_block_and_follow_status(
        record: &KBroadcastRecord,
        is_blocked: bool,
        is_followed: bool,
    ) -> (u: Self)
        ensures
            user_from_record(u, *record),
            u.post_content@ == shown_message(is_blocked, record.base64_encoded_message@),
            u.blocked_user == Some(is_blocked),
            u.followed_user == Some(is_followed),
    {
        ServerUserPost {
            id: record.transaction_id.clone(),
            user_public_key: record.sender_pubkey.clone(),
            post_content: shown(is_blocked, &record.base64_encoded_message),
            signature: record.sender_signature.clone(),
            timestamp: record.block_time,
            user_nickname: Some(record.base64_encoded_nickname.clone()),
            user_profile_image: clone_opt(&record.base64_encoded_profile_image),
            blocked_user: Some(is_blocked),
            followed_user: Some(is_followed),
            followers_count: None,
            following_count: None,
            blocked_count: None,
            contents_count: None,
        }
    }
}

/// The quote a post record carries: present exactly when the referenced
/// content id, message and sender are all known.
pub open spec fn quote_of(r: KPostRecord, q: Option<QuoteData>) -> bool {
    match (r.referenced_content_id, r.referenced_message, r.referenced_sender_pubkey) {
        (Some(id), Some(msg), Some(pk)) => q matches Some(d) && {
            &&& d.referenced_content_id@ == id@
            &&& d.referenced_message@ == msg@
            &&& d.referenced_sender_pubkey@ == pk@
            &&& opt_str(d.referenced_nickname) == opt_str(r.referenced_nickname)
            &&& opt_str(d.referenced_profile_image) == opt_str(r.referenced_profile_image)
        },
        _ => q is None,
    }
}

/// A post (or quote) as the API shows it to a requester who has, or has not,
/// blocked its author.
pub open spec fn post_from_record(p: ServerPost, r: KPostRecord, is_blocked: bool) -> bool {
    &&& p.id@ == r.transaction_id@
    &&& p.user_public_key@ == r.sender_pubkey@
    &&& p.post_content@ == shown_message(is_blocked, r.base64_encoded_message@)
    &&& p.signature@ == r.sender_signature@
    &&& p.timestamp == r.block_time
    &&& p.replies_count == count_or_zero(r.replies_count)
    &&& p.up_votes_count == count_or_zero(r.up_votes_count)
    &&& p.down_votes_count == count_or_zero(r.down_votes_count)
    &&& p.quotes_count == count_or_zero(r.quotes_count)
    &&& p.reposts_count == 0
    &&& p.parent_post_id is None
    &&& p.mentioned_pubkeys.deep_view() == r.mentioned_pubkeys.deep_view()
    &&& p.is_upvoted == r.is_upvoted
    &&& p.is_downvoted == r.is_downvoted
    &&& opt_str(p.user_nickname) == opt_str(r.user_nickname)
    &&& opt_str(p.user_profile_image) == opt_str(r.user_profile_image)
    &&& p.blocked_user == Some(is_blocked)
    &&& opt_str(p.content_type) == opt_str(r.content_type)
    &&& quote_of(r, p.quote)
    &&& p.is_quote == p.quote is Some
}

/// A post shown to a requester who blocks its author carries the masked
/// text (base64 of ten asterisks) in place of its message, whatever the
/// message was, and says the author is blocked; otherwise it carries the
/// message as stored.
pub proof fn lemma_blocked_post_masked(p: ServerPost, r: KPostRecord, is_blocked: bool)
    requires
        post_from_record(p, r, is_blocked),
    ensures
        is_blocked ==> p.post_content@ == "KioqKioqKioqKg=="@,
        !is_blocked ==> p.post_content@ == r.base64_encoded_message@,
        p.blocked_user == Some(is_blocked),
{
}

/// A reply as the API shows it, in the shape of a post that names its
/// parent.
pub open spec fn reply_post_from_record(p: ServerPost, r: KReplyRecord, is_blocked: bool) -> bool {
    &&& p.id@ == r.transaction_id@
    &&& p.user_public_key@ == r.sender_pubkey@
    &&& p.post_content@ == shown_message(is_blocked, r.base64_encoded_message@)
    &&& p.signature@ == r.sender_signature@
    &&& p.timestamp == r.block_time
    &&& p.replies_count == count_or_zero(r.replies_count)
    &&& p.up_votes_count == count_or_zero(r.up_votes_count)
    &&& p.down_votes_count == count_or_zero(r.down_votes_count)
    &&& p.quotes_count == count_or_zero(r.quotes_count)
    &&& p.reposts_count == 0
    &&& p.parent_post_id matches Some(pp) && pp@ == r.post_id@
    &&& p.mentioned_pubkeys.deep_view() == r.mentioned_pubkeys.deep_view()
    &&& p.is_upvoted == r.is_upvoted
    &&& p.is_downvoted == r.is_downvoted
    &&& opt_str(p.user_nickname) == opt_str(r.user_nickname)
    &&& opt_str(p.user_profile_image) == opt_str(r.user_profile_image)
    &&& p.blocked_user == Some(is_blocked)
    &&& opt_str(p.content_type) == opt_str(r.content_type)
    &&& !p.is_quote
    &&& p.quote is None
}

/// A reply shown to a requester who blocks its author carries the masked
/// text in place of its message, whatever the message was; otherwise the
/// message as stored.
pub proof fn lemma_blocked_reply_masked(p: ServerPost, r: KReplyRecord, is_blocked: bool)
    requires
        reply_post_from_record(p, r, is_blocked),
    ensures
        is_blocked ==> p.post_content@ == "KioqKioqKioqKg=="@,
        !is_blocked ==> p.post_content@ == r.base64_encoded_message@,
        p.blocked_user == Some(is_blocked),
{
}

/// A vote as the API shows it, in the shape of a post with no content.
pub open spec fn vote_post_from_record(p: ServerPost, r: KVoteRecord, is_blocked: bool) -> bool {
    &&& p.id@ == r.transaction_id@
    &&& p.user_public_key@ == r.sender_pubkey@
    &&& p.post_content@ == Seq::<char>::empty()
    &&& p.signature@ == r.sender_signature@
    &&& p.timestamp == r.block_time
    &&& p.replies_count == 0 && p.up_votes_count == 0 && p.down_votes_count == 0
    &&& p.quotes_count == 0 && p.reposts_count == 0
    &&& p.parent_post_id matches Some(pp) && pp@ == r.post_id@
    &&& p.mentioned_pubkeys.len() == 0
    &&& p.is_upvoted is None && p.is_downvoted is None
    &&& opt_str(p.user_nickname) == opt_str(r.user_nickname)
    &&& opt_str(p.user_profile_image) == opt_str(r.user_profile_image)
    &&& p.blocked_user == Some(is_blocked)
    &&& p.content_type matches Some(ct) && ct@ == "vote"@
    &&& !p.is_quote
    &&& p.quote is None
}

impl ServerPost {
    /// A post as the API shows it: message masked when its author is
    /// blocked, missing counts as zero, and the quoted content when it is a
    /// quote.
    pub fn from_enriched_k_post_record_with_block_status(record: &KPostRecord, is_blocked: bool) -> (p: Self)
        ensures
            post_from_record(p, *record, is_blocked),
    {
        let quote = match (&record.referenced_content_id, &record.referenced_message, &record.referenced_sender_pubkey) {
            (Some(ref_id), Some(ref_msg), Some(ref_pubkey)) => Some(QuoteData {
                referenced_content_id: ref_id.clone(),
                referenced_message: ref_msg.clone(),
                referenced_sender_pubkey: ref_pubkey.clone(),
                referenced_nickname: clone_opt(&record.referenced_nickname),
                referenced_profile_image: clone_opt(&record.referenced_profile_image),
            }),
            _ => None,
        };
        let is_quote = quote.is_some();
        ServerPost {
            id: record.transaction_id.clone(),
            user_public_key: record.sender_pubkey.clone(),
            post_content: shown(is_blocked, &record.base64_encoded_message),
            signature: record.sender_signature.clone(),
            timestamp: record.block_time,
            replies_count: match record.replies_count { Some(n) => n, None => 0 },
            up_votes_count: match record.up_votes_count { Some(n) => n, None => 0 },
            down_votes_count: match record.down_votes_count { Some(n) => n, None => 0 },
            quotes_count: match record.quotes_count { Some(n) => n, None => 0 },
            reposts_count: 0,
            parent_post_id: None,
            mentioned_pubkeys: clone_strings(&record.mentioned_pubkeys),
            is_upvoted: record.is_upvoted,
            is_downvoted: record.is_downvoted,
            user_nickname: clone_opt(&record.user_nickname),
            user_profile_image: clone_opt(&record.user_profile_image),
            blocked_user: Some(is_blocked),
            content_type: clone_opt(&record.content_type),
            is_quote,
            quote,
        }
    }

    /// A reply as the API shows it: like a post, with the post it answers as
    /// parent and never a quote.
    pub fn from_enriched_k_reply_record_with_block_status(record: &KReplyRecord, is_blocked: bool) -> (p: Self)
        ensures
            reply_post_from_record(p, *record, is_blocked),
    {
        ServerPost {
            id: record.transaction_id.clone(),
            user_public_key: record.sender_pubkey.clone(),
            post_content: shown(is_blocked, &record.base64_encoded_message),
            signature: record.sender_signature.clone(),
            timestamp: record.block_time,
            replies_count: match record.replies_count { Some(n) => n, None => 0 },
            up_votes_count: match record.up_votes_count { Some(n) => n, None => 0 },
            down_votes_count: match record.down_votes_count { Some(n) => n, None => 0 },
            quotes_count: match record.quotes_count { Some(n) => n, None => 0 },
            reposts_count: 0,
            parent_post_id: Some(record.post_id.clone()),
            mentioned_pubkeys: clone_strings(&record.mentioned_pubkeys),
            is_upvoted: record.is_upvoted,
            is_downvoted: record.is_downvoted,
            user_nickname: clone_opt(&record.user_nickname),
            user_profile_image: clone_opt(&record.user_profile_image),
            blocked_user: Some(is_blocked),
            content_type: clone_opt(&record.content_type),
            is_quote: false,
            quote: None,
        }
    }

    /// A vote in the shape of a post: no content, no counts, the voted post
    /// as parent, content type `vote`.
    pub fn from_vote_record(record: &KVoteRecord, is_blocked: bool) -> (p: Self)
        ensures
            vote_post_from_record(p, *record, is_blocked),
    {
        ServerPost {
            id: record.transaction_id.clone(),
            user_public_key: record.sender_pubkey.clone(),
            post_content: String::new(),
            signature: record.sender_signature.clone(),
            timestamp: record.block_time,
            replies_count: 0,
            up_votes_count: 0,
            down_votes_count: 0,
            quotes_count: 0,
            reposts_count: 0,
            parent_post_id: Some(record.post_id.clone()),
            mentioned_pubkeys: Vec::new(),
            is_upvoted: None,
            is_downvoted: None,
            user_nickname: clone_opt(&record.user_nickname),
            user_profile_image: clone_opt(&record.user_profile_image),
            blocked_user: Some(is_blocked),
            content_type: Some("vote".to_string()),
            is_quote: false,
            quote: None,
        }
    }
}

/// The fields every notification copies: id, author, the mention time as
/// timestamp, and the mention's cursor.
pub open spec fn notification_base(n: NotificationPost, id: Seq<char>, author: Seq<char>, mention_id: i64, mention_block_time: u64) -> bool {
    &&& n.id@ == id
    &&& n.user_public_key@ == author
    &&& n.timestamp == mention_block_time
    &&& n.cursor@ == compound_cursor(mention_block_time, mention_id)
    &&& n.post_id is None
}

impl NotificationPost {
    /// A notification about a post that mentions the requester; a quote when
    /// the post refers to other content.
    pub fn from_k_post_record_with_mention_cursor(record: &KPostRecord, mention_id: i64, mention_block_time: u64) -> (n: Self)
        ensures
            notification_base(n, record.transaction_id@, record.sender_pubkey@, mention_id, mention_block_time),
            n.post_content@ == record.base64_encoded_message@,
            opt_str(n.user_nickname) == opt_str(record.user_nickname),
            opt_str(n.user_profile_image) == opt_str(record.user_profile_image),
            n.content_type@ == (if record.referenced_content_id is Some { "quote"@ } else { "post"@ }),
            n.vote_type is None && n.mention_block_time is None && n.content_id is None && n.voted_content is None,
    {
        let content_type = if record.referenced_content_id.is_some() { "quote".to_string() } else { "post".to_string() };
        NotificationPost {
            id: record.transaction_id.clone(),
            user_public_key: record.sender_pubkey.clone(),
            post_content: record.base64_encoded_message.clone(),
            timestamp: mention_block_time,
            user_nickname: clone_opt(&record.user_nickname),
            user_profile_image: clone_opt(&record.user_profile_image),
            content_type,
            cursor: create_compound_cursor(mention_block_time, mention_id),
            vote_type: None,
            mention_block_time: None,
            content_id: None,
            post_id: None,
            voted_content: None,
        }
    }

    /// A notification about a reply that mentions the requester.
    pub fn from_k_reply_record_with_mention_cursor(record: &KReplyRecord, mention_id: i64, mention_block_time: u64) -> (n: Self)
        ensures
            notification_base(n, record.transaction_id@, record.sender_pubkey@, mention_id, mention_block_time),
            n.post_content@ == record.base64_encoded_message@,
            opt_str(n.user_nickname) == opt_str(record.user_nickname),
            opt_str(n.user_profile_image) == opt_str(record.user_profile_image),
            n.content_type@ == "reply"@,
            n.vote_type is None && n.mention_block_time is None && n.content_id is None && n.voted_content is None,
    {
        NotificationPost {
            id: record.transaction_id.clone(),
            user_public_key: record.sender_pubkey.clone(),
            post_content: record.base64_encoded_message.clone(),
            timestamp: mention_block_time,
            user_nickname: clone_opt(&record.user_nickname),
            user_profile_image: clone_opt(&record.user_profile_image),
            content_type: "reply".to_string(),
            cursor: create_compound_cursor(mention_block_time, mention_id),
            vote_type: None,
            mention_block_time: None,
            content_id: None,
            post_id: None,
            voted_content: None,
        }
    }

    /// A notification about a vote on the requester's content.
    pub fn from_k_vote_record_with_mention_cursor(
        vote_record: &KVoteRecord,
        mention_id: i64,
        mention_block_time: u64,
        voted_content: String,
        user_nickname: Option<String>,
        user_profile_image: Option<String>,
    ) -> (n: Self)
        ensures
            notification_base(n, vote_record.transaction_id@, vote_record.sender_pubkey@, mention_id, mention_block_time),
            n.post_content@ == Seq::<char>::empty(),
            opt_str(n.user_nickname) == opt_str(user_nickname),
            opt_str(n.user_profile_image) == opt_str(user_profile_image),
            n.content_type@ == "vote"@,
            n.vote_type matches Some(v) && v@ == vote_record.vote@,
            n.mention_block_time == Some(mention_block_time),
            n.content_id matches Some(c) && c@ == vote_record.post_id@,
            n.voted_content matches Some(c) && c@ == voted_content@,
    {
        NotificationPost {
            id: vote_record.transaction_id.clone(),
            user_public_key: vote_record.sender_pubkey.clone(),
            post_content: String::new(),
            timestamp: mention_block_time,
            user_nickname,
            user_profile_image,
            content_type: "vote".to_string(),
            cursor: create_compound_cursor(mention_block_time, mention_id),
            vote_type: Some(vote_record.vote.clone()),
            mention_block_time: Some(mention_block_time),
            content_id: Some(vote_record.post_id.clone()),
            post_id: None,
            voted_content: Some(voted_content),
        }
    }
}

} // verus!
