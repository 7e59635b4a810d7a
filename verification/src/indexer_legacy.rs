//! The legacy indexer's reads over its embedded document store: the time
//! filter and sort order of a page query, how a fetched page is cut and
//! described by timestamps, which records mention a user, and how the
//! votes on a post are tallied.
use vstd::prelude::*;
use crate::text::{nat_decimal, str_equal, u64_to_string};
use crate::webserver::models::{opt_str, KBroadcastRecord, KPostRecord, KReplyRecord, KVoteRecord, PaginationMetadata};

verus! {

broadcast use vstd::string::group_string_axioms;

/// How a page is asked for: at most `limit` records (50 where none is
/// given), strictly before or after a block time, newest first unless
/// `sort_descending` is off.
#[derive(Debug, Clone)]
pub struct QueryOptions {
    pub limit: Option<u64>,
    pub before: Option<u64>,
    pub after: Option<u64>,
    pub sort_descending: bool,
}

/// The records a page holds where no limit is given.
pub const DEFAULT_LIMIT: u64 = 50;

/// The condition a page query puts on block times.
#[derive(Debug, Clone, Copy, PartialEq, Eq)]
pub enum TimeFilter {
    Any,
    Before(i64),
    After(i64),
}

/// The block-time condition of a query: both bounds go under the one
/// `block_time` key, so an `after` bound replaces a `before` bound.
pub fn build_time_query(options: &QueryOptions) -> (f: TimeFilter)
    ensures
        f == (match (options.before, options.after) {
            (_, Some(a)) => TimeFilter::After(a as i64),
            (Some(b), None) => TimeFilter::Before(b as i64),
            (None, None) => TimeFilter::Any,
        }),
{
    let mut query = TimeFilter::Any;
    if let Some(before_timestamp) = options.before {
        query = TimeFilter::Before(before_timestamp as i64);
    }
    if let Some(after_timestamp) = options.after {
        query = TimeFilter::After(after_timestamp as i64);
    }
    query
}

/// Whether a block time meets a time filter.
pub open spec fn passes_filter(f: TimeFilter, block_time: i64) -> bool {
    match f {
        TimeFilter::Any => true,
        TimeFilter::Before(b) => block_time < b,
        TimeFilter::After(a) => block_time > a,
    }
}

/// With both bounds given, only the `after` bound restricts the page.
pub proof fn lemma_after_bound_wins(options: QueryOptions, block_time: i64)
    requires
        options.before is Some,
        options.after is Some,
    ensures
        passes_filter(
            match (options.before, options.after) {
                (_, Some(a)) => TimeFilter::After(a as i64),
                (Some(b), None) => TimeFilter::Before(b as i64),
                (None, None) => TimeFilter::Any,
            },
            block_time,
        ) == (block_time > options.after->0 as i64),
{
}

/// The direction block times are sorted in: `-1` newest first, `1` oldest
/// first.
pub fn build_sort_order(options: &QueryOptions) -> (d: i32)
    ensures
        d == (if options.sort_descending { -1i32 } else { 1i32 }),
{
    if options.sort_descending { -1 } else { 1 }
}

/// The page size asked for.
pub open spec fn limit_spec(options: QueryOptions) -> u64 {
    match options.limit {
        Some(l) => l,
        None => DEFAULT_LIMIT,
    }
}

/// How many records a page query fetches: one more than the page holds,
/// to learn whether more follow.
pub fn query_limit(options: &QueryOptions) -> (n: u64)
    requires
        limit_spec(*options) < u64::MAX,
    ensures
        n == limit_spec(*options) + 1,
{
    let limit = match options.limit {
        Some(l) => l,
        None => DEFAULT_LIMIT,
    };
    limit + 1
}

/// Keeps the first `limit` fetched records; reports whether there were
/// more.
pub fn cut_page<T>(records: &mut Vec<T>, limit: usize) -> (has_more: bool)
    ensures
        has_more == (old(records)@.len() > limit),
        final(records)@ == (if has_more { old(records)@.take(limit as int) } else { old(records)@ }),
{
    let has_more = records.len() > limit;
    if has_more {
        records.truncate(limit);
    }
    has_more
}

/// A record pages are cut by: its block time.
pub trait HasTimestamp {
    spec fn timestamp(&self) -> u64;

    fn get_timestamp(&self) -> (t: u64)
        ensures
            t == self.timestamp(),
    ;
}

impl HasTimestamp for KPostRecord {
    open spec fn timestamp(&self) -> u64 {
        self.block_time
    }

    fn get_timestamp(&self) -> (t: u64) {
        self.block_time
    }
}

impl HasTimestamp for KReplyRecord {
    open spec fn timestamp(&self) -> u64 {
        self.block_time
    }

    fn get_timestamp(&self) -> (t: u64) {
        self.block_time
    }
}

impl HasTimestamp for KBroadcastRecord {
    open spec fn timestamp(&self) -> u64 {
        self.block_time
    }

    fn get_timestamp(&self) -> (t: u64) {
        self.block_time
    }
}

/// The metadata of a page: the last record's time to continue from (where
/// more follow) and the first record's time to go back from.
pub fn create_pagination_metadata<T: HasTimestamp>(items: &[T], limit: u32, has_more: bool) -> (m: PaginationMetadata)
    ensures
        m.has_more == has_more,
        opt_str(m.next_cursor) == (if has_more && items@.len() > 0 {
            Some(nat_decimal(items@.last().timestamp() as nat))
        } else {
            None
        }),
        opt_str(m.prev_cursor) == (if items@.len() > 0 {
            Some(nat_decimal(items@[0].timestamp() as nat))
        } else {
            None
        }),
{
    let next_cursor = if has_more && items.len() > 0 {
        Some(u64_to_string(items[items.len() - 1].get_timestamp()))
    } else {
        None
    };
    let prev_cursor = if items.len() > 0 {
        Some(u64_to_string(items[0].get_timestamp()))
    } else {
        None
    };
    PaginationMetadata { has_more, next_cursor, prev_cursor }
}

// ---------------------------------------------------------------------------
// Mentions
// ---------------------------------------------------------------------------

/// Whether a mention list names the user.
pub open spec fn names_user(mentioned: Seq<Seq<char>>, user: Seq<char>) -> bool {
    mentioned.contains(user)
}

/// A mention list names a user exactly when the user is one of its keys, at
/// any position.
pub proof fn lemma_names_user_anywhere(mentioned: Seq<Seq<char>>, user: Seq<char>)
    ensures
        names_user(mentioned, user) <==> exists|i: int| 0 <= i < mentioned.len() && #[trigger] mentioned[i] == user,
        forall|i: int| 0 <= i < mentioned.len() && #[trigger] mentioned[i] == user ==> names_user(mentioned, user),
{
}

/// Whether a mention list names the user.
pub fn mentions_user(mentioned: &Vec<String>, user: &str) -> (b: bool)
    ensures
        b == names_user(mentioned.deep_view(), user@),
{
    let mut i: usize = 0;
    while i < mentioned.len()
        invariant
            i <= mentioned.len(),
            forall|j: int| 0 <= j < i ==> mentioned.deep_view()[j] != user@,
        decreases mentioned.len() - i,
    {
        if str_equal(mentioned[i].as_str(), user) {
            assert(mentioned.deep_view()[i as int] == user@);
            return true;
        }
        i = i + 1;
    }
    false
}

/// The test a record's mention list passes when it names the user.
pub open spec fn post_names(user: Seq<char>) -> spec_fn(KPostRecord) -> bool {
    |p: KPostRecord| names_user(p.mentioned_pubkeys.deep_view(), user)
}

/// The test a reply's mention list passes when it names the user.
pub open spec fn reply_names(user: Seq<char>) -> spec_fn(KReplyRecord) -> bool {
    |r: KReplyRecord| names_user(r.mentioned_pubkeys.deep_view(), user)
}

/// Keeps the posts that mention the user, in their order.
pub fn posts_mentioning_user(posts: Vec<KPostRecord>, user: &str) -> (r: Vec<KPostRecord>)
    ensures
        r@ == posts@.filter(post_names(user@)),
{
    let ghost all = posts@;
    let mut rest = posts;
    let mut out: Vec<KPostRecord> = Vec::new();
    let ghost mut i: int = 0;
    while rest.len() > 0
        invariant
            0 <= i <= all.len(),
            rest@ == all.skip(i),
            out@ == all.take(i).filter(post_names(user@)),
        decreases rest@.len(),
    {
        let post = rest.remove(0);
        proof {
            reveal(Seq::filter);
            assert(all.take(i + 1).drop_last() =~= all.take(i));
            assert(all.take(i + 1).last() == post);
            assert(all.skip(i).remove(0) =~= all.skip(i + 1));
        }
        if mentions_user(&post.mentioned_pubkeys, user) {
            out.push(post);
        }
        proof {
            i = i + 1;
        }
    }
    assert(all.take(all.len() as int) =~= all);
    out
}

/// Keeps the replies that mention the user, in their order.
pub fn replies_mentioning_user(replies: Vec<KReplyRecord>, user: &str) -> (r: Vec<KReplyRecord>)
    ensures
        r@ == replies@.filter(reply_names(user@)),
{
    let ghost all = replies@;
    let mut rest = replies;
    let mut out: Vec<KReplyRecord> = Vec::new();
    let ghost mut i: int = 0;
    while rest.len() > 0
        invariant
            0 <= i <= all.len(),
            rest@ == all.skip(i),
            out@ == all.take(i).filter(reply_names(user@)),
        decreases rest@.len(),
    {
        let reply = rest.remove(0);
        proof {
            reveal(Seq::filter);
            assert(all.take(i + 1).drop_last() =~= all.take(i));
            assert(all.take(i + 1).last() == reply);
            assert(all.skip(i).remove(0) =~= all.skip(i + 1));
        }
        if mentions_user(&reply.mentioned_pubkeys, user) {
            out.push(reply);
        }
        proof {
            i = i + 1;
        }
    }
    assert(all.take(all.len() as int) =~= all);
    out
}

// ---------------------------------------------------------------------------
// Votes
// ---------------------------------------------------------------------------

/// The number of votes of a kind (`upvote`, `downvote`).
pub open spec fn count_kind(votes: Seq<KVoteRecord>, kind: Seq<char>) -> nat
    decreases votes.len(),
{
    if votes.len() == 0 {
        0
    } else {
        count_kind(votes.drop_last(), kind) + if votes.last().vote@ == kind { 1nat } else { 0nat }
    }
}

/// Whether the user cast a vote of this kind.
pub open spec fn cast_by(votes: Seq<KVoteRecord>, kind: Seq<char>, user: Seq<char>) -> bool {
    exists|i: int| 0 <= i < votes.len() && votes[i].vote@ == kind && #[trigger] votes[i].sender_pubkey@ == user
}

proof fn lemma_count_kind_bound(votes: Seq<KVoteRecord>, kind: Seq<char>)
    ensures
        count_kind(votes, kind) <= votes.len(),
    decreases votes.len(),
{
    if votes.len() > 0 {
        lemma_count_kind_bound(votes.drop_last(), kind);
    }
}

/// The up and down votes on a post; votes of any other value are ignored.
pub fn get_vote_counts(votes: &Vec<KVoteRecord>) -> (r: (u64, u64))
    ensures
        r.0 == count_kind(votes@, "upvote"@),
        r.1 == count_kind(votes@, "downvote"@),
{
    let mut up_votes_count: u64 = 0;
    let mut down_votes_count: u64 = 0;
    let mut i: usize = 0;
    while i < votes.len()
        invariant
            i <= votes.len(),
            up_votes_count == count_kind(votes@.take(i as int), "upvote"@),
            down_votes_count == count_kind(votes@.take(i as int), "downvote"@),
        decreases votes.len() - i,
    {
        proof {
            upvote_is_not_downvote();
            assert(votes@.take(i + 1).drop_last() == votes@.take(i as int));
            lemma_count_kind_bound(votes@.take(i as int), "upvote"@);
            lemma_count_kind_bound(votes@.take(i as int), "downvote"@);
        }
        if str_equal(votes[i].vote.as_str(), "upvote") {
            up_votes_count = up_votes_count + 1;
        } else if str_equal(votes[i].vote.as_str(), "downvote") {
            down_votes_count = down_votes_count + 1;
        }
        i = i + 1;
    }
    assert(votes@.take(votes@.len() as int) == votes@);
    (up_votes_count, down_votes_count)
}

/// The vote counts on a post with whether the requester up- or down-voted
/// it; with no requester given (an empty key) both flags are off.
pub fn get_vote_data(votes: &Vec<KVoteRecord>, requester_pubkey: &str) -> (r: (u64, u64, bool, bool))
    ensures
        r.0 == count_kind(votes@, "upvote"@),
        r.1 == count_kind(votes@, "downvote"@),
        r.2 == (requester_pubkey@.len() > 0 && cast_by(votes@, "upvote"@, requester_pubkey@)),
        r.3 == (requester_pubkey@.len() > 0 && cast_by(votes@, "downvote"@, requester_pubkey@)),
{
    if requester_pubkey.unicode_len() == 0 {
        let (up, down) = get_vote_counts(votes);
        return (up, down, false, false);
    }
    let (up, down) = get_vote_counts(votes);
    let mut is_upvoted = false;
    let mut is_downvoted = false;
    let mut i: usize = 0;
    while i < votes.len()
        invariant
            i <= votes.len(),
            is_upvoted == cast_by(votes@.take(i as int), "upvote"@, requester_pubkey@),
            is_downvoted == cast_by(votes@.take(i as int), "downvote"@, requester_pubkey@),
        decreases votes.len() - i,
    {
        let is_up = str_equal(votes[i].vote.as_str(), "upvote");
        let is_down = !is_up && str_equal(votes[i].vote.as_str(), "downvote");
        let mine = str_equal(votes[i].sender_pubkey.as_str(), requester_pubkey);
        proof {
            upvote_is_not_downvote();
            let t = votes@.take(i as int);
            let t1 = votes@.take(i + 1);
            assert forall|k: int| 0 <= k < t.len() implies t1[k] == #[trigger] t[k] by {}
            assert(t1[i as int] == votes@[i as int]);
            if cast_by(t, "upvote"@, requester_pubkey@) {
                let k = choose|k: int| 0 <= k < t.len() && t[k].vote@ == "upvote"@ && #[trigger] t[k].sender_pubkey@ == requester_pubkey@;
                assert(t1[k].sender_pubkey@ == requester_pubkey@);
            }
            if cast_by(t, "downvote"@, requester_pubkey@) {
                let k = choose|k: int| 0 <= k < t.len() && t[k].vote@ == "downvote"@ && #[trigger] t[k].sender_pubkey@ == requester_pubkey@;
                assert(t1[k].sender_pubkey@ == requester_pubkey@);
            }
            if cast_by(t1, "upvote"@, requester_pubkey@) {
                let k = choose|k: int| 0 <= k < t1.len() && t1[k].vote@ == "upvote"@ && #[trigger] t1[k].sender_pubkey@ == requester_pubkey@;
                if k < i {
                    assert(t[k].sender_pubkey@ == requester_pubkey@);
                }
            }
            if cast_by(t1, "downvote"@, requester_pubkey@) {
                let k = choose|k: int| 0 <= k < t1.len() && t1[k].vote@ == "downvote"@ && #[trigger] t1[k].sender_pubkey@ == requester_pubkey@;
                if k < i {
                    assert(t[k].sender_pubkey@ == requester_pubkey@);
                }
            }
        }
        if is_up && mine {
            is_upvoted = true;
        }
        if is_down && mine {
            is_downvoted = true;
        }
        i = i + 1;
    }
    assert(votes@.take(votes@.len() as int) == votes@);
    (up, down, is_upvoted, is_downvoted)
}

/// Whether the requester's vote on a post, if any, is an up-vote.
pub fn has_user_upvoted(vote: &Option<KVoteRecord>) -> (b: bool)
    ensures
        b == (vote matches Some(v) && v.vote@ == "upvote"@),
{
    match vote {
        Some(v) => str_equal(v.vote.as_str(), "upvote"),
        None => false,
    }
}

/// Whether the requester's vote on a post, if any, is a down-vote.
pub fn has_user_downvoted(vote: &Option<KVoteRecord>) -> (b: bool)
    ensures
        b == (vote matches Some(v) && v.vote@ == "downvote"@),
{
    match vote {
        Some(v) => str_equal(v.vote.as_str(), "downvote"),
        None => false,
    }
}

proof fn upvote_is_not_downvote()
    ensures
        "upvote"@ != "downvote"@,
{
    reveal_strlit("upvote");
    reveal_strlit("downvote");
    assert("upvote"@[0] != "downvote"@[0]);
}

/// Each vote is counted at most once: the up and down tallies together
/// never exceed the number of votes.
pub proof fn lemma_tallies_bounded(votes: Seq<KVoteRecord>)
    ensures
        count_kind(votes, "upvote"@) + count_kind(votes, "downvote"@) <= votes.len(),
    decreases votes.len(),
{
    if votes.len() > 0 {
        lemma_tallies_bounded(votes.drop_last());
        upvote_is_not_downvote();
    }
}

} // verus!
