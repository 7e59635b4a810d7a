//! The K protocol as the transaction processor reads it: payloads of the form
//! `k:1:<action>:<field>:...`, the message each action signs, and the rows
//! each action writes.
use vstd::prelude::*;
use crate::codec::{
    hex_decode, hex_decode_spec, hex_encode, hex_encode_spec, json_string_array_text,
    json_string_array_value, parse_json_string_array, render_json_string_array, utf8_decode,
    xonly_key_accepted, xonly_public_key,
};
use crate::text::{
    chars_of, control, has_prefix, is_control_char, nat_decimal, push_char, push_str, push_u64, split_chars,
    split_on, starts_with, str_equal, string_from_range,
};

verus! {

broadcast use vstd::string::group_string_axioms;

// ---------------------------------------------------------------------------
// Actions
// ---------------------------------------------------------------------------

/// A K protocol action, as parsed from a transaction payload.
#[derive(Debug, Clone)]
pub enum KActionType {
    Broadcast(KBroadcast),
    Post(KPost),
    Reply(KReply),
    Vote(KVote),
    Block(KBlock),
    Quote(KQuote),
    Follow(KFollow),
    Unknown(String),
}

#[derive(Debug, Clone)]
pub struct KBroadcast {
    pub sender_pubkey: String,
    pub sender_signature: String,
    pub base64_encoded_nickname: String,
    pub base64_encoded_profile_image: Option<String>,
    pub base64_encoded_message: String,
}

#[derive(Debug, Clone)]
pub struct KPost {
    pub sender_pubkey: String,
    pub sender_signature: String,
    pub base64_encoded_message: String,
    pub mentioned_pubkeys: Vec<String>,
}

#[derive(Debug, Clone)]
pub struct KReply {
    pub sender_pubkey: String,
    pub sender_signature: String,
    pub post_id: String,
    pub base64_encoded_message: String,
    pub mentioned_pubkeys: Vec<String>,
}

#[derive(Debug, Clone)]
pub struct KVote {
    pub sender_pubkey: String,
    pub sender_signature: String,
    pub post_id: String,
    pub vote: String,
    pub mentioned_pubkey: String,
}

#[derive(Debug, Clone)]
pub struct KBlock {
    pub sender_pubkey: String,
    pub sender_signature: String,
    pub blocking_action: String,
    pub blocked_user_pubkey: String,
}

#[derive(Debug, Clone)]
pub struct KQuote {
    pub sender_pubkey: String,
    pub sender_signature: String,
    pub content_id: String,
    pub base64_encoded_message: String,
    pub mentioned_pubkey: String,
}

#[derive(Debug, Clone)]
pub struct KFollow {
    pub sender_pubkey: String,
    pub sender_signature: String,
    pub following_action: String,
    pub followed_user_pubkey: String,
}

/// A stored post.
#[derive(Debug, Clone)]
pub struct KPostRecord {
    pub transaction_id: String,
    pub block_time: i64,
    pub sender_pubkey: String,
    pub sender_signature: String,
    pub base64_encoded_message: String,
    pub mentioned_pubkeys: Vec<String>,
}

/// A stored reply.
#[derive(Debug, Clone)]
pub struct KReplyRecord {
    pub transaction_id: String,
    pub block_time: i64,
    pub sender_pubkey: String,
    pub sender_signature: String,
    pub post_id: String,
    pub base64_encoded_message: String,
    pub mentioned_pubkeys: Vec<String>,
}

/// A stored broadcast (a user's profile).
#[derive(Debug, Clone)]
pub struct KBroadcastRecord {
    pub transaction_id: String,
    pub block_time: i64,
    pub sender_pubkey: String,
    pub sender_signature: String,
    pub base64_encoded_nickname: String,
    pub base64_encoded_profile_image: Option<String>,
    pub base64_encoded_message: String,
}

/// A stored vote.
#[derive(Debug, Clone)]
pub struct KVoteRecord {
    pub transaction_id: String,
    pub block_time: i64,
    pub sender_pubkey: String,
    pub sender_signature: String,
    pub post_id: String,
    pub vote: String,
}

/// A stored block.
#[derive(Debug, Clone)]
pub struct KBlockRecord {
    pub transaction_id: String,
    pub block_time: i64,
    pub sender_pubkey: String,
    pub sender_signature: String,
    pub blocking_action: String,
    pub blocked_user_pubkey: String,
}

/// A stored follow.
#[derive(Debug, Clone)]
pub struct KFollowRecord {
    pub transaction_id: String,
    pub block_time: i64,
    pub sender_pubkey: String,
    pub sender_signature: String,
    pub following_action: String,
    pub followed_user_pubkey: String,
}

// ---------------------------------------------------------------------------
// Abstract views of actions
// ---------------------------------------------------------------------------

pub struct BroadcastView {
    pub sender_pubkey: Seq<char>,
    pub sender_signature: Seq<char>,
    pub nickname: Seq<char>,
    pub profile_image: Option<Seq<char>>,
    pub message: Seq<char>,
}

pub struct PostView {
    pub sender_pubkey: Seq<char>,
    pub sender_signature: Seq<char>,
    pub message: Seq<char>,
    pub mentioned_pubkeys: Seq<Seq<char>>,
}

pub struct ReplyView {
    pub sender_pubkey: Seq<char>,
    pub sender_signature: Seq<char>,
    pub post_id: Seq<char>,
    pub message: Seq<char>,
    pub mentioned_pubkeys: Seq<Seq<char>>,
}

pub struct VoteView {
    pub sender_pubkey: Seq<char>,
    pub sender_signature: Seq<char>,
    pub post_id: Seq<char>,
    pub vote: Seq<char>,
    pub mentioned_pubkey: Seq<char>,
}

/// The shared shape of block and follow actions: who, signature, which
/// action, and the user it is about.
pub struct RelationView {
    pub sender_pubkey: Seq<char>,
    pub sender_signature: Seq<char>,
    pub action: Seq<char>,
    pub target_pubkey: Seq<char>,
}

pub struct QuoteView {
    pub sender_pubkey: Seq<char>,
    pub sender_signature: Seq<char>,
    pub content_id: Seq<char>,
    pub message: Seq<char>,
    pub mentioned_pubkey: Seq<char>,
}

pub enum ActionView {
    Broadcast(BroadcastView),
    Post(PostView),
    Reply(ReplyView),
    Vote(VoteView),
    Block(RelationView),
    Quote(QuoteView),
    Follow(RelationView),
    Unknown(Seq<char>),
}

pub open spec fn opt_view(o: Option<String>) -> Option<Seq<char>> {
    match o {
        Some(s) => Some(s@),
        None => None,
    }
}

impl View for KBroadcast {
    type V = BroadcastView;

    open spec fn view(&self) -> BroadcastView {
        BroadcastView {
            sender_pubkey: self.sender_pubkey@,
            sender_signature: self.sender_signature@,
            nickname: self.base64_encoded_nickname@,
            profile_image: opt_view(self.base64_encoded_profile_image),
            message: self.base64_encoded_message@,
        }
    }
}

impl View for KPost {
    type V = PostView;

    open spec fn view(&self) -> PostView {
        PostView {
            sender_pubkey: self.sender_pubkey@,
            sender_signature: self.sender_signature@,
            message: self.base64_encoded_message@,
            mentioned_pubkeys: self.mentioned_pubkeys.deep_view(),
        }
    }
}

impl View for KReply {
    type V = ReplyView;

    open spec fn view(&self) -> ReplyView {
        ReplyView {
            sender_pubkey: self.sender_pubkey@,
            sender_signature: self.sender_signature@,
            post_id: self.post_id@,
            message: self.base64_encoded_message@,
            mentioned_pubkeys: self.mentioned_pubkeys.deep_view(),
        }
    }
}

impl View for KVote {
    type V = VoteView;

    open spec fn view(&self) -> VoteView {
        VoteView {
            sender_pubkey: self.sender_pubkey@,
            sender_signature: self.sender_signature@,
            post_id: self.post_id@,
            vote: self.vote@,
            mentioned_pubkey: self.mentioned_pubkey@,
        }
    }
}

impl View for KBlock {
    type V = RelationView;

    open spec fn view(&self) -> RelationView {
        RelationView {
            sender_pubkey: self.sender_pubkey@,
            sender_signature: self.sender_signature@,
            action: self.blocking_action@,
            target_pubkey: self.blocked_user_pubkey@,
        }
    }
}

impl View for KQuote {
    type V = QuoteView;

    open spec fn view(&self) -> QuoteView {
        QuoteView {
            sender_pubkey: self.sender_pubkey@,
            sender_signature: self.sender_signature@,
            content_id: self.content_id@,
            message: self.base64_encoded_message@,
            mentioned_pubkey: self.mentioned_pubkey@,
        }
    }
}

impl View for KFollow {
    type V = RelationView;

    open spec fn view(&self) -> RelationView {
        RelationView {
            sender_pubkey: self.sender_pubkey@,
            sender_signature: self.sender_signature@,
            action: self.following_action@,
            target_pubkey: self.followed_user_pubkey@,
        }
    }
}

impl View for KActionType {
    type V = ActionView;

    open spec fn view(&self) -> ActionView {
        match self {
            KActionType::Broadcast(a) => ActionView::Broadcast(a@),
            KActionType::Post(a) => ActionView::Post(a@),
            KActionType::Reply(a) => ActionView::Reply(a@),
            KActionType::Vote(a) => ActionView::Vote(a@),
            KActionType::Block(a) => ActionView::Block(a@),
            KActionType::Quote(a) => ActionView::Quote(a@),
            KActionType::Follow(a) => ActionView::Follow(a@),
            KActionType::Unknown(s) => ActionView::Unknown(s@),
        }
    }
}

// ---------------------------------------------------------------------------
// Parsing
// ---------------------------------------------------------------------------

/// Why a payload is not a well-formed K protocol action.
#[derive(Debug, Clone, PartialEq, Eq)]
pub enum ProtocolError {
    /// The payload does not start with `k:1:`.
    InvalidPrefix,
    /// The action has fewer fields than it needs.
    InvalidFormat { action: String, expected: usize, got: usize },
    /// A vote that is neither `upvote` nor `downvote`.
    InvalidVote(String),
    /// A block action that is neither `block` nor `unblock`.
    InvalidBlockingAction(String),
    /// A follow action that is neither `follow` nor `unfollow`.
    InvalidFollowingAction(String),
}

pub enum ProtocolErrorView {
    InvalidPrefix,
    InvalidFormat { action: Seq<char>, expected: nat, got: nat },
    InvalidVote(Seq<char>),
    InvalidBlockingAction(Seq<char>),
    InvalidFollowingAction(Seq<char>),
}

impl View for ProtocolError {
    type V = ProtocolErrorView;

    open spec fn view(&self) -> ProtocolErrorView {
        match self {
            ProtocolError::InvalidPrefix => ProtocolErrorView::InvalidPrefix,
            ProtocolError::InvalidFormat { action, expected, got } => ProtocolErrorView::InvalidFormat {
                action: action@,
                expected: *expected as nat,
                got: *got as nat,
            },
            ProtocolError::InvalidVote(v) => ProtocolErrorView::InvalidVote(v@),
            ProtocolError::InvalidBlockingAction(v) => ProtocolErrorView::InvalidBlockingAction(v@),
            ProtocolError::InvalidFollowingAction(v) => ProtocolErrorView::InvalidFollowingAction(v@),
        }
    }
}

/// How a too-short action's expected field count is worded: posts and
/// replies may carry one more field, so theirs is a minimum.
pub open spec fn expected_parts_text(action: Seq<char>, expected: nat) -> Seq<char> {
    if action == "post"@ || action == "reply"@ {
        "at least "@ + nat_decimal(expected)
    } else {
        nat_decimal(expected)
    }
}

/// The text a protocol error is reported with.
pub open spec fn protocol_error_text(e: ProtocolErrorView) -> Seq<char> {
    match e {
        ProtocolErrorView::InvalidPrefix => "Invalid K protocol prefix"@,
        ProtocolErrorView::InvalidFormat { action, expected, got } => "Invalid "@ + action + " format: expected "@
            + expected_parts_text(action, expected) + " parts, got "@ + nat_decimal(got),
        ProtocolErrorView::InvalidVote(v) => "Invalid vote value: expected 'upvote' or 'downvote', got '"@ + v + "'"@,
        ProtocolErrorView::InvalidBlockingAction(v) => "Invalid blocking_action value: expected 'block' or 'unblock', got '"@
            + v + "'"@,
        ProtocolErrorView::InvalidFollowingAction(v) => "Invalid following_action value: expected 'follow' or 'unfollow', got '"@
            + v + "'"@,
    }
}

/// Writes the "Invalid ... format" text of a too-short action.
pub fn push_format_error(m: &mut String, action: &String, expected: usize, got: usize)
    ensures
        final(m)@ == old(m)@ + ("Invalid "@ + action@ + " format: expected "@
            + expected_parts_text(action@, expected as nat) + " parts, got "@ + nat_decimal(got as nat)),
{
    push_str(m, "Invalid ");
    push_str(m, action.as_str());
    push_str(m, " format: expected ");
    if str_equal(action.as_str(), "post") || str_equal(action.as_str(), "reply") {
        push_str(m, "at least ");
    }
    push_u64(m, expected as u64);
    push_str(m, " parts, got ");
    push_u64(m, got as u64);
    proof {
        reveal_strlit("at least ");
    }
    assert(final(m)@ =~= old(m)@ + ("Invalid "@ + action@ + " format: expected "@
        + expected_parts_text(action@, expected as nat) + " parts, got "@ + nat_decimal(got as nat)));
}

impl ProtocolError {
    /// The error as it is reported.
    pub fn message(&self) -> (m: String)
        ensures
            m@ == protocol_error_text(self@),
    {
        let mut m = String::new();
        match self {
            ProtocolError::InvalidPrefix => push_str(&mut m, "Invalid K protocol prefix"),
            ProtocolError::InvalidFormat { action, expected, got } => push_format_error(&mut m, action, *expected, *got),
            ProtocolError::InvalidVote(v) => {
                push_str(&mut m, "Invalid vote value: expected 'upvote' or 'downvote', got '");
                push_str(&mut m, v.as_str());
                push_str(&mut m, "'");
            },
            ProtocolError::InvalidBlockingAction(v) => {
                push_str(&mut m, "Invalid blocking_action value: expected 'block' or 'unblock', got '");
                push_str(&mut m, v.as_str());
                push_str(&mut m, "'");
            },
            ProtocolError::InvalidFollowingAction(v) => {
                push_str(&mut m, "Invalid following_action value: expected 'follow' or 'unfollow', got '");
                push_str(&mut m, v.as_str());
                push_str(&mut m, "'");
            },
        }
        assert(m@ =~= protocol_error_text(self@));
        m
    }
}

pub open spec fn result_view(r: Result<KActionType, ProtocolError>) -> Result<ActionView, ProtocolErrorView> {
    match r {
        Ok(a) => Ok(a@),
        Err(e) => Err(e@),
    }
}

/// The mentioned keys carried in a JSON field: the parsed array, or none
/// where the text is not a JSON array of strings.
pub open spec fn mentions_from_json(s: Seq<char>) -> Seq<Seq<char>> {
    match json_string_array_value(s) {
        Some(v) => v,
        None => Seq::empty(),
    }
}

/// The mentions field at `parts[i]` when present, none otherwise.
pub open spec fn optional_mentions(parts: Seq<Seq<char>>, i: int) -> Seq<Seq<char>> {
    if parts.len() > i { mentions_from_json(parts[i]) } else { Seq::empty() }
}

pub open spec fn format_error(action: Seq<char>, expected: nat, got: nat) -> ProtocolErrorView {
    ProtocolErrorView::InvalidFormat { action, expected, got }
}

/// What a payload means: after the `k:1:` prefix, the colon-separated
/// fields name an action and carry its fields; missing fields, bad vote
/// values and bad block or follow actions are errors; an action name this
/// processor does not know is reported as such, not as an error.
pub open spec fn parse_payload_spec(payload: Seq<char>) -> Result<ActionView, ProtocolErrorView> {
    if !has_prefix(payload, "k:1:"@) {
        Err(ProtocolErrorView::InvalidPrefix)
    } else {
        let parts = split_on(payload.skip(4), ':');
        let action = parts[0];
        if action == "broadcast"@ {
            if parts.len() < 6 {
                Err(format_error(action, 6, parts.len()))
            } else {
                Ok(ActionView::Broadcast(BroadcastView {
                    sender_pubkey: parts[1],
                    sender_signature: parts[2],
                    nickname: parts[3],
                    profile_image: if parts[4].len() == 0 { None } else { Some(parts[4]) },
                    message: parts[5],
                }))
            }
        } else if action == "post"@ {
            if parts.len() < 4 {
                Err(format_error(action, 4, parts.len()))
            } else {
                Ok(ActionView::Post(PostView {
                    sender_pubkey: parts[1],
                    sender_signature: parts[2],
                    message: parts[3],
                    mentioned_pubkeys: optional_mentions(parts, 4),
                }))
            }
        } else if action == "reply"@ {
            if parts.len() < 5 {
                Err(format_error(action, 5, parts.len()))
            } else {
                Ok(ActionView::Reply(ReplyView {
                    sender_pubkey: parts[1],
                    sender_signature: parts[2],
                    post_id: parts[3],
                    message: parts[4],
                    mentioned_pubkeys: optional_mentions(parts, 5),
                }))
            }
        } else if action == "vote"@ {
            if parts.len() < 6 {
                Err(format_error(action, 6, parts.len()))
            } else if parts[4] != "upvote"@ && parts[4] != "downvote"@ {
                Err(ProtocolErrorView::InvalidVote(parts[4]))
            } else {
                Ok(ActionView::Vote(VoteView {
                    sender_pubkey: parts[1],
                    sender_signature: parts[2],
                    post_id: parts[3],
                    vote: parts[4],
                    mentioned_pubkey: parts[5],
                }))
            }
        } else if action == "block"@ {
            if parts.len() < 5 {
                Err(format_error(action, 5, parts.len()))
            } else if parts[3] != "block"@ && parts[3] != "unblock"@ {
                Err(ProtocolErrorView::InvalidBlockingAction(parts[3]))
            } else {
                Ok(ActionView::Block(RelationView {
                    sender_pubkey: parts[1],
                    sender_signature: parts[2],
                    action: parts[3],
                    target_pubkey: parts[4],
                }))
            }
        } else if action == "quote"@ {
            if parts.len() < 6 {
                Err(format_error(action, 6, parts.len()))
            } else {
                Ok(ActionView::Quote(QuoteView {
                    sender_pubkey: parts[1],
                    sender_signature: parts[2],
                    content_id: parts[3],
                    message: parts[4],
                    mentioned_pubkey: parts[5],
                }))
            }
        } else if action == "follow"@ {
            if parts.len() < 5 {
                Err(format_error(action, 5, parts.len()))
            } else if parts[3] != "follow"@ && parts[3] != "unfollow"@ {
                Err(ProtocolErrorView::InvalidFollowingAction(parts[3]))
            } else {
                Ok(ActionView::Follow(RelationView {
                    sender_pubkey: parts[1],
                    sender_signature: parts[2],
                    action: parts[3],
                    target_pubkey: parts[4],
                }))
            }
        } else {
            Ok(ActionView::Unknown(action))
        }
    }
}

/// The mention list a JSON field gives: the array of strings it holds, or
/// none where it holds no such array.
pub open spec fn json_mentions(field: Seq<char>) -> Seq<Seq<char>> {
    match json_string_array_value(field) {
        Some(v) => v,
        None => Seq::empty(),
    }
}

/// A post `k:1:post:key:sig:message[:mentions]` parses field by field; its
/// mentioned keys are read from the fifth field, none where it is absent.
pub proof fn lemma_post_fields(payload: Seq<char>)
    requires
        has_prefix(payload, "k:1:"@),
        split_on(payload.skip(4), ':')[0] == "post"@,
        split_on(payload.skip(4), ':').len() >= 4,
    ensures
        ({
            let parts = split_on(payload.skip(4), ':');
            parse_payload_spec(payload) == Ok::<ActionView, ProtocolErrorView>(ActionView::Post(PostView {
                sender_pubkey: parts[1],
                sender_signature: parts[2],
                message: parts[3],
                mentioned_pubkeys: if parts.len() >= 5 { json_mentions(parts[4]) } else { Seq::empty() },
            }))
        }),
{
    reveal_strlit("broadcast");
    reveal_strlit("post");
    assert("post"@ != "broadcast"@) by {
        assert("post"@.len() != "broadcast"@.len());
    }
}

/// A reply `k:1:reply:key:sig:post:message[:mentions]` parses field by
/// field; its mentioned keys are read from the sixth field, none where it is
/// absent.
pub proof fn lemma_reply_fields(payload: Seq<char>)
    requires
        has_prefix(payload, "k:1:"@),
        split_on(payload.skip(4), ':')[0] == "reply"@,
        split_on(payload.skip(4), ':').len() >= 5,
    ensures
        ({
            let parts = split_on(payload.skip(4), ':');
            parse_payload_spec(payload) == Ok::<ActionView, ProtocolErrorView>(ActionView::Reply(ReplyView {
                sender_pubkey: parts[1],
                sender_signature: parts[2],
                post_id: parts[3],
                message: parts[4],
                mentioned_pubkeys: if parts.len() >= 6 { json_mentions(parts[5]) } else { Seq::empty() },
            }))
        }),
{
    reveal_strlit("broadcast");
    reveal_strlit("post");
    reveal_strlit("reply");
    assert("reply"@ != "broadcast"@) by {
        assert("reply"@.len() != "broadcast"@.len());
    }
    assert("reply"@ != "post"@) by {
        assert("reply"@.len() != "post"@.len());
    }
}

/// The mentions field `parts[i]` when present, read as a JSON array of
/// strings; an empty list when absent or not such an array.
pub fn mentions_field(parts: &Vec<String>, i: usize) -> (m: Vec<String>)
    ensures
        m.deep_view() == optional_mentions(parts.deep_view(), i as int),
{
    if parts.len() > i {
        match parse_json_string_array(parts[i].as_str()) {
            Some(v) => v,
            None => Vec::new(),
        }
    } else {
        Vec::new()
    }
}

/// Checks the field count of an action, naming the action in the error.
fn require_parts(parts: &Vec<String>, expected: usize) -> (r: Result<(), ProtocolError>)
    requires
        parts.len() >= 1,
    ensures
        r is Ok <==> parts.len() >= expected,
        r matches Err(e) ==> e@ == format_error(parts.deep_view()[0], expected as nat, parts.len() as nat),
{
    if parts.len() < expected {
        Err(ProtocolError::InvalidFormat { action: parts[0].clone(), expected, got: parts.len() })
    } else {
        Ok(())
    }
}

/// Parse K protocol payload and extract action type.
pub fn parse_k_protocol_payload(payload: &str) -> (r: Result<KActionType, ProtocolError>)
    ensures
        result_view(r) == parse_payload_spec(payload@),
{
    let v = chars_of(payload);
    if !starts_with(&v, "k:1:") {
        return Err(ProtocolError::InvalidPrefix);
    }
    proof {
        reveal_strlit("k:1:");
    }
    let body_str = string_from_range(&v, 4, v.len());
    let body = chars_of(body_str.as_str());
    assert(body@ == payload@.skip(4));
    let parts = split_chars(&body, ':');
    let ghost ps = parts.deep_view();
    assert(ps == split_on(payload@.skip(4), ':'));
    assert(ps[0] == parts[0]@);
    let action = parts[0].as_str();
    if str_equal(action, "broadcast") {
        require_parts(&parts, 6)?;
        assert(ps[1] == parts[1]@ && ps[2] == parts[2]@ && ps[3] == parts[3]@ && ps[4] == parts[4]@ && ps[5] == parts[5]@);
        let profile = if parts[4].as_str().unicode_len() == 0 { None } else { Some(parts[4].clone()) };
        Ok(KActionType::Broadcast(KBroadcast {
            sender_pubkey: parts[1].clone(),
            sender_signature: parts[2].clone(),
            base64_encoded_nickname: parts[3].clone(),
            base64_encoded_profile_image: profile,
            base64_encoded_message: parts[5].clone(),
        }))
    } else if str_equal(action, "post") {
        require_parts(&parts, 4)?;
        assert(ps[1] == parts[1]@ && ps[2] == parts[2]@ && ps[3] == parts[3]@);
        let mentioned_pubkeys = mentions_field(&parts, 4);
        Ok(KActionType::Post(KPost {
            sender_pubkey: parts[1].clone(),
            sender_signature: parts[2].clone(),
            base64_encoded_message: parts[3].clone(),
            mentioned_pubkeys,
        }))
    } else if str_equal(action, "reply") {
        require_parts(&parts, 5)?;
        assert(ps[1] == parts[1]@ && ps[2] == parts[2]@ && ps[3] == parts[3]@ && ps[4] == parts[4]@);
        let mentioned_pubkeys = mentions_field(&parts, 5);
        Ok(KActionType::Reply(KReply {
            sender_pubkey: parts[1].clone(),
            sender_signature: parts[2].clone(),
            post_id: parts[3].clone(),
            base64_encoded_message: parts[4].clone(),
            mentioned_pubkeys,
        }))
    } else if str_equal(action, "vote") {
        require_parts(&parts, 6)?;
        assert(ps[1] == parts[1]@ && ps[2] == parts[2]@ && ps[3] == parts[3]@ && ps[4] == parts[4]@ && ps[5] == parts[5]@);
        if !str_equal(parts[4].as_str(), "upvote") && !str_equal(parts[4].as_str(), "downvote") {
            return Err(ProtocolError::InvalidVote(parts[4].clone()));
        }
        Ok(KActionType::Vote(KVote {
            sender_pubkey: parts[1].clone(),
            sender_signature: parts[2].clone(),
            post_id: parts[3].clone(),
            vote: parts[4].clone(),
            mentioned_pubkey: parts[5].clone(),
        }))
    } else if str_equal(action, "block") {
        require_parts(&parts, 5)?;
        assert(ps[1] == parts[1]@ && ps[2] == parts[2]@ && ps[3] == parts[3]@ && ps[4] == parts[4]@);
        if !str_equal(parts[3].as_str(), "block") && !str_equal(parts[3].as_str(), "unblock") {
            return Err(ProtocolError::InvalidBlockingAction(parts[3].clone()));
        }
        Ok(KActionType::Block(KBlock {
            sender_pubkey: parts[1].clone(),
            sender_signature: parts[2].clone(),
            blocking_action: parts[3].clone(),
            blocked_user_pubkey: parts[4].clone(),
        }))
    } else if str_equal(action, "quote") {
        require_parts(&parts, 6)?;
        assert(ps[1] == parts[1]@ && ps[2] == parts[2]@ && ps[3] == parts[3]@ && ps[4] == parts[4]@ && ps[5] == parts[5]@);
        Ok(KActionType::Quote(KQuote {
            sender_pubkey: parts[1].clone(),
            sender_signature: parts[2].clone(),
            content_id: parts[3].clone(),
            base64_encoded_message: parts[4].clone(),
            mentioned_pubkey: parts[5].clone(),
        }))
    } else if str_equal(action, "follow") {
        require_parts(&parts, 5)?;
        assert(ps[1] == parts[1]@ && ps[2] == parts[2]@ && ps[3] == parts[3]@ && ps[4] == parts[4]@);
        if !str_equal(parts[3].as_str(), "follow") && !str_equal(parts[3].as_str(), "unfollow") {
            return Err(ProtocolError::InvalidFollowingAction(parts[3].clone()));
        }
        Ok(KActionType::Follow(KFollow {
            sender_pubkey: parts[1].clone(),
            sender_signature: parts[2].clone(),
            following_action: parts[3].clone(),
            followed_user_pubkey: parts[4].clone(),
        }))
    } else {
        Ok(KActionType::Unknown(parts[0].clone()))
    }
}

} // verus!
