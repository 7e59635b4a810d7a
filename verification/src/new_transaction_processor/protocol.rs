//! The K protocol actions this processor reads, and how a payload is read
//! into one.
use vstd::prelude::*;
use crate::text::{
    chars_of, has_prefix, nat_decimal, push_str, split_chars, split_on, starts_with, str_equal, string_from_range,
};
use crate::transaction_processor::protocol::{
    expected_parts_text, json_mentions, mentions_field, optional_mentions, push_format_error, BroadcastView, PostView, ReplyView,
};
pub use crate::transaction_processor::protocol::{KBroadcast, KPost, KReply};

verus! {

broadcast use vstd::string::group_string_axioms;

/// An action this processor knows, or the name of one it does not.
#[derive(Debug, Clone)]
pub enum KActionType {
    Broadcast(KBroadcast),
    Post(KPost),
    Reply(KReply),
    Vote(KVote),
    Unknown(String),
}

/// A vote on a post: `upvote` or `downvote`.
#[derive(Debug, Clone)]
pub struct KVote {
    pub sender_pubkey: String,
    pub sender_signature: String,
    pub post_id: String,
    pub vote: String,
}

/// A stored post.
#[derive(Debug, Clone)]
pub struct KPostRecord {
    pub transaction_id: String,
    pub block_time: i64,
    pub sender_pubkey: String,
    pub sender_signature: String,
    pub base64_encoded_message: String,
    pub mentioned_pubkeys: Vec<String>,
}

/// A stored reply.
#[derive(Debug, Clone)]
pub struct KReplyRecord {
    pub transaction_id: String,
    pub block_time: i64,
    pub sender_pubkey: String,
    pub sender_signature: String,
    pub post_id: String,
    pub base64_encoded_message: String,
    pub mentioned_pubkeys: Vec<String>,
}

/// A stored broadcast.
#[derive(Debug, Clone)]
pub struct KBroadcastRecord {
    pub transaction_id: String,
    pub block_time: i64,
    pub sender_pubkey: String,
    pub sender_signature: String,
    pub base64_encoded_nickname: String,
    pub base64_encoded_profile_image: Option<String>,
    pub base64_encoded_message: String,
}

/// A stored vote; the voted post's author is not known yet and stays
/// empty.
#[derive(Debug, Clone)]
pub struct KVoteRecord {
    pub transaction_id: String,
    pub block_time: i64,
    pub sender_pubkey: String,
    pub sender_signature: String,
    pub post_id: String,
    pub vote: String,
    pub author_pubkey: String,
}

pub struct VoteView {
    pub sender_pubkey: Seq<char>,
    pub sender_signature: Seq<char>,
    pub post_id: Seq<char>,
    pub vote: Seq<char>,
}

pub enum ActionView {
    Broadcast(BroadcastView),
    Post(PostView),
    Reply(ReplyView),
    Vote(VoteView),
    Unknown(Seq<char>),
}

impl View for KVote {
    type V = VoteView;

    open spec fn view(&self) -> VoteView {
        VoteView {
            sender_pubkey: self.sender_pubkey@,
            sender_signature: self.sender_signature@,
            post_id: self.post_id@,
            vote: self.vote@,
        }
    }
}

impl View for KActionType {
    type V = ActionView;

    open spec fn view(&self) -> ActionView {
        match self {
            KActionType::Broadcast(a) => ActionView::Broadcast(a@),
            KActionType::Post(a) => ActionView::Post(a@),
            KActionType::Reply(a) => ActionView::Reply(a@),
            KActionType::Vote(a) => ActionView::Vote(a@),
            KActionType::Unknown(s) => ActionView::Unknown(s@),
        }
    }
}

/// Why a payload is not a well-formed action.
#[derive(Debug, Clone, PartialEq, Eq)]
pub enum ProtocolError {
    /// The payload does not start with `k:1:`.
    InvalidPrefix,
    /// The action has fewer fields than it needs.
    InvalidFormat { action: String, expected: usize, got: usize },
    /// A vote that is neither `upvote` nor `downvote`.
    InvalidVote(String),
}

pub enum ProtocolErrorView {
    InvalidPrefix,
    InvalidFormat { action: Seq<char>, expected: nat, got: nat },
    InvalidVote(Seq<char>),
}

impl View for ProtocolError {
    type V = ProtocolErrorView;

    open spec fn view(&self) -> ProtocolErrorView {
        match self {
            ProtocolError::InvalidPrefix => ProtocolErrorView::InvalidPrefix,
            ProtocolError::InvalidFormat { action, expected, got } => ProtocolErrorView::InvalidFormat {
                action: action@,
                expected: *expected as nat,
                got: *got as nat,
            },
            ProtocolError::InvalidVote(v) => ProtocolErrorView::InvalidVote(v@),
        }
    }
}

/// The text a protocol error is reported with.
pub open spec fn protocol_error_text(e: ProtocolErrorView) -> Seq<char> {
    match e {
        ProtocolErrorView::InvalidPrefix => "Invalid K protocol prefix"@,
        ProtocolErrorView::InvalidFormat { action, expected, got } => "Invalid "@ + action + " format: expected "@
            + expected_parts_text(action, expected) + " parts, got "@ + nat_decimal(got),
        ProtocolErrorView::InvalidVote(v) => "Invalid vote value: expected 'upvote' or 'downvote', got '"@ + v + "'"@,
    }
}

impl ProtocolError {
    /// The error as it is reported.
    pub fn message(&self) -> (m: String)
        ensures
            m@ == protocol_error_text(self@),
    {
        let mut m = String::new();
        match self {
            ProtocolError::InvalidPrefix => push_str(&mut m, "Invalid K protocol prefix"),
            ProtocolError::InvalidFormat { action, expected, got } => push_format_error(&mut m, action, *expected, *got),
            ProtocolError::InvalidVote(v) => {
                push_str(&mut m, "Invalid vote value: expected 'upvote' or 'downvote', got '");
                push_str(&mut m, v.as_str());
                push_str(&mut m, "'");
            },
        }
        assert(m@ =~= protocol_error_text(self@));
        m
    }
}

pub open spec fn result_view(r: Result<KActionType, ProtocolError>) -> Result<ActionView, ProtocolErrorView> {
    match r {
        Ok(a) => Ok(a@),
        Err(e) => Err(e@),
    }
}

pub open spec fn format_error(action: Seq<char>, expected: nat, got: nat) -> ProtocolErrorView {
    ProtocolErrorView::InvalidFormat { action, expected, got }
}

/// What a payload means: after `k:1:`, colon-separated fields name the
/// action and carry its fields.  Broadcasts need 6 fields, posts 4 (a
/// fifth holds the mentions), replies 5 (a sixth holds the mentions),
/// votes 5 with a vote of `upvote` or `downvote`; other names are reported
/// as unknown actions.
pub open spec fn parse_payload_spec(payload: Seq<char>) -> Result<ActionView, ProtocolErrorView> {
    if !has_prefix(payload, "k:1:"@) {
        Err(ProtocolErrorView::InvalidPrefix)
    } else {
        let parts = split_on(payload.skip(4), ':');
        let action = parts[0];
        if action == "broadcast"@ {
            if parts.len() < 6 {
                Err(format_error(action, 6, parts.len()))
            } else {
                Ok(ActionView::Broadcast(BroadcastView {
                    sender_pubkey: parts[1],
                    sender_signature: parts[2],
                    nickname: parts[3],
                    profile_image: if parts[4].len() == 0 { None } else { Some(parts[4]) },
                    message: parts[5],
                }))
            }
        } else if action == "post"@ {
            if parts.len() < 4 {
                Err(format_error(action, 4, parts.len()))
            } else {
                Ok(ActionView::Post(PostView {
                    sender_pubkey: parts[1],
                    sender_signature: parts[2],
                    message: parts[3],
                    mentioned_pubkeys: optional_mentions(parts, 4),
                }))
            }
        } else if action == "reply"@ {
            if parts.len() < 5 {
                Err(format_error(action, 5, parts.len()))
            } else {
                Ok(ActionView::Reply(ReplyView {
                    sender_pubkey: parts[1],
                    sender_signature: parts[2],
                    post_id: parts[3],
                    message: parts[4],
                    mentioned_pubkeys: optional_mentions(parts, 5),
                }))
            }
        } else if action == "vote"@ {
            if parts.len() < 5 {
                Err(format_error(action, 5, parts.len()))
            } else if parts[4] != "upvote"@ && parts[4] != "downvote"@ {
                Err(ProtocolErrorView::InvalidVote(parts[4]))
            } else {
                Ok(ActionView::Vote(VoteView {
                    sender_pubkey: parts[1],
                    sender_signature: parts[2],
                    post_id: parts[3],
                    vote: parts[4],
                }))
            }
        } else {
            Ok(ActionView::Unknown(action))
        }
    }
}

fn require_parts(parts: &Vec<String>, expected: usize) -> (r: Result<(), ProtocolError>)
    requires
        parts.len() >= 1,
    ensures
        r is Ok <==> parts.len() >= expected,
        r matches Err(e) ==> e@ == format_error(parts.deep_view()[0], expected as nat, parts.len() as nat),
{
    if parts.len() < expected {
        Err(ProtocolError::InvalidFormat { action: parts[0].clone(), expected, got: parts.len() })
    } else {
        Ok(())
    }
}

/// A post `k:1:post:key:sig:message[:mentions]` parses field by field; its
/// mentioned keys are read from the fifth field, none where it is absent.
pub proof fn lemma_post_fields(payload: Seq<char>)
    requires
        has_prefix(payload, "k:1:"@),
        split_on(payload.skip(4), ':')[0] == "post"@,
        split_on(payload.skip(4), ':').len() >= 4,
    ensures
        ({
            let parts = split_on(payload.skip(4), ':');
            parse_payload_spec(payload) == Ok::<ActionView, ProtocolErrorView>(ActionView::Post(PostView {
                sender_pubkey: parts[1],
                sender_signature: parts[2],
                message: parts[3],
                mentioned_pubkeys: if parts.len() >= 5 { json_mentions(parts[4]) } else { Seq::empty() },
            }))
        }),
{
    reveal_strlit("broadcast");
    reveal_strlit("post");
    assert("post"@ != "broadcast"@) by {
        assert("post"@.len() != "broadcast"@.len());
    }
}

/// A reply `k:1:reply:key:sig:post:message[:mentions]` parses field by
/// field; its mentioned keys are read from the sixth field, none where it is
/// absent.
pub proof fn lemma_reply_fields(payload: Seq<char>)
    requires
        has_prefix(payload, "k:1:"@),
        split_on(payload.skip(4), ':')[0] == "reply"@,
        split_on(payload.skip(4), ':').len() >= 5,
    ensures
        ({
            let parts = split_on(payload.skip(4), ':');
            parse_payload_spec(payload) == Ok::<ActionView, ProtocolErrorView>(ActionView::Reply(ReplyView {
                sender_pubkey: parts[1],
                sender_signature: parts[2],
                post_id: parts[3],
                message: parts[4],
                mentioned_pubkeys: if parts.len() >= 6 { json_mentions(parts[5]) } else { Seq::empty() },
            }))
        }),
{
    reveal_strlit("broadcast");
    reveal_strlit("post");
    reveal_strlit("reply");
    assert("reply"@ != "broadcast"@) by {
        assert("reply"@.len() != "broadcast"@.len());
    }
    assert("reply"@ != "post"@) by {
        assert("reply"@.len() != "post"@.len());
    }
}

/// Parse K protocol payload and extract action type.
pub fn parse_k_protocol_payload(payload: &str) -> (r: Result<KActionType, ProtocolError>)
    ensures
        result_view(r) == parse_payload_spec(payload@),
{
    let v = chars_of(payload);
    if !starts_with(&v, "k:1:") {
        return Err(ProtocolError::InvalidPrefix);
    }
    proof {
        reveal_strlit("k:1:");
    }
    let body_str = string_from_range(&v, 4, v.len());
    let body = chars_of(body_str.as_str());
    assert(body@ == payload@.skip(4));
    let parts = split_chars(&body, ':');
    let ghost ps = parts.deep_view();
    assert(ps == split_on(payload@.skip(4), ':'));
    assert(ps[0] == parts[0]@);
    let action = parts[0].as_str();
    if str_equal(action, "broadcast") {
        require_parts(&parts, 6)?;
        assert(ps[1] == parts[1]@ && ps[2] == parts[2]@ && ps[3] == parts[3]@ && ps[4] == parts[4]@ && ps[5] == parts[5]@);
        let profile = if parts[4].as_str().unicode_len() == 0 { None } else { Some(parts[4].clone()) };
        Ok(KActionType::Broadcast(KBroadcast {
            sender_pubkey: parts[1].clone(),
            sender_signature: parts[2].clone(),
            base64_encoded_nickname: parts[3].clone(),
            base64_encoded_profile_image: profile,
            base64_encoded_message: parts[5].clone(),
        }))
    } else if str_equal(action, "post") {
        require_parts(&parts, 4)?;
        assert(ps[1] == parts[1]@ && ps[2] == parts[2]@ && ps[3] == parts[3]@);
        let mentioned_pubkeys = mentions_field(&parts, 4);
        Ok(KActionType::Post(KPost {
            sender_pubkey: parts[1].clone(),
            sender_signature: parts[2].clone(),
            base64_encoded_message: parts[3].clone(),
            mentioned_pubkeys,
        }))
    } else if str_equal(action, "reply") {
        require_parts(&parts, 5)?;
        assert(ps[1] == parts[1]@ && ps[2] == parts[2]@ && ps[3] == parts[3]@ && ps[4] == parts[4]@);
        let mentioned_pubkeys = mentions_field(&parts, 5);
        Ok(KActionType::Reply(KReply {
            sender_pubkey: parts[1].clone(),
            sender_signature: parts[2].clone(),
            post_id: parts[3].clone(),
            base64_encoded_message: parts[4].clone(),
            mentioned_pubkeys,
        }))
    } else if str_equal(action, "vote") {
        require_parts(&parts, 5)?;
        assert(ps[1] == parts[1]@ && ps[2] == parts[2]@ && ps[3] == parts[3]@ && ps[4] == parts[4]@);
        if !str_equal(parts[4].as_str(), "upvote") && !str_equal(parts[4].as_str(), "downvote") {
            return Err(ProtocolError::InvalidVote(parts[4].clone()));
        }
        Ok(KActionType::Vote(KVote {
            sender_pubkey: parts[1].clone(),
            sender_signature: parts[2].clone(),
            post_id: parts[3].clone(),
            vote: parts[4].clone(),
        }))
    } else {
        Ok(KActionType::Unknown(parts[0].clone()))
    }
}

} // verus!
