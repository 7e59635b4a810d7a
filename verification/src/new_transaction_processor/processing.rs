//! What the processor does with a transaction: read its payload, parse the
//! action, check a post's signature, and build the row each action stores.
use vstd::prelude::*;
use crate::transaction_processor::database::Transaction;
use crate::transaction_processor::processing::{
    payload_text, payload_text_spec, payload_view, post_message, prepare_signature,
    signature_well_formed, signature_bytes, xonly_bytes, PayloadIssue, SignatureCheck,
};
use crate::new_transaction_processor::protocol::{
    parse_k_protocol_payload, parse_payload_spec, ActionView, KActionType, KBroadcast,
    KBroadcastRecord, KPost, KPostRecord, KReply, KReplyRecord, KVote, KVoteRecord, ProtocolError,
};
use crate::webserver::models::{clone_opt, clone_strings, opt_str};

verus! {

broadcast use vstd::string::group_string_axioms;

/// What to do with a transaction.
#[derive(Debug, Clone)]
pub enum TransactionStep {
    /// Nothing to process: the payload is missing or unreadable.
    Skip(PayloadIssue),
    /// The payload is not a well-formed action; it is reported and dropped.
    Rejected(ProtocolError),
    /// An action name this processor does not handle; reported and dropped.
    UnknownAction(String),
    /// An action to record, unless the transaction is already recorded.
    Record(KActionType),
}

/// What a transaction's payload asks for.
pub open spec fn step_spec(payload: Option<Seq<char>>, step: TransactionStep) -> bool {
    match payload_text_spec(payload) {
        Err(issue) => step == TransactionStep::Skip(issue),
        Ok(text) => match parse_payload_spec(text) {
            Err(e) => step matches TransactionStep::Rejected(pe) && pe@ == e,
            Ok(ActionView::Unknown(name)) => step matches TransactionStep::UnknownAction(n) && n@ == name,
            Ok(a) => step matches TransactionStep::Record(act) && act@ == a,
        },
    }
}

/// Process K protocol transaction: decide what its payload asks for.
pub fn process_k_transaction(transaction: &Transaction) -> (step: TransactionStep)
    ensures
        step_spec(payload_view(transaction.payload), step),
{
    let text = match payload_text(&transaction.payload) {
        Ok(t) => t,
        Err(issue) => return TransactionStep::Skip(issue),
    };
    match parse_k_protocol_payload(text.as_str()) {
        Ok(KActionType::Unknown(name)) => TransactionStep::UnknownAction(name),
        Ok(action) => TransactionStep::Record(action),
        Err(e) => TransactionStep::Rejected(e),
    }
}

/// The signature check of a post: its message and mention list, against
/// its sender's key; `None` where the signature or key is malformed, and
/// the post is then skipped.
pub fn post_signature_check(k_post: &KPost) -> (r: Option<SignatureCheck>)
    ensures
        r is Some <==> signature_well_formed(k_post.sender_signature@, k_post.sender_pubkey@),
        r matches Some(c) ==> c.message@ == post_message(k_post@)
            && Some(c.signature@) == signature_bytes(k_post.sender_signature@)
            && Some(c.public_key.source()) == xonly_bytes(k_post.sender_pubkey@),
{
    let message = k_post.message_to_verify();
    prepare_signature(message, k_post.sender_signature.as_str(), k_post.sender_pubkey.as_str())
}

/// The time a post is stored with: its block time, or the current time
/// (in seconds) where it has none.
pub fn post_block_time(block_time: Option<i64>, now_secs: i64) -> (t: i64)
    ensures
        t == (match block_time {
            Some(b) => b,
            None => now_secs,
        }),
{
    match block_time {
        Some(b) => b,
        None => now_secs,
    }
}

/// The time replies, broadcasts and votes are stored with: the block time,
/// or zero.
pub open spec fn block_time_or_zero(t: Option<i64>) -> i64 {
    match t {
        Some(b) => b,
        None => 0,
    }
}

/// The row a post is stored as, at the given time.
pub fn post_record(transaction: &Transaction, k_post: &KPost, block_time: i64) -> (r: KPostRecord)
    ensures
        r.transaction_id@ == transaction.transaction_id@,
        r.block_time == block_time,
        r.sender_pubkey@ == k_post.sender_pubkey@,
        r.sender_signature@ == k_post.sender_signature@,
        r.base64_encoded_message@ == k_post.base64_encoded_message@,
        r.mentioned_pubkeys.deep_view() == k_post.mentioned_pubkeys.deep_view(),
{
    KPostRecord {
        transaction_id: transaction.transaction_id.clone(),
        block_time,
        sender_pubkey: k_post.sender_pubkey.clone(),
        sender_signature: k_post.sender_signature.clone(),
        base64_encoded_message: k_post.base64_encoded_message.clone(),
        mentioned_pubkeys: clone_strings(&k_post.mentioned_pubkeys),
    }
}

/// The row a reply is stored as.
pub fn reply_record(transaction: &Transaction, k_reply: &KReply) -> (r: KReplyRecord)
    ensures
        r.transaction_id@ == transaction.transaction_id@,
        r.block_time == block_time_or_zero(transaction.block_time),
        r.sender_pubkey@ == k_reply.sender_pubkey@,
        r.sender_signature@ == k_reply.sender_signature@,
        r.post_id@ == k_reply.post_id@,
        r.base64_encoded_message@ == k_reply.base64_encoded_message@,
        r.mentioned_pubkeys.deep_view() == k_reply.mentioned_pubkeys.deep_view(),
{
    KReplyRecord {
        transaction_id: transaction.transaction_id.clone(),
        block_time: match transaction.block_time { Some(b) => b, None => 0 },
        sender_pubkey: k_reply.sender_pubkey.clone(),
        sender_signature: k_reply.sender_signature.clone(),
        post_id: k_reply.post_id.clone(),
        base64_encoded_message: k_reply.base64_encoded_message.clone(),
        mentioned_pubkeys: clone_strings(&k_reply.mentioned_pubkeys),
    }
}

/// The row a broadcast is stored as.
pub fn broadcast_record(transaction: &Transaction, k_broadcast: &KBroadcast) -> (r: KBroadcastRecord)
    ensures
        r.transaction_id@ == transaction.transaction_id@,
        r.block_time == block_time_or_zero(transaction.block_time),
        r.sender_pubkey@ == k_broadcast.sender_pubkey@,
        r.sender_signature@ == k_broadcast.sender_signature@,
        r.base64_encoded_nickname@ == k_broadcast.base64_encoded_nickname@,
        opt_str(r.base64_encoded_profile_image) == opt_str(k_broadcast.base64_encoded_profile_image),
        r.base64_encoded_message@ == k_broadcast.base64_encoded_message@,
{
    KBroadcastRecord {
        transaction_id: transaction.transaction_id.clone(),
        block_time: match transaction.block_time { Some(b) => b, None => 0 },
        sender_pubkey: k_broadcast.sender_pubkey.clone(),
        sender_signature: k_broadcast.sender_signature.clone(),
        base64_encoded_nickname: k_broadcast.base64_encoded_nickname.clone(),
        base64_encoded_profile_image: clone_opt(&k_broadcast.base64_encoded_profile_image),
        base64_encoded_message: k_broadcast.base64_encoded_message.clone(),
    }
}

/// The row a vote is stored as; the voted post's author is left empty.
pub fn vote_record(transaction: &Transaction, k_vote: &KVote) -> (r: KVoteRecord)
    ensures
        r.transaction_id@ == transaction.transaction_id@,
        r.block_time == block_time_or_zero(transaction.block_time),
        r.sender_pubkey@ == k_vote.sender_pubkey@,
        r.sender_signature@ == k_vote.sender_signature@,
        r.post_id@ == k_vote.post_id@,
        r.vote@ == k_vote.vote@,
        r.author_pubkey@ == Seq::<char>::empty(),
{
    KVoteRecord {
        transaction_id: transaction.transaction_id.clone(),
        block_time: match transaction.block_time { Some(b) => b, None => 0 },
        sender_pubkey: k_vote.sender_pubkey.clone(),
        sender_signature: k_vote.sender_signature.clone(),
        post_id: k_vote.post_id.clone(),
        vote: k_vote.vote.clone(),
        author_pubkey: String::new(),
    }
}

} // verus!
