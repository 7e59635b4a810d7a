//! What the processor does with a transaction: decode and clean its payload,
//! parse the action, build the message whose signature it checks, and
//! prepare the rows the action writes.
use vstd::prelude::*;
use crate::codec::{
    hex_decode, hex_decode_spec, json_string_array_text, render_json_string_array, utf8_decode,
    xonly_key_accepted, xonly_public_key, XOnlyKey,
};
use crate::hashtags::{extract_hashtags_from_base64, message_hashtags};
use crate::text::{chars_of, control, is_control_char, push_char, push_str};
use crate::transaction_processor::database::Transaction;
use crate::transaction_processor::protocol::{
    opt_view, parse_k_protocol_payload, parse_payload_spec, ActionView, BroadcastView, KActionType,
    KBlock, KBroadcast, KFollow, KPost, KQuote, KReply, KVote, PostView, ProtocolError, QuoteView,
    RelationView, ReplyView, VoteView,
};

verus! {

broadcast use vstd::string::group_string_axioms;

// ---------------------------------------------------------------------------
// Payloads
// ---------------------------------------------------------------------------

/// Why a transaction carries no K protocol text.
#[derive(Debug, Clone, Copy, PartialEq, Eq, Structural)]
pub enum PayloadIssue {
    NoPayload,
    InvalidHex,
    InvalidUtf8,
}

/// Characters kept when a payload is cleaned: all but control characters,
/// except that newline, carriage return and tab stay.
pub open spec fn kept_in_payload(c: char) -> bool {
    !is_control_char(c) || c == '\n' || c == '\r' || c == '\t'
}

/// `s` without the characters cleaning removes.
pub open spec fn cleaned(s: Seq<char>) -> Seq<char>
    decreases s.len(),
{
    if s.len() == 0 {
        Seq::empty()
    } else if kept_in_payload(s.last()) {
        cleaned(s.drop_last()).push(s.last())
    } else {
        cleaned(s.drop_last())
    }
}

/// The cleaned text of a transaction's payload, or why there is none.
pub open spec fn payload_text_spec(payload: Option<Seq<char>>) -> Result<Seq<char>, PayloadIssue> {
    match payload {
        None => Err(PayloadIssue::NoPayload),
        Some(h) => match hex_decode_spec(h) {
            None => Err(PayloadIssue::InvalidHex),
            Some(b) => if vstd::utf8::valid_utf8(b) {
                Ok(cleaned(vstd::utf8::decode_utf8(b)))
            } else {
                Err(PayloadIssue::InvalidUtf8)
            },
        },
    }
}

pub open spec fn payload_view(p: Option<String>) -> Option<Seq<char>> {
    match p {
        Some(s) => Some(s@),
        None => None,
    }
}

/// `text` with control characters other than newline, carriage return and
/// tab removed.
pub fn clean_payload(text: &str) -> (r: String)
    ensures
        r@ == cleaned(text@),
{
    let v = chars_of(text);
    let mut out = String::new();
    let mut i: usize = 0;
    assert(v@.take(0) == Seq::<char>::empty());
    while i < v.len()
        invariant
            i <= v.len(),
            v@ == text@,
            out@ == cleaned(v@.take(i as int)),
        decreases v.len() - i,
    {
        let c = v[i];
        assert(v@.take(i + 1).drop_last() == v@.take(i as int));
        assert(v@.take(i + 1).last() == c);
        if !control(c) || c == '\n' || c == '\r' || c == '\t' {
            push_char(&mut out, c);
        }
        i = i + 1;
    }
    assert(v@.take(v@.len() as int) == v@);
    out
}

/// The text of a payload: hex-decoded, read as UTF-8, then cleaned.
pub fn payload_text(payload: &Option<String>) -> (r: Result<String, PayloadIssue>)
    ensures
        match r {
            Ok(s) => payload_text_spec(payload_view(*payload)) == Ok::<Seq<char>, PayloadIssue>(s@),
            Err(e) => payload_text_spec(payload_view(*payload)) == Err::<Seq<char>, PayloadIssue>(e),
        },
{
    let hex = match payload {
        Some(h) => h,
        None => return Err(PayloadIssue::NoPayload),
    };
    let bytes = match hex_decode(hex.as_str()) {
        Ok(b) => b,
        Err(_) => return Err(PayloadIssue::InvalidHex),
    };
    let text = match utf8_decode(bytes) {
        Some(t) => t,
        None => return Err(PayloadIssue::InvalidUtf8),
    };
    Ok(clean_payload(text.as_str()))
}

/// What to do with a transaction.
#[derive(Debug, Clone)]
pub enum TransactionStep {
    /// Nothing to process: the payload is missing or unreadable.
    Skip(PayloadIssue),
    /// The payload is not a well-formed action; it is reported and dropped.
    Rejected(ProtocolError),
    /// An action name this processor does not handle; reported and dropped.
    UnknownAction(String),
    /// An action to check and record.
    Record(KActionType),
}

/// What a transaction's payload asks for.
pub open spec fn step_spec(payload: Option<Seq<char>>, step: TransactionStep) -> bool {
    match payload_text_spec(payload) {
        Err(issue) => step == TransactionStep::Skip(issue),
        Ok(text) => match parse_payload_spec(text) {
            Err(e) => step matches TransactionStep::Rejected(pe) && pe@ == e,
            Ok(ActionView::Unknown(name)) => step matches TransactionStep::UnknownAction(n) && n@ == name,
            Ok(a) => step matches TransactionStep::Record(act) && act@ == a,
        },
    }
}

/// Process K protocol transaction: decide what its payload asks for.
pub fn process_k_transaction(transaction: &Transaction) -> (step: TransactionStep)
    ensures
        step_spec(payload_view(transaction.payload), step),
{
    let text = match payload_text(&transaction.payload) {
        Ok(t) => t,
        Err(issue) => return TransactionStep::Skip(issue),
    };
    match parse_k_protocol_payload(text.as_str()) {
        Ok(KActionType::Unknown(name)) => TransactionStep::UnknownAction(name),
        Ok(action) => TransactionStep::Record(action),
        Err(e) => TransactionStep::Rejected(e),
    }
}

/// Whether a worker hands the transaction to the protocol processor: its
/// payload is hex for UTF-8 text starting with `k:1:`.
pub open spec fn carries_k_protocol(payload: Option<Seq<char>>) -> bool {
    match payload {
        None => false,
        Some(h) => match hex_decode_spec(h) {
            None => false,
            Some(b) => vstd::utf8::valid_utf8(b)
                && crate::text::has_prefix(vstd::utf8::decode_utf8(b), "k:1:"@),
        },
    }
}

/// Whether the transaction's payload is K protocol text.
pub fn is_k_protocol_transaction(transaction: &Transaction) -> (b: bool)
    ensures
        b == carries_k_protocol(payload_view(transaction.payload)),
{
    let hex = match &transaction.payload {
        Some(h) => h,
        None => return false,
    };
    let bytes = match hex_decode(hex.as_str()) {
        Ok(b) => b,
        Err(_) => return false,
    };
    let text = match utf8_decode(bytes) {
        Some(t) => t,
        None => return false,
    };
    let v = chars_of(text.as_str());
    crate::text::starts_with(&v, "k:1:")
}

// ---------------------------------------------------------------------------
// Signed messages
// ---------------------------------------------------------------------------

/// The JSON text of a mention list as it is signed; `[]` should rendering fail.
pub open spec fn mentions_json(m: Seq<Seq<char>>) -> Seq<char> {
    match json_string_array_text(m) {
        Some(t) => t,
        None => "[]"@,
    }
}

pub open spec fn join2(a: Seq<char>, b: Seq<char>) -> Seq<char> {
    a + ":"@ + b
}

pub open spec fn join3(a: Seq<char>, b: Seq<char>, c: Seq<char>) -> Seq<char> {
    a + ":"@ + b + ":"@ + c
}

fn render_mentions(m: &Vec<String>) -> (s: String)
    ensures
        s@ == mentions_json(m.deep_view()),
{
    match render_json_string_array(m) {
        Some(t) => t,
        None => "[]".to_string(),
    }
}

fn colon_join2(a: &str, b: &str) -> (s: String)
    ensures
        s@ == join2(a@, b@),
{
    let mut s = String::new();
    push_str(&mut s, a);
    push_str(&mut s, ":");
    push_str(&mut s, b);
    assert(Seq::<char>::empty() + a@ == a@);
    s
}

fn colon_join3(a: &str, b: &str, c: &str) -> (s: String)
    ensures
        s@ == join3(a@, b@, c@),
{
    let mut s = colon_join2(a, b);
    push_str(&mut s, ":");
    push_str(&mut s, c);
    s
}

/// The message a post signs: its message, `:`, and its mention list as JSON.
pub open spec fn post_message(p: PostView) -> Seq<char> {
    join2(p.message, mentions_json(p.mentioned_pubkeys))
}

/// The message a reply signs: post id, message and mention list as JSON.
pub open spec fn reply_message(r: ReplyView) -> Seq<char> {
    join3(r.post_id, r.message, mentions_json(r.mentioned_pubkeys))
}

/// The message a quote signs: quoted content id, message, mentioned key.
pub open spec fn quote_message(q: QuoteView) -> Seq<char> {
    join3(q.content_id, q.message, q.mentioned_pubkey)
}

/// The message a broadcast signs: nickname, profile image (empty if none),
/// message.
pub open spec fn broadcast_message(b: BroadcastView) -> Seq<char> {
    join3(b.nickname, match b.profile_image { Some(p) => p, None => Seq::empty() }, b.message)
}

/// The message a vote signs: post id, vote, mentioned key.
pub open spec fn vote_message(v: VoteView) -> Seq<char> {
    join3(v.post_id, v.vote, v.mentioned_pubkey)
}

/// The message a block or follow signs: the action and the user it concerns.
pub open spec fn relation_message(r: RelationView) -> Seq<char> {
    join2(r.action, r.target_pubkey)
}

/// A broadcast signs its nickname, its profile image (nothing where it has
/// none) and its message, in that order, separated by colons.
pub proof fn lemma_broadcast_signs_all_fields(b: BroadcastView)
    ensures
        b.profile_image matches Some(p) ==> broadcast_message(b) == b.nickname + ":"@ + p + ":"@ + b.message,
        b.profile_image is None ==> broadcast_message(b) == b.nickname + "::"@ + b.message,
{
    reveal_strlit(":");
    reveal_strlit("::");
    if b.profile_image is None {
        assert(b.nickname + ":"@ + Seq::<char>::empty() + ":"@ + b.message =~= b.nickname + "::"@ + b.message);
    }
}

/// The JSON text of a mention list as signed: serde_json's rendering, or
/// `[]` where it reports an error.
pub open spec fn signed_mentions(m: Seq<Seq<char>>) -> Seq<char> {
    match json_string_array_text(m) {
        Some(t) => t,
        None => "[]"@,
    }
}

/// What each action signs, field by field: a post its message and mention
/// list; a reply the post it answers, its message and mention list; a quote
/// the quoted content, its message and the mentioned key; a vote the post,
/// the vote and the mentioned key; a block or follow its action and the
/// user it concerns; all separated by colons.
pub proof fn lemma_signed_messages(p: PostView, r: ReplyView, q: QuoteView, v: VoteView, rel: RelationView)
    ensures
        post_message(p) == p.message + ":"@ + signed_mentions(p.mentioned_pubkeys),
        reply_message(r) == r.post_id + ":"@ + r.message + ":"@ + signed_mentions(r.mentioned_pubkeys),
        quote_message(q) == q.content_id + ":"@ + q.message + ":"@ + q.mentioned_pubkey,
        vote_message(v) == v.post_id + ":"@ + v.vote + ":"@ + v.mentioned_pubkey,
        relation_message(rel) == rel.action + ":"@ + rel.target_pubkey,
{
}

impl KPost {
    pub fn message_to_verify(&self) -> (m: String)
        ensures
            m@ == post_message(self@),
    {
        let mentions = render_mentions(&self.mentioned_pubkeys);
        colon_join2(self.base64_encoded_message.as_str(), mentions.as_str())
    }
}

impl KReply {
    pub fn message_to_verify(&self) -> (m: String)
        ensures
            m@ == reply_message(self@),
    {
        let mentions = render_mentions(&self.mentioned_pubkeys);
        colon_join3(self.post_id.as_str(), self.base64_encoded_message.as_str(), mentions.as_str())
    }
}

impl KQuote {
    pub fn message_to_verify(&self) -> (m: String)
        ensures
            m@ == quote_message(self@),
    {
        colon_join3(self.content_id.as_str(), self.base64_encoded_message.as_str(), self.mentioned_pubkey.as_str())
    }
}

impl KBroadcast {
    pub fn message_to_verify(&self) -> (m: String)
        ensures
            m@ == broadcast_message(self@),
    {
        let empty = String::new();
        let image = match &self.base64_encoded_profile_image {
            Some(p) => p,
            None => &empty,
        };
        colon_join3(self.base64_encoded_nickname.as_str(), image.as_str(), self.base64_encoded_message.as_str())
    }
}

impl KVote {
    pub fn message_to_verify(&self) -> (m: String)
        ensures
            m@ == vote_message(self@),
    {
        colon_join3(self.post_id.as_str(), self.vote.as_str(), self.mentioned_pubkey.as_str())
    }
}

impl KBlock {
    pub fn message_to_verify(&self) -> (m: String)
        ensures
            m@ == relation_message(self@),
    {
        colon_join2(self.blocking_action.as_str(), self.blocked_user_pubkey.as_str())
    }
}

impl KFollow {
    pub fn message_to_verify(&self) -> (m: String)
        ensures
            m@ == relation_message(self@),
    {
        colon_join2(self.following_action.as_str(), self.followed_user_pubkey.as_str())
    }
}

// ---------------------------------------------------------------------------
// Signatures
// ---------------------------------------------------------------------------

/// The 64 signature bytes a hex signature stands for, if it stands for 64.
pub open spec fn signature_bytes(sig: Seq<char>) -> Option<Seq<u8>> {
    match hex_decode_spec(sig) {
        Some(b) => if b.len() == 64 { Some(b) } else { None },
        None => None,
    }
}

/// The x-only key bytes of a hex public key: a 33-byte compressed key loses
/// its prefix byte, a 32-byte key is taken as it is, other lengths fail.
pub open spec fn xonly_bytes(pk: Seq<char>) -> Option<Seq<u8>> {
    match hex_decode_spec(pk) {
        Some(b) => if b.len() == 33 {
            Some(b.drop_first())
        } else if b.len() == 32 {
            Some(b)
        } else {
            None
        },
        None => None,
    }
}

/// Whether a signature and key pass every check short of the signature
/// verification itself.
pub open spec fn signature_well_formed(sig: Seq<char>, pk: Seq<char>) -> bool {
    &&& signature_bytes(sig) is Some
    &&& xonly_bytes(pk) matches Some(k) && xonly_key_accepted(k)
}

/// A signature ready to be verified against a message.
pub struct SignatureCheck {
    pub message: String,
    pub signature: Vec<u8>,
    pub public_key: XOnlyKey,
}

/// Decode a hex signature and hex public key for Schnorr verification of
/// `message`; `None` where either is malformed (the signature then fails).
pub fn prepare_signature(message: String, signature: &str, public_key_hex: &str) -> (r: Option<SignatureCheck>)
    ensures
        r is Some <==> signature_well_formed(signature@, public_key_hex@),
        r matches Some(c) ==> c.message@ == message@ && Some(c.signature@) == signature_bytes(signature@)
            && Some(c.public_key.source()) == xonly_bytes(public_key_hex@),
{
    let signature_bytes = match hex_decode(signature) {
        Ok(b) => b,
        Err(_) => return None,
    };
    if signature_bytes.len() != 64 {
        return None;
    }
    let key_bytes = match hex_decode(public_key_hex) {
        Ok(b) => b,
        Err(_) => return None,
    };
    let xonly: Vec<u8> = if key_bytes.len() == 33 {
        let mut k: Vec<u8> = Vec::new();
        let mut i: usize = 1;
        while i < 33
            invariant
                1 <= i <= 33,
                key_bytes.len() == 33,
                k@ == key_bytes@.subrange(1, i as int),
            decreases 33 - i,
        {
            k.push(key_bytes[i]);
            assert(key_bytes@.subrange(1, i + 1) == key_bytes@.subrange(1, i as int).push(key_bytes@[i as int]));
            i = i + 1;
        }
        assert(key_bytes@.subrange(1, 33) == key_bytes@.drop_first());
        k
    } else if key_bytes.len() == 32 {
        key_bytes
    } else {
        return None;
    };
    match xonly_public_key(xonly.as_slice()) {
        Some(public_key) => Some(SignatureCheck { message, signature: signature_bytes, public_key }),
        None => None,
    }
}

/// What a signed action writes: nothing where its signature does not
/// verify (the action is skipped, and that is no error), the planned write
/// otherwise.
pub fn signed_plan<T>(signature_valid: bool, plan: T) -> (r: Option<T>)
    ensures
        r == (if signature_valid { Some(plan) } else { None::<T> }),
{
    if signature_valid { Some(plan) } else { None }
}

// ---------------------------------------------------------------------------
// Writes
// ---------------------------------------------------------------------------

/// A hex field that failed to decode.
#[derive(Debug, Clone, Copy, PartialEq, Eq, Structural)]
pub enum HexField {
    TransactionId,
    SenderPubkey,
    SenderSignature,
    PostId,
    ContentId,
    MentionedPubkey,
    TargetPubkey,
}

/// Why an action cannot be written.
#[derive(Debug, Clone, PartialEq, Eq)]
pub enum WriteError {
    InvalidHex(HexField),
    /// A block or follow action other than the two the protocol defines.
    InvalidAction(String),
}

pub open spec fn hex_ok(s: Seq<char>) -> bool {
    hex_decode_spec(s) is Some
}

pub open spec fn hex_of(s: Seq<char>) -> Seq<u8> {
    hex_decode_spec(s)->Some_0
}

pub open spec fn all_hex_ok(m: Seq<Seq<char>>) -> bool {
    forall|i: int| 0 <= i < m.len() ==> hex_ok(#[trigger] m[i])
}

fn decode_field(s: &str, field: HexField) -> (r: Result<Vec<u8>, WriteError>)
    ensures
        r is Ok <==> hex_ok(s@),
        r matches Ok(b) ==> b@ == hex_of(s@),
        r matches Err(e) ==> e == WriteError::InvalidHex(field),
{
    match hex_decode(s) {
        Ok(b) => Ok(b),
        Err(_) => Err(WriteError::InvalidHex(field)),
    }
}

/// The bytes of every mentioned key, in order.
pub fn decode_mentions(m: &Vec<String>) -> (r: Result<Vec<Vec<u8>>, WriteError>)
    ensures
        r is Ok <==> all_hex_ok(m.deep_view()),
        r matches Ok(v) ==> v.len() == m.len()
            && forall|i: int| 0 <= i < m.len() ==> (#[trigger] v@[i])@ == hex_of(m.deep_view()[i]),
        r matches Err(e) ==> e == WriteError::InvalidHex(HexField::MentionedPubkey),
{
    let mut out: Vec<Vec<u8>> = Vec::new();
    let mut i: usize = 0;
    while i < m.len()
        invariant
            i <= m.len(),
            out.len() == i,
            forall|j: int| 0 <= j < i ==> hex_ok(#[trigger] m.deep_view()[j]),
            forall|j: int| 0 <= j < i ==> (#[trigger] out@[j])@ == hex_of(m.deep_view()[j]),
        decreases m.len() - i,
    {
        assert(m.deep_view()[i as int] == m@[i as int]@);
        let b = decode_field(m[i].as_str(), HexField::MentionedPubkey)?;
        out.push(b);
        i = i + 1;
    }
    Ok(out)
}

/// The kind of content a row of `k_contents` holds.
#[derive(Debug, Clone, Copy, PartialEq, Eq, Structural)]
pub enum ContentKind {
    Post,
    Reply,
    Quote,
}

/// Which statement records a piece of content: the content alone, or with
/// its hashtags, its mentions, or both, all in one statement.
#[derive(Debug, Clone, Copy, PartialEq, Eq, Structural)]
pub enum ContentStatement {
    Plain,
    WithHashtags,
    WithMentions,
    WithMentionsAndHashtags,
}

/// A post, reply or quote to insert, skipped if its signature is already
/// recorded, with its mentions and hashtags.
#[derive(Debug, Clone)]
pub struct ContentWrite {
    pub transaction_id: Vec<u8>,
    pub block_time: i64,
    pub sender_pubkey: Vec<u8>,
    pub sender_signature: Vec<u8>,
    pub base64_encoded_message: String,
    pub kind: ContentKind,
    pub referenced_content_id: Option<Vec<u8>>,
    pub mentioned_pubkeys: Vec<Vec<u8>>,
    pub hashtags: Vec<String>,
}

impl ContentWrite {
    /// The statement that records this content.
    pub fn statement(&self) -> (s: ContentStatement)
        ensures
            s == (if self.mentioned_pubkeys.len() == 0 {
                if self.hashtags.len() == 0 { ContentStatement::Plain } else { ContentStatement::WithHashtags }
            } else {
                if self.hashtags.len() == 0 { ContentStatement::WithMentions } else { ContentStatement::WithMentionsAndHashtags }
            }),
    {
        if self.mentioned_pubkeys.len() == 0 {
            if self.hashtags.len() == 0 { ContentStatement::Plain } else { ContentStatement::WithHashtags }
        } else {
            if self.hashtags.len() == 0 { ContentStatement::WithMentions } else { ContentStatement::WithMentionsAndHashtags }
        }
    }
}

/// The block time recorded for a transaction: its own, or 0 when it has none.
pub open spec fn block_time_or_zero(t: Option<i64>) -> i64 {
    match t {
        Some(b) => b,
        None => 0,
    }
}

pub open spec fn mentions_match(v: Seq<Vec<u8>>, m: Seq<Seq<char>>) -> bool {
    v.len() == m.len() && forall|i: int| 0 <= i < m.len() ==> (#[trigger] v[i])@ == hex_of(m[i])
}

/// The first field of a post that fails to decode, in the order they are
/// decoded: transaction id, sender key, signature, then the mentions.
pub open spec fn post_write_error(tx: Seq<char>, p: PostView) -> Option<HexField> {
    if !hex_ok(tx) {
        Some(HexField::TransactionId)
    } else if !hex_ok(p.sender_pubkey) {
        Some(HexField::SenderPubkey)
    } else if !hex_ok(p.sender_signature) {
        Some(HexField::SenderSignature)
    } else if !all_hex_ok(p.mentioned_pubkeys) {
        Some(HexField::MentionedPubkey)
    } else {
        None
    }
}

/// The row a signed post writes.
pub fn post_write(transaction: &Transaction, k_post: &KPost) -> (r: Result<ContentWrite, WriteError>)
    ensures
        match post_write_error(transaction.transaction_id@, k_post@) {
            Some(f) => r == Err::<ContentWrite, WriteError>(WriteError::InvalidHex(f)),
            None => r matches Ok(w) && {
                &&& w.transaction_id@ == hex_of(transaction.transaction_id@)
                &&& w.block_time == block_time_or_zero(transaction.block_time)
                &&& w.sender_pubkey@ == hex_of(k_post.sender_pubkey@)
                &&& w.sender_signature@ == hex_of(k_post.sender_signature@)
                &&& w.base64_encoded_message@ == k_post.base64_encoded_message@
                &&& w.kind == ContentKind::Post
                &&& w.referenced_content_id is None
                &&& mentions_match(w.mentioned_pubkeys@, k_post.mentioned_pubkeys.deep_view())
                &&& w.hashtags.deep_view() == message_hashtags(k_post.base64_encoded_message@)
            },
        },
{
    let block_time = match transaction.block_time { Some(b) => b, None => 0 };
    let transaction_id = decode_field(transaction.transaction_id.as_str(), HexField::TransactionId)?;
    let sender_pubkey = decode_field(k_post.sender_pubkey.as_str(), HexField::SenderPubkey)?;
    let sender_signature = decode_field(k_post.sender_signature.as_str(), HexField::SenderSignature)?;
    let hashtags = extract_hashtags_from_base64(k_post.base64_encoded_message.as_str());
    let mentioned_pubkeys = decode_mentions(&k_post.mentioned_pubkeys)?;
    Ok(ContentWrite {
        transaction_id,
        block_time,
        sender_pubkey,
        sender_signature,
        base64_encoded_message: k_post.base64_encoded_message.clone(),
        kind: ContentKind::Post,
        referenced_content_id: None,
        mentioned_pubkeys,
        hashtags,
    })
}

/// The first field of a reply that fails to decode: transaction id, sender
/// key, signature, post id, then the mentions.
pub open spec fn reply_write_error(tx: Seq<char>, r: ReplyView) -> Option<HexField> {
    if !hex_ok(tx) {
        Some(HexField::TransactionId)
    } else if !hex_ok(r.sender_pubkey) {
        Some(HexField::SenderPubkey)
    } else if !hex_ok(r.sender_signature) {
        Some(HexField::SenderSignature)
    } else if !hex_ok(r.post_id) {
        Some(HexField::PostId)
    } else if !all_hex_ok(r.mentioned_pubkeys) {
        Some(HexField::MentionedPubkey)
    } else {
        None
    }
}

/// The row a signed reply writes, referring to the post it answers.
pub fn reply_write(transaction: &Transaction, k_reply: &KReply) -> (r: Result<ContentWrite, WriteError>)
    ensures
        match reply_write_error(transaction.transaction_id@, k_reply@) {
            Some(f) => r == Err::<ContentWrite, WriteError>(WriteError::InvalidHex(f)),
            None => r matches Ok(w) && {
                &&& w.transaction_id@ == hex_of(transaction.transaction_id@)
                &&& w.block_time == block_time_or_zero(transaction.block_time)
                &&& w.sender_pubkey@ == hex_of(k_reply.sender_pubkey@)
                &&& w.sender_signature@ == hex_of(k_reply.sender_signature@)
                &&& w.base64_encoded_message@ == k_reply.base64_encoded_message@
                &&& w.kind == ContentKind::Reply
                &&& w.referenced_content_id matches Some(p) && p@ == hex_of(k_reply.post_id@)
                &&& mentions_match(w.mentioned_pubkeys@, k_reply.mentioned_pubkeys.deep_view())
                &&& w.hashtags.deep_view() == message_hashtags(k_reply.base64_encoded_message@)
            },
        },
{
    let block_time = match transaction.block_time { Some(b) => b, None => 0 };
    let transaction_id = decode_field(transaction.transaction_id.as_str(), HexField::TransactionId)?;
    let sender_pubkey = decode_field(k_reply.sender_pubkey.as_str(), HexField::SenderPubkey)?;
    let sender_signature = decode_field(k_reply.sender_signature.as_str(), HexField::SenderSignature)?;
    let post_id = decode_field(k_reply.post_id.as_str(), HexField::PostId)?;
    let hashtags = extract_hashtags_from_base64(k_reply.base64_encoded_message.as_str());
    let mentioned_pubkeys = decode_mentions(&k_reply.mentioned_pubkeys)?;
    Ok(ContentWrite {
        transaction_id,
        block_time,
        sender_pubkey,
        sender_signature,
        base64_encoded_message: k_reply.base64_encoded_message.clone(),
        kind: ContentKind::Reply,
        referenced_content_id: Some(post_id),
        mentioned_pubkeys,
        hashtags,
    })
}

/// The first field of a quote that fails to decode: transaction id, sender
/// key, signature, quoted content id, mentioned key.
pub open spec fn quote_write_error(tx: Seq<char>, q: QuoteView) -> Option<HexField> {
    if !hex_ok(tx) {
        Some(HexField::TransactionId)
    } else if !hex_ok(q.sender_pubkey) {
        Some(HexField::SenderPubkey)
    } else if !hex_ok(q.sender_signature) {
        Some(HexField::SenderSignature)
    } else if !hex_ok(q.content_id) {
        Some(HexField::ContentId)
    } else if !hex_ok(q.mentioned_pubkey) {
        Some(HexField::MentionedPubkey)
    } else {
        None
    }
}

/// The row a signed quote writes: always with the one mention it carries.
pub fn quote_write(transaction: &Transaction, k_quote: &KQuote) -> (r: Result<ContentWrite, WriteError>)
    ensures
        match quote_write_error(transaction.transaction_id@, k_quote@) {
            Some(f) => r == Err::<ContentWrite, WriteError>(WriteError::InvalidHex(f)),
            None => r matches Ok(w) && {
                &&& w.transaction_id@ == hex_of(transaction.transaction_id@)
                &&& w.block_time == block_time_or_zero(transaction.block_time)
                &&& w.sender_pubkey@ == hex_of(k_quote.sender_pubkey@)
                &&& w.sender_signature@ == hex_of(k_quote.sender_signature@)
                &&& w.base64_encoded_message@ == k_quote.base64_encoded_message@
                &&& w.kind == ContentKind::Quote
                &&& w.referenced_content_id matches Some(c) && c@ == hex_of(k_quote.content_id@)
                &&& w.mentioned_pubkeys.len() == 1
                &&& w.mentioned_pubkeys@[0]@ == hex_of(k_quote.mentioned_pubkey@)
                &&& w.hashtags.deep_view() == message_hashtags(k_quote.base64_encoded_message@)
            },
        },
{
    let block_time = match transaction.block_time { Some(b) => b, None => 0 };
    let transaction_id = decode_field(transaction.transaction_id.as_str(), HexField::TransactionId)?;
    let sender_pubkey = decode_field(k_quote.sender_pubkey.as_str(), HexField::SenderPubkey)?;
    let sender_signature = decode_field(k_quote.sender_signature.as_str(), HexField::SenderSignature)?;
    let content_id = decode_field(k_quote.content_id.as_str(), HexField::ContentId)?;
    let mentioned = decode_field(k_quote.mentioned_pubkey.as_str(), HexField::MentionedPubkey)?;
    let hashtags = extract_hashtags_from_base64(k_quote.base64_encoded_message.as_str());
    let mut mentioned_pubkeys: Vec<Vec<u8>> = Vec::new();
    mentioned_pubkeys.push(mentioned);
    Ok(ContentWrite {
        transaction_id,
        block_time,
        sender_pubkey,
        sender_signature,
        base64_encoded_message: k_quote.base64_encoded_message.clone(),
        kind: ContentKind::Quote,
        referenced_content_id: Some(content_id),
        mentioned_pubkeys,
        hashtags,
    })
}

/// A broadcast to record, replacing every other broadcast of its sender.
#[derive(Debug, Clone)]
pub struct BroadcastWrite {
    pub transaction_id: Vec<u8>,
    pub block_time: i64,
    pub sender_pubkey: Vec<u8>,
    pub sender_signature: Vec<u8>,
    pub base64_encoded_nickname: String,
    pub base64_encoded_profile_image: Option<String>,
    pub base64_encoded_message: String,
}

/// The first field of a broadcast that fails to decode.
pub open spec fn broadcast_write_error(tx: Seq<char>, b: BroadcastView) -> Option<HexField> {
    if !hex_ok(tx) {
        Some(HexField::TransactionId)
    } else if !hex_ok(b.sender_pubkey) {
        Some(HexField::SenderPubkey)
    } else if !hex_ok(b.sender_signature) {
        Some(HexField::SenderSignature)
    } else {
        None
    }
}

/// The row a signed broadcast writes.
pub fn broadcast_write(transaction: &Transaction, k_broadcast: &KBroadcast) -> (r: Result<BroadcastWrite, WriteError>)
    ensures
        match broadcast_write_error(transaction.transaction_id@, k_broadcast@) {
            Some(f) => r == Err::<BroadcastWrite, WriteError>(WriteError::InvalidHex(f)),
            None => r matches Ok(w) && {
                &&& w.transaction_id@ == hex_of(transaction.transaction_id@)
                &&& w.block_time == block_time_or_zero(transaction.block_time)
                &&& w.sender_pubkey@ == hex_of(k_broadcast.sender_pubkey@)
                &&& w.sender_signature@ == hex_of(k_broadcast.sender_signature@)
                &&& w.base64_encoded_nickname@ == k_broadcast.base64_encoded_nickname@
                &&& opt_view(w.base64_encoded_profile_image) == opt_view(k_broadcast.base64_encoded_profile_image)
                &&& w.base64_encoded_message@ == k_broadcast.base64_encoded_message@
            },
        },
{
    let block_time = match transaction.block_time { Some(b) => b, None => 0 };
    let transaction_id = decode_field(transaction.transaction_id.as_str(), HexField::TransactionId)?;
    let sender_pubkey = decode_field(k_broadcast.sender_pubkey.as_str(), HexField::SenderPubkey)?;
    let sender_signature = decode_field(k_broadcast.sender_signature.as_str(), HexField::SenderSignature)?;
    let image = match &k_broadcast.base64_encoded_profile_image {
        Some(p) => Some(p.clone()),
        None => None,
    };
    Ok(BroadcastWrite {
        transaction_id,
        block_time,
        sender_pubkey,
        sender_signature,
        base64_encoded_nickname: k_broadcast.base64_encoded_nickname.clone(),
        base64_encoded_profile_image: image,
        base64_encoded_message: k_broadcast.base64_encoded_message.clone(),
    })
}

/// A vote to record with the mention of the voted content's author,
/// skipped if its signature is already recorded.
#[derive(Debug, Clone)]
pub struct VoteWrite {
    pub transaction_id: Vec<u8>,
    pub block_time: i64,
    pub sender_pubkey: Vec<u8>,
    pub sender_signature: Vec<u8>,
    pub post_id: Vec<u8>,
    pub vote: String,
    pub mentioned_pubkey: Vec<u8>,
}

/// The first field of a vote that fails to decode.
pub open spec fn vote_write_error(tx: Seq<char>, v: VoteView) -> Option<HexField> {
    if !hex_ok(tx) {
        Some(HexField::TransactionId)
    } else if !hex_ok(v.sender_pubkey) {
        Some(HexField::SenderPubkey)
    } else if !hex_ok(v.sender_signature) {
        Some(HexField::SenderSignature)
    } else if !hex_ok(v.post_id) {
        Some(HexField::PostId)
    } else if !hex_ok(v.mentioned_pubkey) {
        Some(HexField::MentionedPubkey)
    } else {
        None
    }
}

/// The row a signed vote writes.
pub fn vote_write(transaction: &Transaction, k_vote: &KVote) -> (r: Result<VoteWrite, WriteError>)
    ensures
        match vote_write_error(transaction.transaction_id@, k_vote@) {
            Some(f) => r == Err::<VoteWrite, WriteError>(WriteError::InvalidHex(f)),
            None => r matches Ok(w) && {
                &&& w.transaction_id@ == hex_of(transaction.transaction_id@)
                &&& w.block_time == block_time_or_zero(transaction.block_time)
                &&& w.sender_pubkey@ == hex_of(k_vote.sender_pubkey@)
                &&& w.sender_signature@ == hex_of(k_vote.sender_signature@)
                &&& w.post_id@ == hex_of(k_vote.post_id@)
                &&& w.vote@ == k_vote.vote@
                &&& w.mentioned_pubkey@ == hex_of(k_vote.mentioned_pubkey@)
            },
        },
{
    let block_time = match transaction.block_time { Some(b) => b, None => 0 };
    let transaction_id = decode_field(transaction.transaction_id.as_str(), HexField::TransactionId)?;
    let sender_pubkey = decode_field(k_vote.sender_pubkey.as_str(), HexField::SenderPubkey)?;
    let sender_signature = decode_field(k_vote.sender_signature.as_str(), HexField::SenderSignature)?;
    let post_id = decode_field(k_vote.post_id.as_str(), HexField::PostId)?;
    let mentioned_pubkey = decode_field(k_vote.mentioned_pubkey.as_str(), HexField::MentionedPubkey)?;
    Ok(VoteWrite {
        transaction_id,
        block_time,
        sender_pubkey,
        sender_signature,
        post_id,
        vote: k_vote.vote.clone(),
        mentioned_pubkey,
    })
}

/// What a block or follow action does to the relation between two users.
#[derive(Debug, Clone)]
pub enum RelationWrite {
    /// Record the relation, unless the sender already holds it with that user.
    Insert {
        transaction_id: Vec<u8>,
        block_time: i64,
        sender_pubkey: Vec<u8>,
        sender_signature: Vec<u8>,
        action: String,
        target_pubkey: Vec<u8>,
    },
    /// Remove the relation the sender holds with that user.
    Delete { sender_pubkey: Vec<u8>, target_pubkey: Vec<u8> },
}

/// What a block or follow action writes, where `establish` and `remove` are
/// the two action words (`block`/`unblock`, `follow`/`unfollow`).  The keys
/// are decoded first; the transaction id and signature only when recording.
pub open spec fn relation_write_ok(
    tx: Seq<char>,
    block_time: i64,
    r: RelationView,
    establish: Seq<char>,
    remove: Seq<char>,
    w: RelationWrite,
) -> bool {
    if r.action == establish {
        w matches RelationWrite::Insert { transaction_id, block_time: bt, sender_pubkey, sender_signature, action, target_pubkey }
            && transaction_id@ == hex_of(tx) && bt == block_time && sender_pubkey@ == hex_of(r.sender_pubkey)
            && sender_signature@ == hex_of(r.sender_signature) && action@ == r.action && target_pubkey@ == hex_of(r.target_pubkey)
    } else {
        w matches RelationWrite::Delete { sender_pubkey, target_pubkey }
            && sender_pubkey@ == hex_of(r.sender_pubkey) && target_pubkey@ == hex_of(r.target_pubkey)
    }
}

/// The first failure of a block or follow action.
pub open spec fn relation_write_error(tx: Seq<char>, r: RelationView, establish: Seq<char>, remove: Seq<char>) -> Option<WriteError> {
    if !hex_ok(r.sender_pubkey) {
        Some(WriteError::InvalidHex(HexField::SenderPubkey))
    } else if !hex_ok(r.target_pubkey) {
        Some(WriteError::InvalidHex(HexField::TargetPubkey))
    } else if r.action == establish {
        if !hex_ok(tx) {
            Some(WriteError::InvalidHex(HexField::TransactionId))
        } else if !hex_ok(r.sender_signature) {
            Some(WriteError::InvalidHex(HexField::SenderSignature))
        } else {
            None
        }
    } else {
        None
    }
}

pub open spec fn relation_error_matches(e: WriteError, spec: Option<WriteError>, action: Seq<char>) -> bool {
    match spec {
        Some(s) => e == s,
        None => e matches WriteError::InvalidAction(a) && a@ == action,
    }
}

fn relation_write(
    transaction: &Transaction,
    sender_pubkey_hex: &String,
    sender_signature_hex: &String,
    action: &String,
    target_hex: &String,
    establish: &str,
    remove: &str,
) -> (r: Result<RelationWrite, WriteError>)
    ensures
        ({
            let rv = RelationView {
                sender_pubkey: sender_pubkey_hex@,
                sender_signature: sender_signature_hex@,
                action: action@,
                target_pubkey: target_hex@,
            };
            let bad = relation_write_error(transaction.transaction_id@, rv, establish@, remove@);
            let known = action@ == establish@ || action@ == remove@;
            match r {
                Ok(w) => bad is None && known
                    && relation_write_ok(transaction.transaction_id@, block_time_or_zero(transaction.block_time), rv, establish@, remove@, w),
                Err(e) => (bad is Some || !known) && relation_error_matches(e, bad, action@),
            }
        }),
{
    let block_time = match transaction.block_time { Some(b) => b, None => 0 };
    let sender_pubkey = decode_field(sender_pubkey_hex.as_str(), HexField::SenderPubkey)?;
    let target_pubkey = decode_field(target_hex.as_str(), HexField::TargetPubkey)?;
    if str_equal_owned(action, establish) {
        let transaction_id = decode_field(transaction.transaction_id.as_str(), HexField::TransactionId)?;
        let sender_signature = decode_field(sender_signature_hex.as_str(), HexField::SenderSignature)?;
        Ok(RelationWrite::Insert {
            transaction_id,
            block_time,
            sender_pubkey,
            sender_signature,
            action: action.clone(),
            target_pubkey,
        })
    } else if str_equal_owned(action, remove) {
        Ok(RelationWrite::Delete { sender_pubkey, target_pubkey })
    } else {
        Err(WriteError::InvalidAction(action.clone()))
    }
}

fn str_equal_owned(a: &String, b: &str) -> (r: bool)
    ensures
        r == (a@ == b@),
{
    crate::text::str_equal(a.as_str(), b)
}

/// What a signed block action writes: `block` records the block (unless the
/// sender already blocks that user), `unblock` removes it; any other action
/// is an error.
pub fn block_write(transaction: &Transaction, k_block: &KBlock) -> (r: Result<RelationWrite, WriteError>)
    ensures
        ({
            let bad = relation_write_error(transaction.transaction_id@, k_block@, "block"@, "unblock"@);
            let known = k_block.blocking_action@ == "block"@ || k_block.blocking_action@ == "unblock"@;
            match r {
                Ok(w) => bad is None && known
                    && relation_write_ok(transaction.transaction_id@, block_time_or_zero(transaction.block_time), k_block@, "block"@, "unblock"@, w),
                Err(e) => (bad is Some || !known) && relation_error_matches(e, bad, k_block.blocking_action@),
            }
        }),
{
    relation_write(transaction, &k_block.sender_pubkey, &k_block.sender_signature, &k_block.blocking_action,
        &k_block.blocked_user_pubkey, "block", "unblock")
}

/// What a signed follow action writes: `follow` records the follow (unless
/// the sender already follows that user), `unfollow` removes it; any other
/// action is an error.
pub fn follow_write(transaction: &Transaction, k_follow: &KFollow) -> (r: Result<RelationWrite, WriteError>)
    ensures
        ({
            let bad = relation_write_error(transaction.transaction_id@, k_follow@, "follow"@, "unfollow"@);
            let known = k_follow.following_action@ == "follow"@ || k_follow.following_action@ == "unfollow"@;
            match r {
                Ok(w) => bad is None && known
                    && relation_write_ok(transaction.transaction_id@, block_time_or_zero(transaction.block_time), k_follow@, "follow"@, "unfollow"@, w),
                Err(e) => (bad is Some || !known) && relation_error_matches(e, bad, k_follow.following_action@),
            }
        }),
{
    relation_write(transaction, &k_follow.sender_pubkey, &k_follow.sender_signature, &k_follow.following_action,
        &k_follow.followed_user_pubkey, "follow", "unfollow")
}

} // verus!
