use k_indexer::transaction_processor::database::Transaction;
use k_indexer::transaction_processor::processing::{
    block_write, broadcast_write, clean_payload, decode_mentions, follow_write, is_k_protocol_transaction,
    payload_text, post_write, prepare_signature, signed_plan, process_k_transaction, quote_write, reply_write, vote_write,
    ContentKind, ContentStatement, HexField, PayloadIssue, RelationWrite, TransactionStep, WriteError,
};
use k_indexer::transaction_processor::protocol::{
    mentions_field, parse_k_protocol_payload, KActionType, KBlock, KBroadcast, KFollow, KPost, KQuote, KReply,
    KVote, ProtocolError,
};

const GENERATOR_X: &str = "79be667ef9dcbbac55a06295ce870b07029bfcdb2dce28d959f2815b16f81798";

fn tx_with_text(text: &str, block_time: Option<i64>) -> Transaction {
    Transaction { transaction_id: "aabb".to_string(), payload: Some(hex::encode(text.as_bytes())), block_time }
}

fn sample_post(mentions: Vec<String>) -> KPost {
    KPost {
        sender_pubkey: "02aa".to_string(),
        sender_signature: "bbcc".to_string(),
        base64_encoded_message: "SGVsbG8gI3dvcmxk".to_string(),
        mentioned_pubkeys: mentions,
    }
}

#[test]
fn parse_post_with_mentions() {
    match parse_k_protocol_payload("k:1:post:02aa:bbcc:SGVsbG8=:[\"02dd\",\"03ee\"]") {
        Ok(KActionType::Post(p)) => {
            assert_eq!(p.sender_pubkey, "02aa");
            assert_eq!(p.sender_signature, "bbcc");
            assert_eq!(p.base64_encoded_message, "SGVsbG8=");
            assert_eq!(p.mentioned_pubkeys, vec!["02dd".to_string(), "03ee".to_string()]);
        }
        other => panic!("unexpected {:?}", other),
    }
}

#[test]
fn parse_post_without_mentions_field() {
    match parse_k_protocol_payload("k:1:post:02aa:bbcc:SGVsbG8=") {
        Ok(KActionType::Post(p)) => assert!(p.mentioned_pubkeys.is_empty()),
        other => panic!("unexpected {:?}", other),
    }
}

#[test]
fn parse_post_with_unreadable_mentions() {
    match parse_k_protocol_payload("k:1:post:02aa:bbcc:SGVsbG8=:notjson") {
        Ok(KActionType::Post(p)) => assert!(p.mentioned_pubkeys.is_empty()),
        other => panic!("unexpected {:?}", other),
    }
}

#[test]
fn parse_rejects_missing_prefix() {
    assert_eq!(parse_k_protocol_payload("k:2:post:a:b:c").unwrap_err(), ProtocolError::InvalidPrefix);
    assert_eq!(parse_k_protocol_payload("").unwrap_err(), ProtocolError::InvalidPrefix);
}

#[test]
fn parse_reports_short_actions() {
    assert_eq!(
        parse_k_protocol_payload("k:1:post:02aa:bbcc").unwrap_err(),
        ProtocolError::InvalidFormat { action: "post".to_string(), expected: 4, got: 3 }
    );
    assert_eq!(
        parse_k_protocol_payload("k:1:broadcast:a:b:c").unwrap_err(),
        ProtocolError::InvalidFormat { action: "broadcast".to_string(), expected: 6, got: 4 }
    );
    assert_eq!(
        parse_k_protocol_payload("k:1:reply:a:b:c").unwrap_err(),
        ProtocolError::InvalidFormat { action: "reply".to_string(), expected: 5, got: 4 }
    );
}

#[test]
fn parse_vote_values() {
    match parse_k_protocol_payload("k:1:vote:02aa:bbcc:dd:upvote:03ee") {
        Ok(KActionType::Vote(v)) => {
            assert_eq!(v.post_id, "dd");
            assert_eq!(v.vote, "upvote");
            assert_eq!(v.mentioned_pubkey, "03ee");
        }
        other => panic!("unexpected {:?}", other),
    }
    assert_eq!(
        parse_k_protocol_payload("k:1:vote:02aa:bbcc:dd:like:03ee").unwrap_err(),
        ProtocolError::InvalidVote("like".to_string())
    );
}

#[test]
fn parse_block_and_follow_actions() {
    match parse_k_protocol_payload("k:1:block:02aa:bbcc:unblock:03ee") {
        Ok(KActionType::Block(b)) => {
            assert_eq!(b.blocking_action, "unblock");
            assert_eq!(b.blocked_user_pubkey, "03ee");
        }
        other => panic!("unexpected {:?}", other),
    }
    assert_eq!(
        parse_k_protocol_payload("k:1:block:02aa:bbcc:mute:03ee").unwrap_err(),
        ProtocolError::InvalidBlockingAction("mute".to_string())
    );
    match parse_k_protocol_payload("k:1:follow:02aa:bbcc:follow:03ee") {
        Ok(KActionType::Follow(f)) => assert_eq!(f.followed_user_pubkey, "03ee"),
        other => panic!("unexpected {:?}", other),
    }
    assert_eq!(
        parse_k_protocol_payload("k:1:follow:02aa:bbcc:watch:03ee").unwrap_err(),
        ProtocolError::InvalidFollowingAction("watch".to_string())
    );
}

#[test]
fn parse_broadcast_and_quote() {
    match parse_k_protocol_payload("k:1:broadcast:02aa:bbcc:bmljaw==::aGk=") {
        Ok(KActionType::Broadcast(b)) => {
            assert_eq!(b.base64_encoded_nickname, "bmljaw==");
            assert_eq!(b.base64_encoded_profile_image, None);
            assert_eq!(b.base64_encoded_message, "aGk=");
        }
        other => panic!("unexpected {:?}", other),
    }
    match parse_k_protocol_payload("k:1:quote:02aa:bbcc:ff00:aGk=:03ee") {
        Ok(KActionType::Quote(q)) => {
            assert_eq!(q.content_id, "ff00");
            assert_eq!(q.mentioned_pubkey, "03ee");
        }
        other => panic!("unexpected {:?}", other),
    }
}

#[test]
fn parse_unknown_action() {
    match parse_k_protocol_payload("k:1:dance:x") {
        Ok(KActionType::Unknown(name)) => assert_eq!(name, "dance"),
        other => panic!("unexpected {:?}", other),
    }
}

#[test]
fn mentions_field_reads_json_array() {
    let parts = vec!["post".to_string(), "[\"a\",\"b\"]".to_string()];
    assert_eq!(mentions_field(&parts, 1), vec!["a".to_string(), "b".to_string()]);
    assert!(mentions_field(&parts, 2).is_empty());
}

#[test]
fn cleaning_keeps_layout_characters() {
    assert_eq!(clean_payload("a\u{0}b\nc\td\re\u{7}"), "ab\nc\td\re");
}

#[test]
fn payload_text_reports_each_issue() {
    assert_eq!(payload_text(&None), Err(PayloadIssue::NoPayload));
    assert_eq!(payload_text(&Some("zz".to_string())), Err(PayloadIssue::InvalidHex));
    assert_eq!(payload_text(&Some("ff".to_string())), Err(PayloadIssue::InvalidUtf8));
    assert_eq!(payload_text(&Some(hex::encode("k:1:x\u{1}"))), Ok("k:1:x".to_string()));
}

#[test]
fn transaction_steps() {
    match process_k_transaction(&tx_with_text("k:1:post:02aa:bbcc:SGk=", Some(5))) {
        TransactionStep::Record(KActionType::Post(p)) => assert_eq!(p.base64_encoded_message, "SGk="),
        other => panic!("unexpected {:?}", other),
    }
    match process_k_transaction(&tx_with_text("k:1:dance", None)) {
        TransactionStep::UnknownAction(n) => assert_eq!(n, "dance"),
        other => panic!("unexpected {:?}", other),
    }
    match process_k_transaction(&tx_with_text("hello", None)) {
        TransactionStep::Rejected(e) => assert_eq!(e, ProtocolError::InvalidPrefix),
        other => panic!("unexpected {:?}", other),
    }
    let no_payload = Transaction { transaction_id: "aa".to_string(), payload: None, block_time: None };
    match process_k_transaction(&no_payload) {
        TransactionStep::Skip(issue) => assert_eq!(issue, PayloadIssue::NoPayload),
        other => panic!("unexpected {:?}", other),
    }
}

#[test]
fn k_protocol_detection() {
    assert!(is_k_protocol_transaction(&tx_with_text("k:1:anything", None)));
    assert!(!is_k_protocol_transaction(&tx_with_text("k:2:anything", None)));
    let bad = Transaction { transaction_id: "aa".to_string(), payload: Some("nothex".to_string()), block_time: None };
    assert!(!is_k_protocol_transaction(&bad));
}

#[test]
fn transaction_from_row_hex_encodes() {
    let t = Transaction::from_row(&[0xab, 0x01], Some(vec![0x6b, 0x3a]), Some(7));
    assert_eq!(t.transaction_id, "ab01");
    assert_eq!(t.payload, Some("6b3a".to_string()));
    assert_eq!(t.block_time, Some(7));
    assert_eq!(Transaction::from_row(&[], None, None).payload, None);
}

#[test]
fn signed_messages() {
    let post = sample_post(vec!["02dd".to_string()]);
    assert_eq!(post.message_to_verify(), "SGVsbG8gI3dvcmxk:[\"02dd\"]");
    let reply = KReply {
        sender_pubkey: "02aa".to_string(),
        sender_signature: "bb".to_string(),
        post_id: "ff".to_string(),
        base64_encoded_message: "aGk=".to_string(),
        mentioned_pubkeys: vec![],
    };
    assert_eq!(reply.message_to_verify(), "ff:aGk=:[]");
    let broadcast = KBroadcast {
        sender_pubkey: "02aa".to_string(),
        sender_signature: "bb".to_string(),
        base64_encoded_nickname: "bmk=".to_string(),
        base64_encoded_profile_image: None,
        base64_encoded_message: "aGk=".to_string(),
    };
    assert_eq!(broadcast.message_to_verify(), "bmk=::aGk=");
    let vote = KVote {
        sender_pubkey: "02aa".to_string(),
        sender_signature: "bb".to_string(),
        post_id: "ff".to_string(),
        vote: "upvote".to_string(),
        mentioned_pubkey: "03ee".to_string(),
    };
    assert_eq!(vote.message_to_verify(), "ff:upvote:03ee");
    let block = KBlock {
        sender_pubkey: "02aa".to_string(),
        sender_signature: "bb".to_string(),
        blocking_action: "block".to_string(),
        blocked_user_pubkey: "03ee".to_string(),
    };
    assert_eq!(block.message_to_verify(), "block:03ee");
    let quote = KQuote {
        sender_pubkey: "02aa".to_string(),
        sender_signature: "bb".to_string(),
        content_id: "ff".to_string(),
        base64_encoded_message: "aGk=".to_string(),
        mentioned_pubkey: "03ee".to_string(),
    };
    assert_eq!(quote.message_to_verify(), "ff:aGk=:03ee");
}

#[test]
fn signature_preparation() {
    let sig = "00".repeat(64);
    let compressed = format!("02{}", GENERATOR_X);
    let check = prepare_signature("m".to_string(), &sig, &compressed).expect("well formed");
    assert_eq!(check.message, "m");
    assert_eq!(check.signature, vec![0u8; 64]);
    assert_eq!(hex::encode(check.public_key.key().serialize()), GENERATOR_X);
    assert!(prepare_signature("m".to_string(), &sig, GENERATOR_X).is_some());
    assert!(prepare_signature("m".to_string(), "00", GENERATOR_X).is_none());
    assert!(prepare_signature("m".to_string(), &sig, "0011").is_none());
    assert!(prepare_signature("m".to_string(), &sig, &"ff".repeat(32)).is_none());
}

#[test]
fn post_write_decodes_fields() {
    let tx = Transaction { transaction_id: "aabb".to_string(), payload: None, block_time: None };
    let w = post_write(&tx, &sample_post(vec!["03ee".to_string()])).expect("valid post");
    assert_eq!(w.transaction_id, vec![0xaa, 0xbb]);
    assert_eq!(w.block_time, 0);
    assert_eq!(w.sender_pubkey, vec![0x02, 0xaa]);
    assert_eq!(w.sender_signature, vec![0xbb, 0xcc]);
    assert_eq!(w.kind, ContentKind::Post);
    assert_eq!(w.referenced_content_id, None);
    assert_eq!(w.mentioned_pubkeys, vec![vec![0x03, 0xee]]);
    assert_eq!(w.hashtags, vec!["world".to_string()]);
    assert_eq!(w.statement(), ContentStatement::WithMentionsAndHashtags);
}

#[test]
fn post_write_reports_first_bad_field() {
    let bad_tx = Transaction { transaction_id: "xyz".to_string(), payload: None, block_time: None };
    assert_eq!(
        post_write(&bad_tx, &sample_post(vec![])).unwrap_err(),
        WriteError::InvalidHex(HexField::TransactionId)
    );
    let tx = Transaction { transaction_id: "aa".to_string(), payload: None, block_time: Some(3) };
    assert_eq!(
        post_write(&tx, &sample_post(vec!["nothex".to_string()])).unwrap_err(),
        WriteError::InvalidHex(HexField::MentionedPubkey)
    );
    assert_eq!(
        decode_mentions(&vec!["0a".to_string(), "q".to_string()]).unwrap_err(),
        WriteError::InvalidHex(HexField::MentionedPubkey)
    );
}

#[test]
fn reply_and_quote_writes_reference_content() {
    let tx = Transaction { transaction_id: "01".to_string(), payload: None, block_time: Some(9) };
    let reply = KReply {
        sender_pubkey: "02".to_string(),
        sender_signature: "03".to_string(),
        post_id: "04".to_string(),
        base64_encoded_message: "aGk=".to_string(),
        mentioned_pubkeys: vec![],
    };
    let w = reply_write(&tx, &reply).expect("valid reply");
    assert_eq!(w.kind, ContentKind::Reply);
    assert_eq!(w.referenced_content_id, Some(vec![0x04]));
    assert_eq!(w.block_time, 9);
    assert_eq!(w.statement(), ContentStatement::Plain);
    let quote = KQuote {
        sender_pubkey: "02".to_string(),
        sender_signature: "03".to_string(),
        content_id: "zz".to_string(),
        base64_encoded_message: "aGk=".to_string(),
        mentioned_pubkey: "05".to_string(),
    };
    assert_eq!(quote_write(&tx, &quote).unwrap_err(), WriteError::InvalidHex(HexField::ContentId));
}

#[test]
fn broadcast_and_vote_writes() {
    let tx = Transaction { transaction_id: "01".to_string(), payload: None, block_time: Some(2) };
    let broadcast = KBroadcast {
        sender_pubkey: "02".to_string(),
        sender_signature: "03".to_string(),
        base64_encoded_nickname: "bmk=".to_string(),
        base64_encoded_profile_image: Some("aW1n".to_string()),
        base64_encoded_message: "aGk=".to_string(),
    };
    let b = broadcast_write(&tx, &broadcast).expect("valid broadcast");
    assert_eq!(b.sender_pubkey, vec![0x02]);
    assert_eq!(b.base64_encoded_profile_image, Some("aW1n".to_string()));
    let vote = KVote {
        sender_pubkey: "02".to_string(),
        sender_signature: "03".to_string(),
        post_id: "04".to_string(),
        vote: "downvote".to_string(),
        mentioned_pubkey: "xx".to_string(),
    };
    assert_eq!(vote_write(&tx, &vote).unwrap_err(), WriteError::InvalidHex(HexField::MentionedPubkey));
}

#[test]
fn relation_writes() {
    let tx = Transaction { transaction_id: "01".to_string(), payload: None, block_time: None };
    let block = KBlock {
        sender_pubkey: "02".to_string(),
        sender_signature: "03".to_string(),
        blocking_action: "block".to_string(),
        blocked_user_pubkey: "04".to_string(),
    };
    match block_write(&tx, &block).expect("valid block") {
        RelationWrite::Insert { transaction_id, action, target_pubkey, .. } => {
            assert_eq!(transaction_id, vec![0x01]);
            assert_eq!(action, "block");
            assert_eq!(target_pubkey, vec![0x04]);
        }
        other => panic!("unexpected {:?}", other),
    }
    let unfollow = KFollow {
        sender_pubkey: "02".to_string(),
        sender_signature: "not hex".to_string(),
        following_action: "unfollow".to_string(),
        followed_user_pubkey: "04".to_string(),
    };
    match follow_write(&tx, &unfollow).expect("valid unfollow") {
        RelationWrite::Delete { sender_pubkey, target_pubkey } => {
            assert_eq!(sender_pubkey, vec![0x02]);
            assert_eq!(target_pubkey, vec![0x04]);
        }
        other => panic!("unexpected {:?}", other),
    }
    let odd = KFollow {
        sender_pubkey: "02".to_string(),
        sender_signature: "03".to_string(),
        following_action: "watch".to_string(),
        followed_user_pubkey: "04".to_string(),
    };
    assert_eq!(follow_write(&tx, &odd).unwrap_err(), WriteError::InvalidAction("watch".to_string()));
}

#[test]
fn protocol_error_texts() {
    let prefix = parse_k_protocol_payload("k:2:post:02ab:5e1f:bXNn").unwrap_err();
    assert_eq!(prefix.message(), "Invalid K protocol prefix");
    assert_eq!(
        parse_k_protocol_payload("k:1:broadcast:a:b").unwrap_err().message(),
        "Invalid broadcast format: expected 6 parts, got 3"
    );
    assert_eq!(
        parse_k_protocol_payload("k:1:post:a").unwrap_err().message(),
        "Invalid post format: expected at least 4 parts, got 2"
    );
    assert_eq!(
        ProtocolError::InvalidVote("like".to_string()).message(),
        "Invalid vote value: expected 'upvote' or 'downvote', got 'like'"
    );
    assert_eq!(
        ProtocolError::InvalidBlockingAction("mute".to_string()).message(),
        "Invalid blocking_action value: expected 'block' or 'unblock', got 'mute'"
    );
    assert_eq!(
        ProtocolError::InvalidFollowingAction("watch".to_string()).message(),
        "Invalid following_action value: expected 'follow' or 'unfollow', got 'watch'"
    );
}

#[test]
fn invalid_signatures_write_nothing() {
    let tx = Transaction { transaction_id: "aa".to_string(), payload: None, block_time: None };
    let plan = post_write(&tx, &sample_post(vec![]));
    assert!(signed_plan(false, plan.clone()).is_none());
    assert!(matches!(signed_plan(true, plan), Some(Ok(_))));
}
