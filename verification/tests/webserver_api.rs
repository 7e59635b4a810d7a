//! The web server's request handling: key checks, options, windows, entries.
use k_indexer::webserver::api::{
    active_user_entry, blocked_user_entry, content_post, database_error_response, follow_list_entry,
    followed_user_entry, invalid_time_window_response, lookahead_options, not_found_response,
    notification_post, page_options, range_in_seconds, rank_hashtags, searched_pubkey_suffix,
    serialization_error_response, time_window_millis, user_details_entry, user_entry,
    validate_content_id, validate_pubkey, window_range, ApiHandlers,
};
use k_indexer::webserver::models::{
    ContentRecord, KBroadcastRecord, KVoteRecord, NotificationContentRecord,
};

fn key(prefix: &str) -> String {
    format!("{}{}", prefix, "a".repeat(64))
}

fn record() -> KBroadcastRecord {
    KBroadcastRecord {
        id: 5,
        transaction_id: "tx5".to_string(),
        block_time: 1000,
        sender_pubkey: key("02"),
        sender_signature: "sig".to_string(),
        base64_encoded_nickname: "bmljaw==".to_string(),
        base64_encoded_profile_image: Some("img".to_string()),
        base64_encoded_message: "aGVsbG8=".to_string(),
    }
}

#[test]
fn accepted_public_keys() {
    assert!(validate_pubkey(&key("02"), "user").is_ok());
    assert!(validate_pubkey(&key("03"), "requester").is_ok());
}

#[test]
fn refused_public_keys() {
    let e = validate_pubkey("02abc", "requester").unwrap_err();
    assert_eq!(e.error, "Invalid requester public key format. Must be 66 hex characters.");
    assert_eq!(e.code, "INVALID_USER_KEY");
    let e = validate_pubkey(&format!("02{}", "z".repeat(64)), "user").unwrap_err();
    assert_eq!(e.error, "Invalid user public key format. Must contain only hex characters.");
    let e = validate_pubkey(&key("04"), "user").unwrap_err();
    assert_eq!(
        e.error,
        "Invalid user public key format. Compressed public key must start with 02 or 03."
    );
    // Length is counted in bytes: 33 two-byte characters are 66 bytes.
    let e = validate_pubkey(&"é".repeat(33), "user").unwrap_err();
    assert_eq!(e.error, "Invalid user public key format. Must contain only hex characters.");
}

#[test]
fn content_ids() {
    assert!(validate_content_id(&"b".repeat(64), "post").is_ok());
    let e = validate_content_id("abc", "post").unwrap_err();
    assert_eq!(e.error, "Invalid post ID format. Must be 64 hex characters.");
    assert_eq!(e.code, "INVALID_POST_ID");
    let e = validate_content_id(&"g".repeat(64), "content").unwrap_err();
    assert_eq!(e.error, "Invalid content ID format. Must contain only hex characters.");
}

#[test]
fn searched_keys_lose_their_prefix() {
    assert_eq!(searched_pubkey_suffix(&None).unwrap(), None);
    assert_eq!(searched_pubkey_suffix(&Some(key("03"))).unwrap(), Some("a".repeat(64)));
    let e = searched_pubkey_suffix(&Some("02ab".to_string())).unwrap_err();
    assert_eq!(e.error, "Invalid searched user public key format. Must be 66 hex characters.");
    let e = searched_pubkey_suffix(&Some(key("05"))).unwrap_err();
    assert_eq!(e.error, "Invalid searched user public key prefix. Must start with 02 or 03.");
}

#[test]
fn error_answers() {
    let h = ApiHandlers::new();
    let e = h.create_error_response("m", "C");
    assert_eq!((e.error.as_str(), e.code.as_str()), ("m", "C"));
    assert_eq!(database_error_response().code, "DATABASE_ERROR");
    assert_eq!(serialization_error_response().code, "SERIALIZATION_ERROR");
    assert_eq!(not_found_response().error, "Content not found");
    assert_eq!(invalid_time_window_response().code, "INVALID_PARAMETER");
}

#[test]
fn options_of_handlers() {
    let o = page_options(15, Some("1_2".to_string()), None);
    assert_eq!(o.limit, Some(15));
    assert!(o.sort_descending);
    assert_eq!(o.before.as_deref(), Some("1_2"));
    let o = lookahead_options(15, None, Some("3_4".to_string()));
    assert_eq!(o.limit, Some(16));
    assert_eq!(o.after.as_deref(), Some("3_4"));
}

#[test]
fn time_windows() {
    assert_eq!(time_window_millis("1h"), Some(3_600_000));
    assert_eq!(time_window_millis("6h"), Some(21_600_000));
    assert_eq!(time_window_millis("24h"), Some(86_400_000));
    assert_eq!(time_window_millis("7d"), Some(604_800_000));
    assert_eq!(time_window_millis("30d"), Some(2_592_000_000));
    assert_eq!(time_window_millis("2h"), None);
    assert_eq!(window_range(3_600_000, 10_000_000), (6_400_000, 10_000_000));
    assert_eq!(window_range(3_600_000, 1_000), (0, 1_000));
    assert_eq!(range_in_seconds((6_400_999, 10_000_000)), (6_400, 10_000));
}

#[test]
fn ranks_follow_database_order() {
    let ranked = rank_hashtags(vec![("rust".to_string(), 9), ("kaspa".to_string(), 4)]);
    assert_eq!(ranked.len(), 2);
    assert_eq!((ranked[0].hashtag.as_str(), ranked[0].usage_count, ranked[0].rank), ("rust", 9, 1));
    assert_eq!((ranked[1].hashtag.as_str(), ranked[1].usage_count, ranked[1].rank), ("kaspa", 4, 2));
}

#[test]
fn user_entries() {
    let u = user_entry(&record(), true, false);
    assert_eq!(u.post_content, "KioqKioqKioqKg==");
    assert_eq!(u.blocked_user, Some(true));
    assert_eq!(u.followed_user, Some(false));
    assert_eq!(u.user_nickname.as_deref(), Some("bmljaw=="));
    let u = active_user_entry(&record(), false, true, 17);
    assert_eq!(u.post_content, "aGVsbG8=");
    assert_eq!(u.contents_count, Some(17));
    let u = blocked_user_entry(&record());
    assert_eq!((u.post_content.as_str(), u.blocked_user), ("", Some(true)));
    let u = followed_user_entry(&record());
    assert_eq!((u.post_content.as_str(), u.followed_user), ("", Some(true)));
    let u = follow_list_entry(&record(), false);
    assert_eq!(u.followed_user, Some(false));
    assert_eq!(u.blocked_user, None);
}

#[test]
fn user_details() {
    let u = user_details_entry(&key("02"), Some((record(), false, true, 3, 4, 5)));
    assert_eq!(u.id, "tx5");
    assert_eq!((u.followers_count, u.following_count, u.blocked_count), (Some(3), Some(4), Some(5)));
    let mut stand_in = record();
    stand_in.id = 0;
    stand_in.transaction_id = String::new();
    let u = user_details_entry(&key("03"), Some((stand_in, true, false, 1, 2, 3)));
    assert_eq!(u.id, "");
    assert_eq!(u.user_public_key, key("03"));
    assert_eq!(u.user_nickname, None);
    assert_eq!(u.blocked_user, Some(true));
    let u = user_details_entry(&key("02"), None);
    assert_eq!((u.blocked_user, u.followed_user, u.followers_count), (Some(false), Some(false), Some(0)));
}

fn vote() -> KVoteRecord {
    KVoteRecord {
        id: 8,
        transaction_id: "vt".to_string(),
        block_time: 50,
        sender_pubkey: key("02"),
        sender_signature: "s".to_string(),
        post_id: "p1".to_string(),
        vote: "downvote".to_string(),
        mention_block_time: Some(60),
        voted_content: None,
        user_nickname: Some("n".to_string()),
        user_profile_image: None,
    }
}

#[test]
fn votes_as_posts_and_notifications() {
    let p = content_post(&ContentRecord::Vote(vote()), true);
    assert_eq!(p.content_type.as_deref(), Some("vote"));
    assert_eq!(p.parent_post_id.as_deref(), Some("p1"));
    assert_eq!(p.post_content, "");
    assert_eq!(p.blocked_user, Some(true));
    let n = notification_post(&NotificationContentRecord { content: ContentRecord::Vote(vote()), mention_id: 3, mention_block_time: 70 });
    assert_eq!(n.content_type, "vote");
    assert_eq!(n.cursor, "70_3");
    assert_eq!(n.vote_type.as_deref(), Some("downvote"));
    assert_eq!(n.voted_content.as_deref(), Some(""));
    assert_eq!(n.content_id.as_deref(), Some("p1"));
}
