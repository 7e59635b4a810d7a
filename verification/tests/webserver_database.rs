//! The web server's database layer: cursors, page windows, clauses, rows.
use k_indexer::webserver::database::{
    active_users_metadata, broadcast_record_from_row, content_shape, create_compound_pagination_metadata,
    cursor_conditions, decode_hex_to_bytes, encode_bytes_to_hex, limit_clause, nonempty_page_metadata,
    notification_count_bound, notification_from_row, notification_page, notifications_metadata, order_clause, page_window, parse_compound_cursor,
    placeholder_user_record, pop_extra_row, read_cursor_option, reply_parent, take_page, BroadcastRow,
    ContentShape, DatabaseError, NotificationRow, QueryOptions,
};
use k_indexer::webserver::models::{
    create_compound_cursor, ContentRecord, KBroadcastRecord, KPostRecord, NotificationContentRecord,
};

fn post(id: i64, block_time: u64) -> KPostRecord {
    KPostRecord {
        id,
        transaction_id: format!("tx{}", id),
        block_time,
        sender_pubkey: String::new(),
        sender_signature: String::new(),
        base64_encoded_message: String::new(),
        mentioned_pubkeys: Vec::new(),
        content_type: None,
        replies_count: None,
        up_votes_count: None,
        down_votes_count: None,
        quotes_count: None,
        is_upvoted: None,
        is_downvoted: None,
        user_nickname: None,
        user_profile_image: None,
        referenced_content_id: None,
        referenced_message: None,
        referenced_sender_pubkey: None,
        referenced_nickname: None,
        referenced_profile_image: None,
    }
}

fn options(before: Option<&str>, after: Option<&str>) -> QueryOptions {
    QueryOptions {
        limit: None,
        before: before.map(|s| s.to_string()),
        after: after.map(|s| s.to_string()),
        sort_descending: true,
    }
}

fn invalid_input(r: Result<(u64, i64), DatabaseError>) -> String {
    match r {
        Err(DatabaseError::InvalidInput(m)) => m,
        other => panic!("expected an invalid-input error, got {:?}", other),
    }
}

#[test]
fn cursor_is_timestamp_underscore_id() {
    assert_eq!(create_compound_cursor(1700000000000, 42), "1700000000000_42");
    assert_eq!(create_compound_cursor(0, -7), "0_-7");
}

#[test]
fn cursor_round_trip() {
    for (t, i) in [(0u64, 0i64), (1700000000123, 987654), (u64::MAX, i64::MIN), (5, i64::MAX)] {
        let c = create_compound_cursor(t, i);
        assert_eq!(parse_compound_cursor(&c).unwrap(), (t, i));
    }
}

#[test]
fn bare_timestamp_cursor_covers_every_id() {
    assert_eq!(parse_compound_cursor("12345").unwrap(), (12345, i64::MAX));
}

#[test]
fn cursor_errors() {
    assert_eq!(invalid_input(parse_compound_cursor("abc_5")), "Invalid timestamp in cursor");
    assert_eq!(invalid_input(parse_compound_cursor("12_x")), "Invalid ID in cursor");
    assert_eq!(invalid_input(parse_compound_cursor("1_2_3")), "Invalid cursor format");
    assert_eq!(invalid_input(parse_compound_cursor("")), "Invalid cursor format");
    assert_eq!(invalid_input(parse_compound_cursor("-5")), "Invalid cursor format");
}

#[test]
fn unreadable_cursor_options_are_left_out() {
    assert_eq!(read_cursor_option(&Some("10_3".to_string())), Some((10, 3)));
    assert_eq!(read_cursor_option(&Some("oops".to_string())), None);
    assert_eq!(read_cursor_option(&None), None);
}

#[test]
fn database_error_messages() {
    assert_eq!(DatabaseError::QueryError("boom".to_string()).message(), "Query error: boom");
    assert_eq!(DatabaseError::NotFound.message(), "Record not found");
    assert_eq!(DatabaseError::InvalidInput("x".to_string()).message(), "Invalid input: x");
    assert_eq!(DatabaseError::ConnectionError("c".to_string()).message(), "Connection error: c");
    assert_eq!(DatabaseError::SerializationError("s".to_string()).message(), "Serialization error: s");
}

#[test]
fn default_query_options() {
    let o = QueryOptions::default();
    assert_eq!(o.limit, None);
    assert!(o.before.is_none() && o.after.is_none());
    assert!(o.sort_descending);
}

#[test]
fn hex_columns() {
    assert_eq!(decode_hex_to_bytes("0aFF").unwrap(), vec![10u8, 255]);
    match decode_hex_to_bytes("abc") {
        Err(DatabaseError::InvalidInput(m)) => assert_eq!(m, "Invalid hex string: Odd number of digits"),
        other => panic!("unexpected {:?}", other),
    }
    assert_eq!(encode_bytes_to_hex(&[0x01, 0xab]), "01ab");
}

#[test]
fn pagination_metadata_of_a_page() {
    let items = vec![post(9, 300), post(8, 200), post(7, 100)];
    let m = create_compound_pagination_metadata(&items, 3, true);
    assert!(m.has_more);
    assert_eq!(m.next_cursor.as_deref(), Some("100_7"));
    assert_eq!(m.prev_cursor.as_deref(), Some("300_9"));
    let m = create_compound_pagination_metadata(&items, 3, false);
    assert_eq!(m.next_cursor, None);
    assert_eq!(m.prev_cursor.as_deref(), Some("300_9"));
    let empty: Vec<KPostRecord> = Vec::new();
    let m = create_compound_pagination_metadata(&empty, 3, true);
    assert!(m.has_more);
    assert_eq!(m.next_cursor, None);
    assert_eq!(m.prev_cursor, None);
}

#[test]
fn empty_followed_page_reports_no_more() {
    let empty: Vec<KPostRecord> = Vec::new();
    let m = nonempty_page_metadata(&empty, true);
    assert!(!m.has_more);
    let items = vec![post(1, 10)];
    let m = nonempty_page_metadata(&items, true);
    assert!(m.has_more);
    assert_eq!(m.next_cursor.as_deref(), Some("10_1"));
}

#[test]
fn most_active_cursors_carry_counts() {
    let rec = broadcast_record_from_row(BroadcastRow {
        id: 4,
        transaction_id: vec![1],
        block_time: 55,
        sender_pubkey: vec![2],
        sender_signature: vec![3],
        base64_encoded_nickname: "bmljaw==".to_string(),
        base64_encoded_profile_image: None,
        base64_encoded_message: "bXNn".to_string(),
    });
    let results = vec![(rec.clone(), false, true, 12i64), (rec, true, false, 3i64)];
    let m = active_users_metadata(&results, true);
    assert_eq!(m.prev_cursor.as_deref(), Some("12_4"));
    assert_eq!(m.next_cursor.as_deref(), Some("3_4"));
}

#[test]
fn notification_cursors_are_the_mentions() {
    let items = vec![
        NotificationContentRecord { content: ContentRecord::Post(post(1, 10)), mention_id: 70, mention_block_time: 700 },
        NotificationContentRecord { content: ContentRecord::Post(post(2, 20)), mention_id: 60, mention_block_time: 600 },
    ];
    let m = notifications_metadata(&items, false);
    assert!(!m.has_more);
    assert_eq!(m.prev_cursor.as_deref(), Some("700_70"));
    assert_eq!(m.next_cursor.as_deref(), Some("600_60"));
}

#[test]
fn page_window_fetches_one_extra() {
    let w = page_window(&options(None, None));
    assert_eq!((w.limit, w.fetch, w.keep), (20, 21, 20));
    let mut o = options(None, None);
    o.limit = Some(5);
    let w = page_window(&o);
    assert_eq!((w.limit, w.fetch, w.keep), (5, 6, 5));
}

#[test]
fn trimming_pages() {
    let mut rows = vec![1, 2, 3, 4];
    assert!(pop_extra_row(&mut rows, 3));
    assert_eq!(rows, vec![1, 2, 3]);
    let mut rows = vec![1, 2];
    assert!(!pop_extra_row(&mut rows, 3));
    assert_eq!(rows, vec![1, 2]);
    let mut rows = vec![1, 2, 3, 4, 5];
    assert!(take_page(&mut rows, 2));
    assert_eq!(rows, vec![1, 2]);
    let mut rows = vec![1];
    assert!(!take_page(&mut rows, 1));
    assert_eq!(rows, vec![1]);
}

#[test]
fn cursor_clauses_and_parameters() {
    let c = cursor_conditions("b.block_time", "b.id", &options(Some("100_5"), Some("50_2")), 1);
    assert_eq!(
        c.clause,
        " AND (b.block_time < $2 OR (b.block_time = $2 AND b.id < $3)) AND (b.block_time > $4 OR (b.block_time = $4 AND b.id > $5))"
    );
    assert_eq!(c.binds, vec![(100, 5), (50, 2)]);
    assert_eq!(c.last_param, 5);
    let c = cursor_conditions("c.block_time", "c.id", &options(None, Some("7")), 3);
    assert_eq!(c.clause, " AND (c.block_time > $4 OR (c.block_time = $4 AND c.id > $5))");
    assert_eq!(c.binds, vec![(7, i64::MAX)]);
    assert_eq!(c.last_param, 5);
    let c = cursor_conditions("c.block_time", "c.id", &options(Some("bad"), None), 1);
    assert_eq!(c.clause, "");
    assert!(c.binds.is_empty());
    assert_eq!(c.last_param, 1);
}

#[test]
fn order_and_limit_clauses() {
    assert_eq!(order_clause("b.block_time", "b.id", true), " ORDER BY b.block_time DESC, b.id DESC");
    assert_eq!(order_clause("b.block_time", "b.id", false), " ORDER BY b.block_time ASC, b.id ASC");
    assert_eq!(limit_clause(4), " LIMIT $4");
}

#[test]
fn rows_to_records() {
    let placeholder = placeholder_user_record("02abc");
    assert_eq!(placeholder.id, 0);
    assert_eq!(placeholder.transaction_id, "");
    assert_eq!(placeholder.sender_pubkey, "02abc");
    let rec: KBroadcastRecord = broadcast_record_from_row(BroadcastRow {
        id: 3,
        transaction_id: vec![0xde, 0xad],
        block_time: 99,
        sender_pubkey: vec![0x02],
        sender_signature: vec![0xff],
        base64_encoded_nickname: "n".to_string(),
        base64_encoded_profile_image: Some("p".to_string()),
        base64_encoded_message: "m".to_string(),
    });
    assert_eq!(rec.transaction_id, "dead");
    assert_eq!(rec.block_time, 99);
    assert_eq!(rec.sender_pubkey, "02");
    assert_eq!(rec.sender_signature, "ff");
}

#[test]
fn content_types_and_reply_parents() {
    assert_eq!(content_shape("post").unwrap(), ContentShape::Post);
    assert_eq!(content_shape("quote").unwrap(), ContentShape::Post);
    assert_eq!(content_shape("reply").unwrap(), ContentShape::Reply);
    match content_shape("vote") {
        Err(DatabaseError::QueryError(m)) => assert_eq!(m, "Unknown content type: vote"),
        other => panic!("unexpected {:?}", other),
    }
    assert_eq!(reply_parent(Some(vec![0xab])).unwrap(), vec![0xab]);
    match reply_parent(None) {
        Err(DatabaseError::QueryError(m)) => assert_eq!(m, "Missing referenced_content_id for reply"),
        other => panic!("unexpected {:?}", other),
    }
}

fn notification_row(content_type: &str) -> NotificationRow {
    NotificationRow {
        id: 11,
        transaction_id: vec![0x0a],
        block_time: 1234,
        sender_pubkey: vec![0x02, 0x03],
        content_type: content_type.to_string(),
        notification_id: 77,
        base64_encoded_message: "bXNn".to_string(),
        user_nickname: "nick".to_string(),
        user_profile_image: None,
        quoted_content_id: Some("qid".to_string()),
        quoted_content_message: Some("qmsg".to_string()),
        content_id: Some("post1".to_string()),
        vote_type: Some("upvote".to_string()),
        voted_content: Some("voted".to_string()),
    }
}

#[test]
fn notification_rows() {
    let n = notification_from_row(notification_row("post")).unwrap();
    assert_eq!((n.mention_id, n.mention_block_time), (77, 1234));
    match n.content {
        ContentRecord::Post(p) => {
            assert_eq!(p.transaction_id, "0a");
            assert_eq!(p.sender_pubkey, "0203");
            assert_eq!(p.referenced_content_id, None);
            assert_eq!(p.user_nickname.as_deref(), Some("nick"));
        }
        _ => panic!("expected a post"),
    }
    match notification_from_row(notification_row("quote")).unwrap().content {
        ContentRecord::Post(p) => {
            assert_eq!(p.referenced_content_id.as_deref(), Some("qid"));
            assert_eq!(p.referenced_message.as_deref(), Some("qmsg"));
        }
        _ => panic!("expected a quote"),
    }
    match notification_from_row(notification_row("reply")).unwrap().content {
        ContentRecord::Reply(r) => assert_eq!(r.post_id, ""),
        _ => panic!("expected a reply"),
    }
    match notification_from_row(notification_row("vote")).unwrap().content {
        ContentRecord::Vote(v) => {
            assert_eq!(v.post_id, "post1");
            assert_eq!(v.vote, "upvote");
            assert_eq!(v.mention_block_time, Some(1234));
        }
        _ => panic!("expected a vote"),
    }
    assert!(notification_from_row(notification_row("follow")).is_none());
}

#[test]
fn notification_count_cursor() {
    assert!(matches!(notification_count_bound(&None), Ok(None)));
    assert!(matches!(notification_count_bound(&Some("1700_42".to_string())), Ok(Some((1700, 42)))));
    assert!(matches!(notification_count_bound(&Some("1700".to_string())), Ok(Some((1700, i64::MAX)))));
    match notification_count_bound(&Some("12_x".to_string())) {
        Err(DatabaseError::InvalidInput(m)) => assert_eq!(m, "Invalid cursor format"),
        other => panic!("unexpected {:?}", other),
    }
}

#[test]
fn notification_page_keeps_known_rows() {
    let mut second = notification_row("vote");
    second.notification_id = 78;
    second.block_time = 1200;
    let page = notification_page(vec![notification_row("post"), notification_row("like"), second], true);
    assert_eq!(page.items.len(), 2);
    assert_eq!(page.items[0].mention_id, 77);
    assert_eq!(page.items[1].mention_id, 78);
    assert!(page.pagination.has_more);
    assert_eq!(page.pagination.prev_cursor, Some("1234_77".to_string()));
    assert_eq!(page.pagination.next_cursor, Some("1200_78".to_string()));
    let empty = notification_page(vec![notification_row("other")], false);
    assert!(empty.items.is_empty());
    assert_eq!(empty.pagination.next_cursor, None);
}
