//! Hashtag extraction from base64 message text.
use base64::engine::general_purpose;
use base64::Engine;
use k_indexer::codec::RegexMatch;
use k_indexer::hashtags::{extract_hashtags_from_base64, hashtags_from_matches};

#[test]
fn test_extract_single_hashtag() {
    let message = general_purpose::STANDARD.encode("Hello #world");
    let hashtags = extract_hashtags_from_base64(&message);
    assert_eq!(hashtags, vec!["world"]);
}

#[test]
fn test_extract_multiple_hashtags() {
    let message = general_purpose::STANDARD.encode("Check #rust and #programming");
    let mut hashtags = extract_hashtags_from_base64(&message);
    hashtags.sort();
    assert_eq!(hashtags, vec!["programming", "rust"]);
}

#[test]
fn test_hashtag_case_insensitive() {
    let message = general_purpose::STANDARD.encode("#Rust #RUST #rust");
    let hashtags = extract_hashtags_from_base64(&message);
    assert_eq!(hashtags, vec!["rust"]); // Only one unique
}

#[test]
fn test_hashtag_at_start() {
    let message = general_purpose::STANDARD.encode("#start of message");
    let hashtags = extract_hashtags_from_base64(&message);
    assert_eq!(hashtags, vec!["start"]);
}

#[test]
fn test_hashtag_at_end() {
    let message = general_purpose::STANDARD.encode("end of message #end");
    let hashtags = extract_hashtags_from_base64(&message);
    assert_eq!(hashtags, vec!["end"]);
}

#[test]
fn test_hashtag_with_punctuation() {
    let message = general_purpose::STANDARD.encode("Hello #world! How are you?");
    let hashtags = extract_hashtags_from_base64(&message);
    assert_eq!(hashtags, vec!["world"]);
}

#[test]
fn test_reject_no_space_before() {
    let message = general_purpose::STANDARD.encode("word#tag");
    let hashtags = extract_hashtags_from_base64(&message);
    assert!(hashtags.is_empty());
}

#[test]
fn test_reject_url_with_hash() {
    let message = general_purpose::STANDARD.encode("Visit google.com#section");
    let hashtags = extract_hashtags_from_base64(&message);
    assert!(hashtags.is_empty());
}

#[test]
fn test_reject_too_long() {
    let message =
        general_purpose::STANDARD.encode("#thistagiswaytoolongandshouldbrejected123456");
    let hashtags = extract_hashtags_from_base64(&message);
    assert!(hashtags.is_empty());
}

#[test]
fn test_accept_max_length() {
    let message = general_purpose::STANDARD.encode("#a123456789012345678901234567890"); // 31 chars
    let hashtags = extract_hashtags_from_base64(&message);
    // This should be rejected because it's 31 chars (> 30)
    assert!(hashtags.is_empty());
}

#[test]
fn test_accept_exactly_30_chars() {
    let message = general_purpose::STANDARD.encode("#a12345678901234567890123456789"); // exactly 30 chars
    let hashtags = extract_hashtags_from_base64(&message);
    assert_eq!(hashtags, vec!["a12345678901234567890123456789"]);
}

#[test]
fn test_numeric_hashtags() {
    let message = general_purpose::STANDARD.encode("#2024 and #123");
    let mut hashtags = extract_hashtags_from_base64(&message);
    hashtags.sort();
    assert_eq!(hashtags, vec!["123", "2024"]);
}

#[test]
fn test_empty_message() {
    let message = general_purpose::STANDARD.encode("");
    let hashtags = extract_hashtags_from_base64(&message);
    assert!(hashtags.is_empty());
}

#[test]
fn test_no_hashtags() {
    let message = general_purpose::STANDARD.encode("This message has no hashtags");
    let hashtags = extract_hashtags_from_base64(&message);
    assert!(hashtags.is_empty());
}

#[test]
fn test_just_hash_symbol() {
    let message = general_purpose::STANDARD.encode("Just a # symbol");
    let hashtags = extract_hashtags_from_base64(&message);
    assert!(hashtags.is_empty());
}

#[test]
fn test_mixed_valid_and_invalid_patterns() {
    // Message contains both valid hashtags and invalid patterns
    // Valid: #rust, #programming
    // Invalid: word#tag, #verylongtagthatshouldberejectedbecauseitstoolong
    let message = general_purpose::STANDARD.encode("#rust and word#tag plus #programming and #verylongtagthatshouldberejectedbecauseitstoolong");
    let hashtags = extract_hashtags_from_base64(&message);

    // Should return only the valid hashtags, warnings logged for invalid ones
    assert_eq!(hashtags.len(), 2);
    assert!(hashtags.contains(&"rust".to_string()));
    assert!(hashtags.contains(&"programming".to_string()));
    // Invalid patterns should NOT be in the result
    assert!(!hashtags.contains(&"tag".to_string()));
    assert!(
        !hashtags.contains(&"verylongtagthatshouldberejectedbecauseitstoolong".to_string())
    );
}

#[test]
fn test_all_invalid_patterns() {
    // Message contains only invalid patterns
    let message = general_purpose::STANDARD.encode("word#tag and another#invalid");
    let hashtags = extract_hashtags_from_base64(&message);

    // Should return empty, but warnings logged (not failing)
    assert!(hashtags.is_empty());
}

#[test]
fn test_unicode_hashtags_latin() {
    let message = general_purpose::STANDARD.encode("Bonjour #café et #résumé");
    let mut hashtags = extract_hashtags_from_base64(&message);
    hashtags.sort();
    assert_eq!(hashtags.len(), 2);
    assert!(hashtags.contains(&"café".to_string()));
    assert!(hashtags.contains(&"résumé".to_string()));
}

#[test]
fn test_unicode_hashtags_cyrillic() {
    let message = general_purpose::STANDARD.encode("Привет #москва and #русский");
    let hashtags = extract_hashtags_from_base64(&message);
    assert_eq!(hashtags.len(), 2);
    assert!(hashtags.contains(&"москва".to_string()));
    assert!(hashtags.contains(&"русский".to_string()));
}

#[test]
fn test_unicode_hashtags_japanese() {
    let message = general_purpose::STANDARD.encode("こんにちは #日本語 and #東京");
    let hashtags = extract_hashtags_from_base64(&message);
    assert_eq!(hashtags.len(), 2);
    assert!(hashtags.contains(&"日本語".to_string()));
    assert!(hashtags.contains(&"東京".to_string()));
}

#[test]
fn test_unicode_hashtags_chinese() {
    let message = general_purpose::STANDARD.encode("你好 #中文 and #北京");
    let hashtags = extract_hashtags_from_base64(&message);
    assert_eq!(hashtags.len(), 2);
    assert!(hashtags.contains(&"中文".to_string()));
    assert!(hashtags.contains(&"北京".to_string()));
}

#[test]
fn test_unicode_hashtags_arabic() {
    let message = general_purpose::STANDARD.encode("مرحبا #العربية and #القاهرة");
    let hashtags = extract_hashtags_from_base64(&message);
    assert_eq!(hashtags.len(), 2);
    assert!(hashtags.contains(&"العربية".to_string()));
    assert!(hashtags.contains(&"القاهرة".to_string()));
}

#[test]
fn test_hashtag_with_underscore() {
    let message = general_purpose::STANDARD.encode("Check #rust_lang and #web_dev");
    let hashtags = extract_hashtags_from_base64(&message);
    assert_eq!(hashtags.len(), 2);
    assert!(hashtags.contains(&"rust_lang".to_string()));
    assert!(hashtags.contains(&"web_dev".to_string()));
}

#[test]
fn test_mixed_unicode_hashtags() {
    let message = general_purpose::STANDARD.encode("#rust #café #日本語 #москва");
    let hashtags = extract_hashtags_from_base64(&message);
    assert_eq!(hashtags.len(), 4);
    assert!(hashtags.contains(&"rust".to_string()));
    assert!(hashtags.contains(&"café".to_string()));
    assert!(hashtags.contains(&"日本語".to_string()));
    assert!(hashtags.contains(&"москва".to_string()));
}

fn found(before: &str, text: &str, after: &str) -> RegexMatch {
    RegexMatch { before: before.to_string(), text: text.to_string(), after: after.to_string() }
}

#[test]
fn hashtags_from_given_matches() {
    let matches = vec![
        found("", "#Rust", " and #go! x#no"),
        found("#Rust and ", "#go", "! x#no"),
        found("#Rust and #go! x", "#no", ""),
        found("a ", "#RUST", ""),
    ];
    assert_eq!(hashtags_from_matches(&matches), vec!["rust".to_string(), "go".to_string()]);
    assert!(hashtags_from_matches(&vec![]).is_empty());
}
