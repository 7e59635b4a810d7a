//! The encodings the services read and write: hexadecimal, base64, UTF-8,
//! JSON string arrays, Unicode lower case, regular-expression character
//! classes and x-only public keys.  Each outside call stands in one small
//! trusted function below; what its contract claims is said above it.
use vstd::prelude::*;
use crate::text::{all_hex_digits, is_hex_digit};
use base64::Engine;

verus! {

broadcast use vstd::string::group_string_axioms;

// ---------------------------------------------------------------------------
// Hexadecimal
// ---------------------------------------------------------------------------

/// The value of a hexadecimal digit.
pub open spec fn hex_nibble(c: char) -> nat {
    if '0' <= c && c <= '9' {
        (c as nat - 48) as nat
    } else if 'a' <= c && c <= 'f' {
        (c as nat - 87) as nat
    } else {
        (c as nat - 55) as nat
    }
}

/// The bytes a hexadecimal string stands for: an even number of hex digits,
/// upper or lower case, two per byte, high nibble first.
pub open spec fn hex_decode_spec(s: Seq<char>) -> Option<Seq<u8>> {
    if s.len() % 2 == 0 && all_hex_digits(s) {
        Some(Seq::new((s.len() / 2) as nat, |i: int| (hex_nibble(s[2 * i]) * 16 + hex_nibble(s[2 * i + 1])) as u8))
    } else {
        None
    }
}

/// The lower-case hexadecimal digit for `n < 16`.
pub open spec fn hex_char(n: nat) -> char {
    if n < 10 { (48 + n) as char } else { (87 + n) as char }
}

/// The lower-case hexadecimal rendering of `b`, two digits per byte.
pub open spec fn hex_encode_spec(b: Seq<u8>) -> Seq<char> {
    Seq::new(2 * b.len(), |i: int| if i % 2 == 0 { hex_char(b[i / 2] as nat / 16) } else { hex_char(b[i / 2] as nat % 16) })
}

/// The text `hex::decode` gives, through its error's `Display`, for a
/// string it refuses.
pub uninterp spec fn hex_decode_error_text(s: Seq<char>) -> Seq<char>;

/// Calls `hex::decode`.  Claimed, as hex 0.4's source shows: it succeeds
/// exactly on strings of an even number of ASCII hex digits (either case)
/// and gives one byte per digit pair, high nibble first; the text of a
/// refusal is a function of the input alone, named `hex_decode_error_text`.
#[verifier::external_body]
pub(crate) fn hex_decode(s: &str) -> (r: Result<Vec<u8>, String>)
    ensures
        match r {
            Ok(v) => hex_decode_spec(s@) == Some(v@),
            Err(e) => hex_decode_spec(s@) is None && e@ == hex_decode_error_text(s@),
        },
{
    hex::decode(s).map_err(|e| e.to_string())
}

/// Calls `hex::encode`.  Claimed, as hex 0.4's source shows: two
/// lower-case hex digits per byte, high nibble first.
#[verifier::external_body]
pub(crate) fn hex_encode(b: &[u8]) -> (s: String)
    ensures
        s@ == hex_encode_spec(b@),
{
    hex::encode(b)
}

// ---------------------------------------------------------------------------
// Base64
// ---------------------------------------------------------------------------

/// What the standard (padded, RFC 4648 alphabet) base64 engine decodes a
/// text to, or `None` where it refuses it.
pub uninterp spec fn base64_standard_decode(s: Seq<char>) -> Option<Seq<u8>>;

/// Calls `base64::engine::general_purpose::STANDARD.decode`.  Claimed: the
/// outcome is a function of the text alone, named `base64_standard_decode`.
#[verifier::external_body]
pub(crate) fn base64_decode(s: &str) -> (r: Option<Vec<u8>>)
    ensures
        match r {
            Some(v) => base64_standard_decode(s@) == Some(v@),
            None => base64_standard_decode(s@) is None,
        },
{
    base64::engine::general_purpose::STANDARD.decode(s).ok()
}

// ---------------------------------------------------------------------------
// UTF-8 and case
// ---------------------------------------------------------------------------

/// Calls `String::from_utf8`.  Claimed, as std documents it: it succeeds
/// exactly on valid UTF-8 and the string holds the decoded characters.
#[verifier::external_body]
pub(crate) fn utf8_decode(bytes: Vec<u8>) -> (r: Option<String>)
    ensures
        r is Some <==> vstd::utf8::valid_utf8(bytes@),
        r matches Some(s) ==> s@ == vstd::utf8::decode_utf8(bytes@),
{
    String::from_utf8(bytes).ok()
}

/// The Unicode lower-case mapping of a text, as `str::to_lowercase` gives it.
pub uninterp spec fn unicode_lowercase(s: Seq<char>) -> Seq<char>;

/// Calls `str::to_lowercase`.  Claimed: the result is a function of the
/// text alone, named `unicode_lowercase`.
#[verifier::external_body]
pub(crate) fn to_lowercase(s: &str) -> (r: String)
    ensures
        r@ == unicode_lowercase(s@),
{
    s.to_lowercase()
}

// ---------------------------------------------------------------------------
// JSON arrays of strings
// ---------------------------------------------------------------------------

/// The array of strings that a JSON text stands for, or `None` where the
/// text is not a JSON array of strings.
pub uninterp spec fn json_string_array_value(s: Seq<char>) -> Option<Seq<Seq<char>>>;

/// The JSON text that serde_json writes for an array of strings, or `None`
/// where it reports an error.
pub uninterp spec fn json_string_array_text(items: Seq<Seq<char>>) -> Option<Seq<char>>;

/// Calls `serde_json::from_str::<Vec<String>>`.  Claimed: the outcome is a
/// function of the text alone, named `json_string_array_value`.
#[verifier::external_body]
pub(crate) fn parse_json_string_array(s: &str) -> (r: Option<Vec<String>>)
    ensures
        match r {
            Some(v) => json_string_array_value(s@) == Some(v.deep_view()),
            None => json_string_array_value(s@) is None,
        },
{
    serde_json::from_str::<Vec<String>>(s).ok()
}

/// Calls `serde_json::to_string` on a vector of strings.  Claimed: the
/// outcome is a function of the strings alone, named `json_string_array_text`.
#[verifier::external_body]
pub(crate) fn render_json_string_array(items: &Vec<String>) -> (r: Option<String>)
    ensures
        match r {
            Some(t) => json_string_array_text(items.deep_view()) == Some(t@),
            None => json_string_array_text(items.deep_view()) is None,
        },
{
    serde_json::to_string(items).ok()
}

// ---------------------------------------------------------------------------
// Regular expressions
// ---------------------------------------------------------------------------

#[verifier::external_type_specification]
#[verifier::external_body]
pub struct ExRegex(regex::Regex);

/// Whether the regex crate accepts `pattern`.
pub uninterp spec fn regex_accepts(pattern: Seq<char>) -> bool;

/// A regular expression compiled once, with the pattern it came from.
pub struct CompiledPattern {
    pattern: String,
    re: regex::Regex,
}

impl CompiledPattern {
    /// The pattern this expression was compiled from.
    pub closed spec fn source(&self) -> Seq<char> {
        self.pattern@
    }
}

/// Calls `regex::Regex::new`.  Claimed: it succeeds exactly where
/// `regex_accepts` holds of the pattern; the pattern is kept beside the
/// compiled expression.
#[verifier::external_body]
pub(crate) fn compile_pattern(pattern: &str) -> (r: Option<CompiledPattern>)
    ensures
        r is Some <==> regex_accepts(pattern@),
        r matches Some(c) ==> c.source() == pattern@,
{
    match regex::Regex::new(pattern) {
        Ok(re) => Some(CompiledPattern { pattern: pattern.to_string(), re }),
        Err(_) => None,
    }
}

/// One match of a regular expression in a text: the text before it, the
/// matched text, and the text after it.
pub struct RegexMatch {
    pub before: String,
    pub text: String,
    pub after: String,
}

/// A match as plain text.
pub struct MatchView {
    pub before: Seq<char>,
    pub text: Seq<char>,
    pub after: Seq<char>,
}

impl View for RegexMatch {
    type V = MatchView;

    open spec fn view(&self) -> MatchView {
        MatchView { before: self.before@, text: self.text@, after: self.after@ }
    }
}

/// The successive non-overlapping leftmost matches of `pattern` in `text`,
/// as `Regex::find_iter` reports them, each with the text around it.
pub uninterp spec fn regex_find_matches(pattern: Seq<char>, text: Seq<char>) -> Seq<MatchView>;

/// Calls `regex::Regex::find_iter`.  Claimed: the matches, in the order
/// reported, each cut out of the text at the positions the crate gives
/// together with the text before and after it, are a function of the
/// pattern the expression was compiled from and the text, named
/// `regex_find_matches`.
#[verifier::external_body]
pub(crate) fn find_matches(p: &CompiledPattern, text: &str) -> (r: Vec<RegexMatch>)
    ensures
        r@.map_values(|m: RegexMatch| m@) == regex_find_matches(p.source(), text@),
{
    let mut out = Vec::new();
    for m in p.re.find_iter(text) {
        let before = text[..m.start()].to_string();
        let after = text[m.end()..].to_string();
        out.push(RegexMatch { before, text: m.as_str().to_string(), after });
    }
    out
}

// ---------------------------------------------------------------------------
// x-only public keys
// ---------------------------------------------------------------------------

#[verifier::external_type_specification]
#[verifier::external_body]
pub struct ExXOnlyPublicKey(secp256k1::XOnlyPublicKey);

/// Whether 32 bytes are the x coordinate of a point on secp256k1 that the
/// library accepts as an x-only key.
pub uninterp spec fn xonly_key_accepted(bytes: Seq<u8>) -> bool;

/// An x-only public key with the 32 bytes it was made from.
pub struct XOnlyKey {
    bytes: Vec<u8>,
    key: secp256k1::XOnlyPublicKey,
}

impl XOnlyKey {
    /// The bytes this key was made from.
    pub closed spec fn source(&self) -> Seq<u8> {
        self.bytes@
    }

    /// The key itself, for the verification call.
    pub fn key(&self) -> &secp256k1::XOnlyPublicKey {
        &self.key
    }
}

/// Calls `secp256k1::XOnlyPublicKey::from_slice`.  Claimed, as the
/// crate's source shows: only 32-byte inputs can succeed; among them the
/// outcome is a function of the bytes, named `xonly_key_accepted`; the key
/// is made from exactly the bytes given, which are kept beside it.
#[verifier::external_body]
pub(crate) fn xonly_public_key(bytes: &[u8]) -> (r: Option<XOnlyKey>)
    ensures
        r is Some <==> (bytes@.len() == 32 && xonly_key_accepted(bytes@)),
        r matches Some(k) ==> k.source() == bytes@,
{
    match secp256k1::XOnlyPublicKey::from_slice(bytes) {
        Ok(key) => Some(XOnlyKey { bytes: bytes.to_vec(), key }),
        Err(_) => None,
    }
}

} // verus!
