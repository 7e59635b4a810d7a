//! Hashtags in a base64-encoded message: the matches of
//! `#[\p{L}\p{N}_]{1,30}` that stand alone between white space (or the
//! start of the text) and white space, punctuation or the end.
use vstd::prelude::*;
use crate::codec::{
    base64_decode, base64_standard_decode, compile_pattern, find_matches, regex_accepts, regex_find_matches,
    to_lowercase, unicode_lowercase, utf8_decode, MatchView, RegexMatch,
};
use crate::text::{chars_of, is_unicode_whitespace, str_equal, string_from_range, whitespace};

verus! {

broadcast use vstd::string::group_string_axioms;

/// The pattern hashtags are found with: `#` and one to thirty Unicode
/// letters, Unicode numbers or underscores.
pub open spec fn hashtag_pattern() -> Seq<char> {
    "#[\\p{L}\\p{N}_]{1,30}"@
}

/// Punctuation that may follow a hashtag.
pub open spec fn is_closing_punctuation(c: char) -> bool {
    c == '.' || c == ',' || c == ';' || c == '!' || c == '?'
}

/// A match is taken as a hashtag when white space or the start of the text
/// precedes it, and white space, closing punctuation or the end follows it.
/// (Every match of the pattern holds at least its `#`.)
pub open spec fn match_accepted(m: MatchView) -> bool {
    &&& m.text.len() > 0
    &&& (m.before.len() == 0 || is_unicode_whitespace(m.before.last()))
    &&& (m.after.len() == 0 || is_unicode_whitespace(m.after[0]) || is_closing_punctuation(m.after[0]))
}

/// The lower-cased bodies, without `#`, of the accepted matches, in order.
pub open spec fn accepted_tags(ms: Seq<MatchView>) -> Seq<Seq<char>>
    decreases ms.len(),
{
    if ms.len() == 0 {
        Seq::empty()
    } else {
        let rest = accepted_tags(ms.drop_last());
        if match_accepted(ms.last()) {
            rest.push(unicode_lowercase(ms.last().text.drop_first()))
        } else {
            rest
        }
    }
}

/// `xs` with every repetition of an earlier element left out.
pub open spec fn dedup(xs: Seq<Seq<char>>) -> Seq<Seq<char>>
    decreases xs.len(),
{
    if xs.len() == 0 {
        Seq::empty()
    } else {
        let rest = dedup(xs.drop_last());
        if rest.contains(xs.last()) {
            rest
        } else {
            rest.push(xs.last())
        }
    }
}

/// The distinct hashtags of a text, lower case and without `#`, in the order
/// they first occur.
pub open spec fn hashtags_of_text(t: Seq<char>) -> Seq<Seq<char>> {
    dedup(accepted_tags(regex_find_matches(hashtag_pattern(), t)))
}

/// The hashtags extracted from a base64-encoded message: those of
/// `hashtags_of_message`, or none should the hashtag pattern fail to compile.
pub open spec fn message_hashtags(m: Seq<char>) -> Seq<Seq<char>> {
    if regex_accepts(hashtag_pattern()) { hashtags_of_message(m) } else { Seq::empty() }
}

/// The hashtags of a base64-encoded UTF-8 message; none where the message
/// does not decode.
pub open spec fn hashtags_of_message(m: Seq<char>) -> Seq<Seq<char>> {
    match base64_standard_decode(m) {
        Some(bytes) => if vstd::utf8::valid_utf8(bytes) {
            hashtags_of_text(vstd::utf8::decode_utf8(bytes))
        } else {
            Seq::empty()
        },
        None => Seq::empty(),
    }
}

pub proof fn lemma_dedup_distinct(xs: Seq<Seq<char>>)
    ensures
        forall|i: int, j: int| 0 <= i < j < dedup(xs).len() ==> dedup(xs)[i] != dedup(xs)[j],
    decreases xs.len(),
{
    if xs.len() > 0 {
        lemma_dedup_distinct(xs.drop_last());
        let rest = dedup(xs.drop_last());
        if !rest.contains(xs.last()) {
            let d = rest.push(xs.last());
            assert forall|i: int, j: int| 0 <= i < j < d.len() implies d[i] != d[j] by {
                if j == d.len() - 1 {
                    assert(d[i] == rest[i]);
                }
            }
        }
    }
}

fn closing_punctuation(c: char) -> (b: bool)
    ensures
        b == is_closing_punctuation(c),
{
    c == '.' || c == ',' || c == ';' || c == '!' || c == '?'
}

/// Whether `v` already holds a string equal to `s`.
fn contains_string(v: &Vec<String>, s: &String) -> (b: bool)
    ensures
        b == v.deep_view().contains(s@),
{
    let mut i: usize = 0;
    while i < v.len()
        invariant
            i <= v.len(),
            forall|j: int| 0 <= j < i ==> v.deep_view()[j] != s@,
        decreases v.len() - i,
    {
        if str_equal(v[i].as_str(), s.as_str()) {
            assert(v.deep_view()[i as int] == s@);
            return true;
        }
        i = i + 1;
    }
    false
}

/// Whether a match stands alone as a hashtag.
fn accepted(m: &RegexMatch) -> (b: bool)
    ensures
        b == match_accepted(m@),
{
    let before = chars_of(m.before.as_str());
    let after = chars_of(m.after.as_str());
    let text = chars_of(m.text.as_str());
    let before_ok = before.len() == 0 || whitespace(before[before.len() - 1]);
    let after_ok = after.len() == 0 || whitespace(after[0]) || closing_punctuation(after[0]);
    text.len() > 0 && before_ok && after_ok
}

/// The distinct hashtags among regular-expression matches: the accepted
/// matches' bodies, lower case and without `#`, in the order they first
/// occur.
pub fn hashtags_from_matches(matches: &Vec<RegexMatch>) -> (tags: Vec<String>)
    ensures
        tags.deep_view() == dedup(accepted_tags(matches@.map_values(|m: RegexMatch| m@))),
{
    let ghost ms = matches@.map_values(|m: RegexMatch| m@);
    let mut out: Vec<String> = Vec::new();
    let mut i: usize = 0;
    while i < matches.len()
        invariant
            i <= matches.len(),
            ms == matches@.map_values(|m: RegexMatch| m@),
            out.deep_view() == dedup(accepted_tags(ms.take(i as int))),
        decreases matches.len() - i,
    {
        let m = &matches[i];
        let ghost prev = accepted_tags(ms.take(i as int));
        assert(ms.take(i + 1).drop_last() == ms.take(i as int));
        assert(ms.take(i + 1).last() == m@);
        assert(ms[i as int] == m@);
        if accepted(m) {
            let body_chars = chars_of(m.text.as_str());
            let body = string_from_range(&body_chars, 1, body_chars.len());
            assert(body@ == m@.text.drop_first());
            let tag = to_lowercase(body.as_str());
            assert(accepted_tags(ms.take(i + 1)) == prev.push(tag@));
            assert(prev.push(tag@).drop_last() == prev);
            if !contains_string(&out, &tag) {
                let ghost od = out.deep_view();
                out.push(tag);
                assert(out.deep_view() == od.push(tag@));
            }
        } else {
            assert(accepted_tags(ms.take(i + 1)) == prev);
        }
        i = i + 1;
    }
    assert(ms.take(matches.len() as int) == ms);
    out
}

/// The distinct hashtags of a text, lower case and without the `#`, in the
/// order they first occur; none when the pattern fails to compile.
pub fn extract_hashtags_from_text(text: &str) -> (tags: Vec<String>)
    ensures
        regex_accepts(hashtag_pattern()) ==> tags.deep_view() == hashtags_of_text(text@),
        !regex_accepts(hashtag_pattern()) ==> tags.len() == 0,
{
    let pattern = match compile_pattern("#[\\p{L}\\p{N}_]{1,30}") {
        Some(c) => c,
        None => return Vec::new(),
    };
    let matches = find_matches(&pattern, text);
    hashtags_from_matches(&matches)
}

/// Extract hashtags from a base64-encoded message: the distinct hashtags,
/// lower case and without `#`; none when the message is not base64 or not
/// UTF-8.
pub fn extract_hashtags_from_base64(base64_message: &str) -> (tags: Vec<String>)
    ensures
        tags.deep_view() == message_hashtags(base64_message@),
{
    let bytes = match base64_decode(base64_message) {
        Some(b) => b,
        None => {
            let none: Vec<String> = Vec::new();
            assert(none.deep_view() == Seq::<Seq<char>>::empty());
            return none;
        },
    };
    let text = match utf8_decode(bytes) {
        Some(t) => t,
        None => {
            let none: Vec<String> = Vec::new();
            assert(none.deep_view() == Seq::<Seq<char>>::empty());
            return none;
        },
    };
    let tags = extract_hashtags_from_text(text.as_str());
    assert(tags.len() == 0 ==> tags.deep_view() == Seq::<Seq<char>>::empty());
    tags
}

/// A match is taken exactly when it is non-empty, white space or the start
/// of the text comes before it, and white space, one of `.` `,` `;` `!` `?`,
/// or the end of the text comes after it.
pub proof fn lemma_match_acceptance(m: MatchView)
    ensures
        match_accepted(m) <==> {
            &&& m.text.len() > 0
            &&& (m.before.len() == 0 || is_unicode_whitespace(m.before[m.before.len() - 1]))
            &&& (m.after.len() == 0 || is_unicode_whitespace(m.after[0]) || m.after[0] == '.' || m.after[0] == ','
                || m.after[0] == ';' || m.after[0] == '!' || m.after[0] == '?')
        },
{
}

/// A match standing after white space (or at the start) and before closing
/// punctuation is one hashtag: its body without `#`, lower-cased.
pub proof fn lemma_hashtag_before_punctuation(m: MatchView)
    requires
        m.text.len() > 0,
        m.before.len() == 0 || is_unicode_whitespace(m.before[m.before.len() - 1]),
        m.after.len() > 0,
        m.after[0] == '.' || m.after[0] == ',' || m.after[0] == ';' || m.after[0] == '!' || m.after[0] == '?',
    ensures
        dedup(accepted_tags(seq![m])) == seq![unicode_lowercase(m.text.drop_first())],
{
    assert(seq![m].drop_last() =~= Seq::<MatchView>::empty());
    assert(seq![m].last() == m);
    assert(m.before.len() > 0 ==> m.before.last() == m.before[m.before.len() - 1]);
    assert(match_accepted(m));
    assert(accepted_tags(Seq::<MatchView>::empty()) == Seq::<Seq<char>>::empty());
    let tags = accepted_tags(seq![m]);
    assert(tags =~= seq![unicode_lowercase(m.text.drop_first())]);
    assert(tags.drop_last() =~= Seq::<Seq<char>>::empty());
    assert(dedup(tags.drop_last()) =~= Seq::<Seq<char>>::empty());
}

/// The tags found never repeat.
pub proof fn lemma_hashtags_distinct(m: Seq<char>)
    ensures
        forall|i: int, j: int| 0 <= i < j < hashtags_of_message(m).len()
            ==> hashtags_of_message(m)[i] != hashtags_of_message(m)[j],
{
    match base64_standard_decode(m) {
        Some(bytes) => if vstd::utf8::valid_utf8(bytes) {
            let t = vstd::utf8::decode_utf8(bytes);
            lemma_dedup_distinct(accepted_tags(regex_find_matches(hashtag_pattern(), t)));
        },
        None => {},
    }
}

} // verus!
