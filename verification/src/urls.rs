//! URL construction through the `url` crate, and the outside encoders of request bodies.
//!
//! Percent-encoding of path segments and form-encoding of query pairs are the `url`
//! crate's work; the results are named here and the library states its own URLs
//! over those names. The JSON string literal that `serde_json` writes is stated in full.
use vstd::prelude::*;

verus! {

/// What `url::Url::parse(base)` followed by `PathSegmentsMut::extend(segments)` gives:
/// the serialization and the path of the resulting URL, or `None` when `base` does not
/// parse or cannot be a base.
pub uninterp spec fn url_with_path_segments(base: Seq<char>, segments: Seq<Seq<char>>) -> Option<(Seq<char>, Seq<char>)>;

/// What `url::Url::parse(url)` followed by appending `pairs` to its query through
/// `query_pairs_mut().extend_pairs(..)` gives: the serialization of the resulting URL,
/// or `None` when `url` does not parse.
pub uninterp spec fn url_with_query_pairs(url: Seq<char>, pairs: Seq<(Seq<char>, Seq<char>)>) -> Option<Seq<char>>;

/// Calls `url::Url::parse` on `base`, then `PathSegmentsMut::extend` with `segments`
/// (which percent-encodes each segment), and hands back the serialization and the path.
/// The contract claims only that the result is `url_with_path_segments` of the
/// arguments: a function of them alone.
#[verifier::external_body]
pub(crate) fn append_path_segments(base: &str, segments: &Vec<String>) -> (r: Option<(String, String)>)
    ensures
        url_with_path_segments(base@, segments.deep_view()) == (match r {
            Some(p) => Some((p.0@, p.1@)),
            None => None,
        }),
{
    let mut url = url::Url::parse(base).ok()?;
    url.path_segments_mut().ok()?.extend(segments.iter());
    let path = url.path().to_owned();
    Some((url.into(), path))
}

/// Calls `url::Url::parse` on `url`, then appends `pairs` to its query with
/// `form_urlencoded::Serializer::extend_pairs` (reached through `Url::query_pairs_mut`),
/// and hands back the serialization. The contract claims only that the result is
/// `url_with_query_pairs` of the arguments: a function of them alone.
#[verifier::external_body]
pub(crate) fn append_query_pairs(url: &str, pairs: &Vec<(String, String)>) -> (r: Option<String>)
    ensures
        url_with_query_pairs(url@, pairs.deep_view()) == (match r {
            Some(s) => Some(s@),
            None => None,
        }),
{
    let mut url = url::Url::parse(url).ok()?;
    url.query_pairs_mut().extend_pairs(pairs.iter());
    Some(url.into())
}

/// What `serde_urlencoded::to_string` gives for a list of string pairs: the
/// `application/x-www-form-urlencoded` text, or `None` when it reports an error.
pub uninterp spec fn form_urlencoded(pairs: Seq<(Seq<char>, Seq<char>)>) -> Option<Seq<char>>;

/// Calls `serde_urlencoded::to_string` on a list of string pairs. The contract claims
/// only that the result is `form_urlencoded` of the pairs: a function of them alone.
#[verifier::external_body]
pub(crate) fn encode_form(pairs: &Vec<(String, String)>) -> (r: Option<String>)
    ensures
        form_urlencoded(pairs.deep_view()) == (match r {
            Some(s) => Some(s@),
            None => None,
        }),
{
    serde_urlencoded::to_string(pairs).ok()
}

/// A hexadecimal digit, in lower case.
pub open spec fn hex_digit(n: u32) -> char {
    if n < 10 {
        (n + 48) as char
    } else {
        (n + 87) as char
    }
}

/// How `serde_json` writes one character inside a string literal: `"` and `\` escaped
/// by a backslash; the control characters below U+0020 as `\b`, `\t`, `\n`, `\f`, `\r`
/// or, for the others, `\u00` and two lower-case hexadecimal digits; any other character
/// as it is.
pub open spec fn json_escape(c: char) -> Seq<char> {
    if c == '"' {
        seq!['\\', '"']
    } else if c == '\\' {
        seq!['\\', '\\']
    } else if c == '\u{8}' {
        seq!['\\', 'b']
    } else if c == '\t' {
        seq!['\\', 't']
    } else if c == '\n' {
        seq!['\\', 'n']
    } else if c == '\u{c}' {
        seq!['\\', 'f']
    } else if c == '\r' {
        seq!['\\', 'r']
    } else if (c as u32) < 32 {
        seq!['\\', 'u', '0', '0', hex_digit((c as u32) / 16), hex_digit((c as u32) % 16)]
    } else {
        seq![c]
    }
}

/// The characters of a text, each as `serde_json` writes it inside a string literal.
pub open spec fn json_escaped(s: Seq<char>) -> Seq<char>
    decreases s.len(),
{
    if s.len() == 0 {
        Seq::empty()
    } else {
        json_escaped(s.drop_last()) + json_escape(s.last())
    }
}

/// A character that a JSON string literal holds as it is: neither a double quote, nor a
/// backslash, nor a control character below U+0020.
pub open spec fn json_plain(c: char) -> bool {
    c != '"' && c != '\\' && (c as u32) >= 32
}

/// Plain characters are written as they are, and every other character as an escape of
/// at least two characters that starts with a backslash; so a text of plain characters
/// is written unchanged.
pub proof fn lemma_json_escaped_plain(s: Seq<char>)
    ensures
        (forall|i: int| 0 <= i < s.len() ==> json_plain(#[trigger] s[i])) ==> json_escaped(s) == s,
        forall|c: char| #[trigger] json_plain(c) ==> json_escape(c) == seq![c],
        forall|c: char| !#[trigger] json_plain(c) ==> json_escape(c).len() >= 2 && json_escape(c)[0] == '\\',
    decreases s.len(),
{
    if s.len() > 0 {
        lemma_json_escaped_plain(s.drop_last());
        if forall|i: int| 0 <= i < s.len() ==> json_plain(#[trigger] s[i]) {
            assert(json_plain(s[s.len() - 1]));
            assert(forall|i: int| 0 <= i < s.drop_last().len() ==> json_plain(#[trigger] s.drop_last()[i])) by {
                assert forall|i: int| 0 <= i < s.drop_last().len() implies json_plain(#[trigger] s.drop_last()[i]) by {
                    assert(s.drop_last()[i] == s[i]);
                }
            }
            assert(s.drop_last().push(s.last()) =~= s);
        }
    } else {
        assert(json_escaped(s) =~= s);
    }
}

/// What `serde_json::to_string` gives for a string: the JSON string literal, the escaped
/// text between double quotes. Serializing a string into memory does not fail.
pub open spec fn json_string(s: Seq<char>) -> Option<Seq<char>> {
    Some(seq!['"'] + json_escaped(s) + seq!['"'])
}

/// Calls `serde_json::to_string` on a string. The contract claims that the result is the
/// JSON string literal of the text, as `json_string` states it: `Serializer::serialize_str`
/// writes the quotes and each byte escaped by the `ESCAPE` table of `serde_json`, into a
/// `Vec<u8>`, which never fails.
#[verifier::external_body]
pub(crate) fn json_string_literal(s: &str) -> (r: Option<String>)
    ensures
        json_string(s@) == (match r {
            Some(t) => Some(t@),
            None => None,
        }),
{
    serde_json::to_string(s).ok()
}

} // verus!
