use vstd::prelude::*;

verus! {

/// A character of the URL-safe base64 alphabet (`A-Z a-z 0-9 - _`).
pub open spec fn is_url_safe_char(c: char) -> bool {
    ('A' <= c && c <= 'Z') || ('a' <= c && c <= 'z') || ('0' <= c && c <= '9') || c == '-' || c
        == '_'
}

/// Every character of `s` is URL-safe.
pub open spec fn is_url_safe(s: Seq<char>) -> bool {
    forall|i: int| 0 <= i < s.len() ==> is_url_safe_char(#[trigger] s[i])
}

/// What `application/x-www-form-urlencoded` serialisation makes of `s`.
pub uninterp spec fn form_encoded(s: Seq<char>) -> Seq<char>;

/// The name/value pairs that `application/x-www-form-urlencoded` parsing
/// finds in `q`, percent-decoded, in their order of appearance.
pub uninterp spec fn form_pairs(q: Seq<char>) -> Seq<(Seq<char>, Seq<char>)>;

/// The view of a list of decoded pairs.
pub open spec fn pairs_view(v: Seq<(String, String)>) -> Seq<(Seq<char>, Seq<char>)> {
    v.map_values(|p: (String, String)| (p.0@, p.1@))
}

/// The query of `url` as an absolute URL: none where it does not parse as
/// one or has no query.
pub uninterp spec fn url_query(url: Seq<char>) -> Option<Seq<char>>;

/// Relies on `url::Url::parse` and `url::Url::query`: the query component
/// of a parsed URL, as a function of the text alone.
#[verifier::external_body]
pub(crate) fn query_of_url(url: &str) -> (r: Option<String>)
    ensures
        r matches Some(q) ==> url_query(url@) == Some(q@),
        r is None ==> url_query(url@) is None,
{
    url::Url::parse(url).ok().and_then(|u| u.query().map(|q| q.to_string()))
}

/// Relies on `url::form_urlencoded::byte_serialize`: the encoding depends on
/// the text alone, and ASCII letters, digits, `-` and `_` pass unchanged.
#[verifier::external_body]
pub(crate) fn form_encode(s: &str) -> (r: String)
    ensures
        r@ == form_encoded(s@),
        is_url_safe(s@) ==> r@ == s@,
{
    url::form_urlencoded::byte_serialize(s.as_bytes()).collect::<String>()
}

/// Relies on `url::form_urlencoded::parse`: the pairs of a query string,
/// percent-decoded, as a function of the query alone.
#[verifier::external_body]
pub(crate) fn decode_query(q: &str) -> (r: Vec<(String, String)>)
    ensures
        pairs_view(r@) == form_pairs(q@),
{
    url::form_urlencoded::parse(q.as_bytes()).into_owned().collect()
}

} // verus!
