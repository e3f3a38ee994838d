use vstd::prelude::*;

verus! {

/// The path component of a URL as the url crate parses it; `None` where it does not parse.
pub uninterp spec fn url_path_of(s: Seq<char>) -> Option<Seq<char>>;

pub open spec fn opt_text(o: Option<String>) -> Option<Seq<char>> {
    match o {
        Some(t) => Some(t@),
        None => None,
    }
}

/// The cache key for a parsed path: the path itself, or empty where the URL did not parse.
pub open spec fn cache_key_of_path(p: Option<Seq<char>>) -> Seq<char> {
    match p {
        Some(t) => t,
        None => Seq::empty(),
    }
}

/// The cache key of a URL: its path without query or fragment.
pub open spec fn cache_key_of_url(u: Seq<char>) -> Seq<char> {
    cache_key_of_path(url_path_of(u))
}

/// Relies on url::Url::parse and url::Url::path: the path of the parsed URL,
/// which depends on the text alone.
#[verifier::external_body]
fn parsed_url_path(s: &str) -> (r: Option<String>)
    ensures
        opt_text(r) == url_path_of(s@),
{
    match url::Url::parse(s) {
        Ok(u) => Some(u.path().to_string()),
        Err(_) => None,
    }
}

/// The cache key from the outcome of parsing a URL.
pub fn cache_key_from_path(parsed: Option<String>) -> (r: String)
    ensures
        r@ == cache_key_of_path(opt_text(parsed)),
{
    match parsed {
        Some(p) => p,
        None => String::new(),
    }
}

/// The cache key of a URL.
pub fn url_to_cache_key(url: &str) -> (r: String)
    ensures
        r@ == cache_key_of_url(url@),
{
    let parsed = parsed_url_path(url);
    cache_key_from_path(parsed)
}

} // verus!
