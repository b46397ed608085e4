//! URL utilities.

use vstd::prelude::*;

verus! {

/// The path of a URL as url::Url::parse reads it, or `None` when it refuses
/// the text.
pub uninterp spec fn url_path_of(url: Seq<char>) -> Option<Seq<char>>;

/// Relies on url::Url::parse and url::Url::path: the path depends on the text
/// alone.
#[verifier::external_body]
fn parse_url_path(url: &str) -> (r: Option<String>)
    ensures
        url_path_of(url@) == (match r {
            Some(p) => Some(p@),
            None => None::<Seq<char>>,
        }),
{
    match url::Url::parse(url) {
        Ok(parsed) => Some(parsed.path().to_string()),
        Err(_) => None,
    }
}

/// Get the path from a URL.
pub fn get_url_path(url: &str) -> (r: Option<String>)
    ensures
        url_path_of(url@) == (match r {
            Some(p) => Some(p@),
            None => None::<Seq<char>>,
        }),
{
    parse_url_path(url)
}

} // verus!
