//! Base URLs of the configured services: a base URL is accepted exactly
//! when the `url` crate parses it, and API endpoints are joined onto it.
use vstd::prelude::*;

use url::Url;

use super::error::ArrError;
use crate::jellyfin::error::JellyfinError;
use crate::text::{chars_of, push_char};

verus! {

/// What `url::Url::parse` reports for `text`: `None` when it parses, else
/// the text of its parse error.
pub uninterp spec fn url_parse_error(text: Seq<char>) -> Option<Seq<char>>;

/// `text` parses as an absolute URL.
pub open spec fn url_parses(text: Seq<char>) -> bool {
    url_parse_error(text) is None
}

/// What joining `rel` onto the URL `base` gives with the `url` crate
/// (`Url::parse(base)`, then `Url::join(rel)`): the joined URL's text, or
/// the text of the error of whichever of the two refused.
pub uninterp spec fn url_join_result(base: Seq<char>, rel: Seq<char>) -> Result<Seq<char>, Seq<char>>;

/// `url::Url::parse`, keeping only the error's message. The result is a
/// function of the text alone; which texts parse is not stated here.
#[verifier::external_body]
fn parse_error(text: &str) -> (r: Option<String>)
    ensures
        match r {
            None => url_parse_error(text@) is None,
            Some(m) => url_parse_error(text@) == Some(m@),
        },
{
    match Url::parse(text) {
        Ok(_) => None,
        Err(e) => Some(e.to_string()),
    }
}

/// `url::Url::parse` on `base`, then `Url::join` of `rel` onto it, giving
/// the joined URL as text (`Url::as_str`) or the error's message. The
/// result is a function of the two texts; a base that does not parse
/// gives the parse error.
#[verifier::external_body]
fn join_url(base: &str, rel: &str) -> (r: Result<String, String>)
    ensures
        match r {
            Ok(t) => url_join_result(base@, rel@) == Ok::<Seq<char>, Seq<char>>(t@)
                && url_parse_error(base@) is None,
            Err(m) => url_join_result(base@, rel@) == Err::<Seq<char>, Seq<char>>(m@)
                && (url_parse_error(base@) is None || url_parse_error(base@) == Some(m@)),
        },
{
    match Url::parse(base) {
        Ok(b) => match b.join(rel) {
            Ok(u) => Ok(u.as_str().to_string()),
            Err(e) => Err(e.to_string()),
        },
        Err(e) => Err(e.to_string()),
    }
}

/// Check the base URL of a Radarr or Sonarr instance: an unparsable one is
/// `InvalidUrl` for that instance, carrying the parser's message.
pub fn check_arr_base_url(instance: &str, base_url: &str) -> (r: Result<(), ArrError>)
    ensures
        r is Ok <==> url_parses(base_url@),
        r matches Err(e) ==> e matches ArrError::InvalidUrl { instance: i, message: m }
            && i@ == instance@ && url_parse_error(base_url@) == Some(m@),
{
    match parse_error(base_url) {
        None => Ok(()),
        Some(message) => Err(ArrError::InvalidUrl { instance: instance.to_string(), message }),
    }
}

/// Check the base URL of the Jellyfin server: an unparsable one is
/// `InvalidUrl`, carrying the parser's message.
pub fn check_jellyfin_base_url(base_url: &str) -> (r: Result<(), JellyfinError>)
    ensures
        r is Ok <==> url_parses(base_url@),
        r matches Err(e) ==> e matches JellyfinError::InvalidUrl(m) && url_parse_error(base_url@) == Some(m@),
{
    match parse_error(base_url) {
        None => Ok(()),
        Some(message) => Err(JellyfinError::InvalidUrl(message)),
    }
}

/// `s` without its leading `/` characters.
pub open spec fn without_leading_slashes(s: Seq<char>) -> Seq<char>
    decreases s.len(),
{
    if s.len() > 0 && s[0] == '/' {
        without_leading_slashes(s.skip(1))
    } else {
        s
    }
}

proof fn lemma_without_leading_slashes(s: Seq<char>, i: int)
    requires
        0 <= i <= s.len(),
        forall|j: int| 0 <= j < i ==> s[j] == '/',
    ensures
        without_leading_slashes(s) == without_leading_slashes(s.skip(i)),
    decreases i,
{
    if i > 0 {
        lemma_without_leading_slashes(s, i - 1);
        assert(s.skip(i - 1).skip(1) =~= s.skip(i));
        assert(s.skip(i - 1)[0] == s[i - 1]);
    } else {
        assert(s.skip(0) =~= s);
    }
}

/// An endpoint path made relative to the base URL: its leading `/`
/// characters dropped, so that joining keeps the base URL's own path.
pub fn relative_endpoint(endpoint: &str) -> (r: String)
    ensures
        r@ == without_leading_slashes(endpoint@),
{
    let cs = chars_of(endpoint);
    let mut i: usize = 0;
    while i < cs.len() && cs[i] == '/'
        invariant
            cs@ == endpoint@,
            i <= cs@.len(),
            forall|j: int| 0 <= j < i ==> cs@[j] == '/',
        decreases cs@.len() - i,
    {
        i = i + 1;
    }
    proof {
        lemma_without_leading_slashes(cs@, i as int);
    }
    let mut out = String::new();
    let mut k: usize = i;
    while k < cs.len()
        invariant
            cs@ == endpoint@,
            i <= k <= cs@.len(),
            out@ == cs@.subrange(i as int, k as int),
        decreases cs@.len() - k,
    {
        push_char(&mut out, cs[k]);
        assert(cs@.subrange(i as int, k + 1) =~= cs@.subrange(i as int, k as int).push(cs@[k as int]));
        k = k + 1;
    }
    assert(cs@.subrange(i as int, cs@.len() as int) =~= cs@.skip(i as int));
    assert(cs@.skip(i as int).len() == 0 || cs@.skip(i as int)[0] != '/');
    out
}

/// The full URL of an API endpoint: the endpoint, made relative, joined
/// onto the instance's base URL; what the `url` crate refuses is
/// `InvalidUrl` for that instance, carrying its message.
pub fn endpoint_url(instance: &str, base_url: &str, endpoint: &str) -> (r: Result<String, ArrError>)
    ensures
        match url_join_result(base_url@, without_leading_slashes(endpoint@)) {
            Ok(t) => r matches Ok(u) && u@ == t,
            Err(m) => r matches Err(e) && e matches ArrError::InvalidUrl { instance: i, message }
                && i@ == instance@ && message@ == m,
        },
{
    let rel = relative_endpoint(endpoint);
    match join_url(base_url, rel.as_str()) {
        Ok(u) => Ok(u),
        Err(message) => Err(ArrError::InvalidUrl { instance: instance.to_string(), message }),
    }
}

/// The path of Jellyfin's library refresh, relative to the server's base URL.
pub open spec fn library_refresh_path() -> Seq<char> {
    "Library/Refresh"@
}

/// The URL of Jellyfin's library refresh: `Library/Refresh` joined onto
/// the server's base URL; what the `url` crate refuses is `InvalidUrl`,
/// carrying its message.
pub fn jellyfin_refresh_url(base_url: &str) -> (r: Result<String, JellyfinError>)
    ensures
        match url_join_result(base_url@, library_refresh_path()) {
            Ok(t) => r matches Ok(u) && u@ == t,
            Err(m) => r matches Err(e) && e matches JellyfinError::InvalidUrl(msg) && msg@ == m,
        },
{
    match join_url(base_url, "Library/Refresh") {
        Ok(u) => Ok(u),
        Err(message) => Err(JellyfinError::InvalidUrl(message)),
    }
}

} // verus!
