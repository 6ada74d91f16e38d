//! The outside types that the library's values carry, and the calls into
//! outside crates that its logic makes. Everything here is taken on trust.
use vstd::prelude::*;

verus! {

/// reqwest's error: a failure of the HTTP transport, carried through as is.
#[verifier::external_type_specification]
#[verifier::external_body]
pub struct ExTransportError(reqwest::Error);

/// tokio's error for a task that panicked or was cancelled, carried through as is.
#[verifier::external_type_specification]
#[verifier::external_body]
pub struct ExJoinError(tokio::task::JoinError);

/// axoasset's error for a local file that could not be read, carried through as is.
#[verifier::external_type_specification]
#[verifier::external_body]
pub struct ExAssetError(axoasset::AxoassetError);

/// reqwest's HTTP client, carried in the client so that every operation
/// shares one connection pool.
#[verifier::external_type_specification]
#[verifier::external_body]
pub struct ExHttpClient(reqwest::Client);

/// A character that an HTTP header value may hold: a visible ASCII character,
/// a space, a tab, or any non-ASCII character (all of whose UTF-8 bytes are
/// at least 128).
pub open spec fn header_char_ok(c: char) -> bool {
    (c as u32 >= 32 && c as u32 != 127) || c == '\t'
}

/// Every character of `s` may stand in an HTTP header value.
pub open spec fn header_value_ok(s: Seq<char>) -> bool {
    forall|i: int| 0 <= i < s.len() ==> header_char_ok(#[trigger] s[i])
}

/// Relies on `reqwest::header::HeaderValue::from_str` (http 1.x): it accepts a
/// string exactly when every byte is at least 32 and not 127, or is a tab.
#[verifier::external_body]
pub(crate) fn header_value_valid(s: &str) -> (r: bool)
    ensures
        r == header_value_ok(s@),
{
    reqwest::header::HeaderValue::from_str(s).is_ok()
}

/// What the URL parser makes of a text: its serialization, or `None` where the
/// text is no URL.
pub uninterp spec fn parsed_url(s: Seq<char>) -> Option<Seq<char>>;

/// Relies on `reqwest::Url::parse` (the url crate): whether the text parses, and
/// the serialization of the parsed URL, which depend on the text alone.
#[verifier::external_body]
pub(crate) fn parse_url(s: &str) -> (r: Option<String>)
    ensures
        match r {
            Some(u) => parsed_url(s@) == Some(u@),
            None => parsed_url(s@) is None,
        },
{
    match reqwest::Url::parse(s) {
        Ok(u) => Some(u.into()),
        Err(_) => None,
    }
}

/// The last component of a path, `None` where the path ends in `..` or has
/// no component.
pub uninterp spec fn path_file_name(p: Seq<char>) -> Option<Seq<char>>;

/// Relies on `camino::Utf8Path::file_name`: the final component of the path
/// (`None` for a path that ends in `..` or is a root), a function of the
/// path's text alone under the path rules of the target the crate is built for.
#[verifier::external_body]
pub(crate) fn file_name_of(p: &str) -> (r: Option<String>)
    ensures
        match r {
            Some(f) => path_file_name(p@) == Some(f@),
            None => path_file_name(p@) is None,
        },
{
    camino::Utf8Path::new(p).file_name().map(|f| f.to_owned())
}

/// Relies on reqwest's `ClientBuilder::build`, with a request timeout of
/// `timeout_secs` seconds. Whether it succeeds depends on the machine (TLS
/// setup), so nothing is promised of the outcome.
#[verifier::external_body]
pub(crate) fn build_http_client(timeout_secs: u64) -> (r: Result<reqwest::Client, reqwest::Error>)
{
    reqwest::Client::builder().timeout(std::time::Duration::from_secs(timeout_secs)).build()
}

} // verus!
