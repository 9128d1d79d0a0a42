//! The translation service's HTTP API, as plain values: the endpoints, the
//! query parameters that each request carries and the bodies that come back.
use vstd::prelude::*;
use vstd::string::StringExecFns;

verus! {

/// Query of a translation.
#[derive(Clone, Copy, Debug, PartialEq, Eq)]
pub struct TranslateQuery<'a> {
    pub text: &'a str,
    pub source: &'a str,
    pub target: &'a str,
}

/// Body of the answer to a translation.
#[derive(Clone, Debug, PartialEq, Eq)]
pub struct TranslateResponse {
    pub result: String,
}

/// Query of a token count.
#[derive(Clone, Copy, Debug, PartialEq, Eq)]
pub struct TokenQuery<'a> {
    pub text: &'a str,
}

/// Body of the answer to a token count.
#[derive(Clone, Copy, Debug, PartialEq, Eq)]
pub struct TokenResponse {
    pub length: u32,
}

/// Query that loads the translation model.
#[derive(Clone, Copy, Debug, PartialEq, Eq)]
pub struct LoadQuery {
    pub keep_cache: bool,
}

/// Query that unloads the translation model.
#[derive(Clone, Copy, Debug, PartialEq, Eq)]
pub struct UnloadQuery {
    pub to_cpu: bool,
}

/// The service's endpoints.
#[derive(Clone, Copy, Debug, PartialEq, Eq)]
pub enum Endpoint {
    /// Loading, unloading and running the translation model.
    Translator,
    /// Language identification.
    Language,
    /// Token counting.
    Tokens,
}

/// The path of an endpoint below the service's root.
pub open spec fn endpoint_path(endpoint: Endpoint) -> Seq<char> {
    match endpoint {
        Endpoint::Translator => "/v4/translator"@,
        Endpoint::Language => "/v4/language"@,
        Endpoint::Tokens => "/v4/translator/tokens"@,
    }
}

/// The path of `endpoint`.
pub fn endpoint_path_str(endpoint: Endpoint) -> (r: &'static str)
    ensures
        r@ == endpoint_path(endpoint),
{
    match endpoint {
        Endpoint::Translator => "/v4/translator",
        Endpoint::Language => "/v4/language",
        Endpoint::Tokens => "/v4/translator/tokens",
    }
}

/// The URL of `endpoint` on the service whose root is `root`.
pub fn endpoint_url(root: &str, endpoint: Endpoint) -> (r: String)
    ensures
        r@ == root@ + endpoint_path(endpoint),
{
    let mut url = root.to_owned();
    url.append(endpoint_path_str(endpoint));
    url
}

/// The root of the API on the host at `base_url`, as the asynchronous
/// client addresses it.
pub fn api_root(base_url: &str) -> (r: String)
    ensures
        r@ == base_url@ + "/api"@,
{
    let mut root = base_url.to_owned();
    root.append("/api");
    root
}

/// A client setting, such as a proxy: the value given by the caller, else
/// the one of the upper-case environment variable, else the one of the
/// lower-case variable.
pub fn resolve_setting(given: Option<String>, upper: Option<String>, lower: Option<String>) -> (r: Option<String>)
    ensures
        r == (if given is Some {
            given
        } else if upper is Some {
            upper
        } else {
            lower
        }),
{
    match given {
        Some(value) => Some(value),
        None => match upper {
            Some(value) => Some(value),
            None => lower,
        },
    }
}

} // verus!
