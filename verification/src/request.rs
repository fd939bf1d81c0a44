//! Requests to the hub, put together by the HTTP client.
//!
//! The client, its requests and its errors are opaque here. What this module
//! states of the client is not proved: it is what the client's source shows.

use vstd::prelude::*;

verus! {

/// The HTTP client, `reqwest::Client`.
#[verifier::external_type_specification]
#[verifier::external_body]
pub struct ExClient(reqwest::Client);

/// A request that the client has put together, `reqwest::Request`.
#[verifier::external_type_specification]
#[verifier::external_body]
pub struct ExRequest(reqwest::Request);

/// The client's error, `reqwest::Error`.
#[verifier::external_type_specification]
#[verifier::external_body]
pub struct ExRequestFailure(reqwest::Error);

/// Whether the client can put together a `GET` request to the address `url`
/// that carries `token` as its bearer token. The client decides this from
/// the two texts alone: the address has to parse as a URL with a host, and
/// the token has to be fit for a header.
pub uninterp spec fn get_request_builds(url: Seq<char>, token: Seq<char>) -> bool;

/// Whether the client can put together a `POST` request to the address `url`
/// that carries `token` as its bearer token and, as its body, the JSON object
/// with the one member `key` of the text `value`.
pub uninterp spec fn post_request_builds(
    url: Seq<char>,
    token: Seq<char>,
    key: Seq<char>,
    value: Seq<char>,
) -> bool;

/// Calls `reqwest::Client::get`, then `RequestBuilder::bearer_auth` and
/// `RequestBuilder::build`. The contract claims that whether a request comes
/// back depends on the address and the token alone, not on the client.
#[verifier::external_body]
pub(crate) fn build_get(client: &reqwest::Client, url: &str, token: &str) -> (res: Result<
    reqwest::Request,
    reqwest::Error,
>)
    ensures
        res.is_ok() == get_request_builds(url@, token@),
{
    client.get(url).bearer_auth(token).build()
}

/// Calls `reqwest::Client::post`, then `RequestBuilder::bearer_auth`,
/// `RequestBuilder::json` on a JSON object with the one member `key` of the
/// text `value`, and `RequestBuilder::build`. The contract claims that whether
/// a request comes back depends on the four texts alone, not on the client.
#[verifier::external_body]
pub(crate) fn build_post(
    client: &reqwest::Client,
    url: &str,
    token: &str,
    key: &str,
    value: &str,
) -> (res: Result<reqwest::Request, reqwest::Error>)
    ensures
        res.is_ok() == post_request_builds(url@, token@, key@, value@),
{
    let mut body = serde_json::Map::new();
    body.insert(key.to_string(), serde_json::Value::String(value.to_string()));
    client.post(url).bearer_auth(token).json(&body).build()
}

} // verus!
