//! The requests the server sends to the Postman REST API: for each
//! endpoint, the method, the URL and the JSON body.

pub mod collections;
pub mod environments;
pub mod http;
pub mod requests;
pub mod variables;

use vstd::prelude::*;
use crate::json::{Json, JsonValue};
use crate::text::push_str;

verus! {

/// The HTTP methods the API is called with.
#[derive(Debug, PartialEq)]
pub enum HttpMethod {
    Get,
    Post,
    Put,
    Patch,
    Delete,
}

/// A call of the Postman API.
#[derive(Debug, PartialEq)]
pub struct ApiRequest {
    pub method: HttpMethod,
    pub url: String,
    /// The `x-api-key` header's value.
    pub api_key: String,
    /// The JSON body, if any.
    pub body: Option<JsonValue>,
}

/// The model of an optional body.
pub open spec fn body_json(b: Option<JsonValue>) -> Option<Json> {
    match b {
        Some(v) => Some(v.view_json()),
        None => None,
    }
}

/// The Postman API client's credentials.
#[derive(Debug, PartialEq)]
pub struct PostmanApiClient {
    pub api_key: String,
}

/// `https://api.getpostman.com` followed by `path`.
pub open spec fn api_url(path: Seq<char>) -> Seq<char> {
    "https://api.getpostman.com"@ + path
}

/// The URL of an API path.
pub fn api_url_of(path: &str) -> (u: String)
    ensures
        u@ == api_url(path@),
{
    let mut u = String::new();
    push_str(&mut u, "https://api.getpostman.com");
    push_str(&mut u, path);
    u
}

/// `a` followed by `b`.
pub fn concat2(a: &str, b: &str) -> (s: String)
    ensures
        s@ == a@ + b@,
{
    let mut s = String::new();
    push_str(&mut s, a);
    push_str(&mut s, b);
    s
}

/// `a`, `b` and `c` one after another.
pub fn concat3(a: &str, b: &str, c: &str) -> (s: String)
    ensures
        s@ == a@ + b@ + c@,
{
    let mut s = String::new();
    push_str(&mut s, a);
    push_str(&mut s, b);
    push_str(&mut s, c);
    s
}

impl PostmanApiClient {
    /// A client for the given API key; without one the server cannot start,
    /// and the error says how to provide it.
    pub fn new(api_key: Option<String>) -> (r: Result<PostmanApiClient, String>)
        ensures
            match api_key {
                Some(k) => r matches Ok(c) && c.api_key == k,
                None => r matches Err(e) && e@ == "Variable de entorno POSTMAN_API_KEY no encontrada. Configúrala con tu API key de Postman."@,
            },
    {
        match api_key {
            Some(k) => Ok(PostmanApiClient { api_key: k }),
            None => {
                let mut e = String::new();
                push_str(&mut e, "Variable de entorno POSTMAN_API_KEY no encontrada. Configúrala con tu API key de Postman.");
                Err(e)
            },
        }
    }

    /// A call of `method` on `url`, carrying this client's key.
    pub fn call(&self, method: HttpMethod, url: String, body: Option<JsonValue>) -> (r: ApiRequest)
        ensures
            r.method == method,
            r.url == url,
            r.api_key == self.api_key,
            r.body == body,
    {
        ApiRequest { method, url, api_key: self.api_key.clone(), body }
    }
}

} // verus!
