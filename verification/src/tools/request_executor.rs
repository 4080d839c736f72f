//! `execute_request`: runs one request of a collection by name.

use vstd::prelude::*;
use crate::models::collection::CollectionItem;
use crate::outside::lowercase_of;
use crate::text::{join_lines, push_str, join_sep, join_texts, texts_view};
use crate::utils::errors::ToolError;
use crate::utils::executor::{SingleRunResult, header_lines, headers_text, pairs_view};
use crate::utils::items::{find_request, find_request_by_name, list_request_names, request_names, law_found_is_matching_request};

verus! {

/// `execute_request`.
#[derive(Debug, PartialEq)]
pub struct ExecuteRequestTool;

#[derive(Debug, PartialEq)]
pub struct ExecuteRequestInput {
    pub collection_id: String,
    pub request_name: String,
    pub environment_id: Option<String>,
    /// Mark the response headers as the full set; `false` when absent.
    pub full_headers: Option<bool>,
    /// The body limit in characters; 4000 when absent, 0 for none.
    pub body_limit: Option<usize>,
}

#[derive(Debug, PartialEq)]
pub struct ExecuteRequestOutput {
    pub request_name: String,
    pub method: String,
    pub url: String,
    pub request_headers_sent: String,
    pub status: u16,
    pub status_text: String,
    pub elapsed_ms: u128,
    pub response_headers: String,
    pub response_body: String,
    pub body_truncated: bool,
    pub body_total_chars: usize,
}

impl ExecuteRequestTool {
    pub fn name() -> (r: &'static str)
        ensures
            r@ == "execute_request"@,
    {
        "execute_request"
    }

    pub fn description() -> (r: &'static str)
        ensures
            r@ == "Execute a specific request from a Postman collection by name. Optionally resolve {{variables}} using a Postman environment. Returns HTTP status, response headers, body, and elapsed time. Use full_headers=true to get all response headers (default: key headers only). Use body_limit=0 to disable body truncation (default limit: 4000 chars)."@,
    {
        "Execute a specific request from a Postman collection by name. Optionally resolve {{variables}} using a Postman environment. Returns HTTP status, response headers, body, and elapsed time. Use full_headers=true to get all response headers (default: key headers only). Use body_limit=0 to disable body truncation (default limit: 4000 chars)."
    }

    /// Finds the request to run by name, ignoring case; when there is none
    /// the error lists the requests there are.
    pub fn locate<'a>(items: &'a Vec<CollectionItem>, request_name: &str) -> (r: Result<&'a CollectionItem, ToolError>)
        ensures
            match r {
                Ok(it) => find_request(items@, lowercase_of(request_name@)) == Some(*it) && it.request is Some,
                Err(e) => find_request(items@, lowercase_of(request_name@)) is None
                    && (e matches ToolError::InvalidParams(m)
                    && m@ == "Request '"@ + request_name@ + "' not found. Available: "@
                        + join_sep(request_names(items@), ", "@)),
            },
    {
        match find_request_by_name(items, request_name) {
            Some(it) => {
                proof {
                    law_found_is_matching_request(items@, lowercase_of(request_name@));
                }
                Ok(it)
            },
            None => {
                let names = list_request_names(items);
                let listed = join_texts(&names, ", ");
                let mut m = String::new();
                push_str(&mut m, "Request '");
                push_str(&mut m, request_name);
                push_str(&mut m, "' not found. Available: ");
                push_str(&mut m, listed.as_str());
                assert(texts_view(names@) == crate::utils::items::names_view(names@));
                Err(ToolError::InvalidParams(m))
            },
        }
    }
}

impl ExecuteRequestInput {
    /// The body limit: 4000 characters unless given.
    pub fn max_body(&self) -> (n: usize)
        ensures
            n == match self.body_limit {
                Some(l) => l,
                None => 4000,
            },
    {
        match self.body_limit {
            Some(l) => l,
            None => 4000,
        }
    }
}

impl ExecuteRequestOutput {
    /// The answer for a finished run: an internal error carrying the run's
    /// error, if it has one; otherwise its fields, with every response
    /// header (`all_headers`, as `name: value` lines) when full headers were
    /// asked for, and the notable ones the run reported otherwise.
    pub fn from_result(r: SingleRunResult, full_headers: Option<bool>, all_headers: &Vec<(String, String)>) -> (out: Result<ExecuteRequestOutput, ToolError>)
        ensures
            match r.error {
                Some(e) => (out matches Err(ToolError::Internal(m)) && m == e),
                None => (out matches Ok(o) && {
                    &&& o.request_name == r.name
                    &&& o.method == r.method
                    &&& o.url == r.url
                    &&& o.request_headers_sent == r.request_headers_sent
                    &&& o.status == r.status
                    &&& o.status_text == r.status_text
                    &&& o.elapsed_ms == r.elapsed_ms
                    &&& o.response_headers@ == if full_headers == Some(true) {
                        join_lines(header_lines(pairs_view(all_headers@)))
                    } else {
                        r.response_headers@
                    }
                    &&& o.response_body == r.response_body
                    &&& o.body_truncated == r.body_truncated
                    &&& o.body_total_chars == r.body_total_chars
                }),
            },
    {
        if let Some(err) = r.error {
            return Err(ToolError::Internal(err));
        }
        let full = match full_headers {
            Some(b) => b,
            None => false,
        };
        let response_headers = if full {
            headers_text(all_headers)
        } else {
            r.response_headers
        };
        Ok(ExecuteRequestOutput {
            request_name: r.name,
            method: r.method,
            url: r.url,
            request_headers_sent: r.request_headers_sent,
            status: r.status,
            status_text: r.status_text,
            elapsed_ms: r.elapsed_ms,
            response_headers,
            response_body: r.response_body,
            body_truncated: r.body_truncated,
            body_total_chars: r.body_total_chars,
        })
    }
}

} // verus!
