//! Request tools: create, update and delete a request of a collection.

use vstd::prelude::*;
use crate::json::JsonValue;
use crate::tools::common::{HeaderEntry, build_request_payload, request_payload};

verus! {

/// `create_request`.
#[derive(Debug, PartialEq)]
pub struct CreateRequestTool;

#[derive(Debug, PartialEq)]
pub struct CreateRequestInput {
    pub collection_id: String,
    pub name: String,
    /// `GET`, `POST`, `PUT`, `PATCH`, `DELETE`, `HEAD` or `OPTIONS`.
    pub method: String,
    pub url: String,
    pub headers: Option<Vec<HeaderEntry>>,
    /// `raw`, `urlencoded` or `formdata`; no body when absent.
    pub body_mode: Option<String>,
    pub body_raw: Option<String>,
    /// `json`, `xml` or `text` (the default).
    pub body_language: Option<String>,
    /// The folder to place the request in.
    pub folder_id: Option<String>,
    pub description: Option<String>,
}

/// `update_request`.
#[derive(Debug, PartialEq)]
pub struct UpdateRequestTool;

#[derive(Debug, PartialEq)]
pub struct UpdateRequestInput {
    pub collection_id: String,
    pub request_id: String,
    pub name: String,
    pub method: String,
    pub url: String,
    pub headers: Option<Vec<HeaderEntry>>,
    pub body_mode: Option<String>,
    pub body_raw: Option<String>,
    pub body_language: Option<String>,
    pub description: Option<String>,
}

/// `delete_request`.
#[derive(Debug, PartialEq)]
pub struct DeleteRequestTool;

#[derive(Debug, PartialEq)]
pub struct DeleteRequestInput {
    pub collection_id: String,
    pub request_id: String,
}

/// The model of an optional owned text.
pub open spec fn opt_string(o: Option<String>) -> Option<Seq<char>> {
    match o {
        Some(s) => Some(s@),
        None => None,
    }
}

/// The model of optional headers.
pub open spec fn opt_headers(o: Option<Vec<HeaderEntry>>) -> Seq<HeaderEntry> {
    match o {
        Some(h) => h@,
        None => Seq::empty(),
    }
}

fn as_str_opt(o: &Option<String>) -> (r: Option<&str>)
    ensures
        crate::tools::common::opt_str(r) == opt_string(*o),
{
    match o {
        Some(s) => Some(s.as_str()),
        None => None,
    }
}

fn headers_opt(o: &Option<Vec<HeaderEntry>>) -> (r: Option<&[HeaderEntry]>)
    ensures
        match r {
            Some(h) => h@ == opt_headers(*o),
            None => opt_headers(*o) == Seq::<HeaderEntry>::empty(),
        },
{
    match o {
        Some(h) => Some(h.as_slice()),
        None => None,
    }
}

impl CreateRequestTool {
    pub fn name() -> (r: &'static str)
        ensures
            r@ == "create_request"@,
    {
        "create_request"
    }

    pub fn description() -> (r: &'static str)
        ensures
            r@ == "Add a new request to an existing Postman collection. Supports headers, raw/urlencoded/formdata body, and folder placement."@,
    {
        "Add a new request to an existing Postman collection. Supports headers, raw/urlencoded/formdata body, and folder placement."
    }
}

impl CreateRequestInput {
    /// The request definition to send (see `build_request_payload`).
    pub fn payload(&self) -> (p: JsonValue)
        ensures
            p.view_json() == request_payload(
                self.name@,
                self.method@,
                self.url@,
                opt_headers(self.headers),
                opt_string(self.body_mode),
                opt_string(self.body_raw),
                opt_string(self.body_language),
                opt_string(self.description),
            ),
    {
        let h = headers_opt(&self.headers);
        build_request_payload(
            self.name.as_str(),
            self.method.as_str(),
            self.url.as_str(),
            h,
            as_str_opt(&self.body_mode),
            as_str_opt(&self.body_raw),
            as_str_opt(&self.body_language),
            as_str_opt(&self.description),
        )
    }
}

impl UpdateRequestTool {
    pub fn name() -> (r: &'static str)
        ensures
            r@ == "update_request"@,
    {
        "update_request"
    }

    pub fn description() -> (r: &'static str)
        ensures
            r@ == "Update an existing request inside a Postman collection. Replaces name, method, URL, headers, and body. Use get_collection first to retrieve the request UID."@,
    {
        "Update an existing request inside a Postman collection. Replaces name, method, URL, headers, and body. Use get_collection first to retrieve the request UID."
    }
}

impl UpdateRequestInput {
    /// The request definition to send (see `build_request_payload`).
    pub fn payload(&self) -> (p: JsonValue)
        ensures
            p.view_json() == request_payload(
                self.name@,
                self.method@,
                self.url@,
                opt_headers(self.headers),
                opt_string(self.body_mode),
                opt_string(self.body_raw),
                opt_string(self.body_language),
                opt_string(self.description),
            ),
    {
        let h = headers_opt(&self.headers);
        build_request_payload(
            self.name.as_str(),
            self.method.as_str(),
            self.url.as_str(),
            h,
            as_str_opt(&self.body_mode),
            as_str_opt(&self.body_raw),
            as_str_opt(&self.body_language),
            as_str_opt(&self.description),
        )
    }
}

impl DeleteRequestTool {
    pub fn name() -> (r: &'static str)
        ensures
            r@ == "delete_request"@,
    {
        "delete_request"
    }

    pub fn description() -> (r: &'static str)
        ensures
            r@ == "Permanently delete a request from a Postman collection by its UID. Use get_collection first to retrieve the request UID."@,
    {
        "Permanently delete a request from a Postman collection by its UID. Use get_collection first to retrieve the request UID."
    }
}

} // verus!
