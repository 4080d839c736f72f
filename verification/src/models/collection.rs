//! Collections, their item trees and runs.

use vstd::prelude::*;
use crate::json::JsonValue;

verus! {

/// Response of `GET /collections`.
#[derive(Debug, PartialEq)]
pub struct ListCollectionsResponse {
    pub collections: Vec<CollectionSummary>,
}

/// One collection of a listing.
#[derive(Debug, PartialEq)]
pub struct CollectionSummary {
    pub id: String,
    pub uid: String,
    pub name: String,
    pub owner: String,
    pub created_at: String,
    pub updated_at: String,
    pub fork: Option<JsonValue>,
}

/// Response of `GET /collections/{id}`.
#[derive(Debug, PartialEq)]
pub struct GetCollectionResponse {
    pub collection: CollectionDetail,
}

/// A collection with its tree, variables and authentication.
#[derive(Debug, PartialEq)]
pub struct CollectionDetail {
    pub info: CollectionInfo,
    pub item: Vec<CollectionItem>,
    pub variable: Vec<JsonValue>,
    pub auth: Option<JsonValue>,
}

/// The `info` block of a collection.
#[derive(Debug, PartialEq)]
pub struct CollectionInfo {
    pub postman_id: String,
    pub name: String,
    pub description: Option<String>,
    pub schema: String,
}

/// A node of a collection tree: a folder (`item`), a request (`request`), or both.
#[derive(Debug, PartialEq)]
pub struct CollectionItem {
    pub name: String,
    pub id: Option<String>,
    pub item: Option<Vec<CollectionItem>>,
    pub request: Option<RequestDetail>,
}

/// The definition of a request.
#[derive(Debug, PartialEq)]
pub struct RequestDetail {
    pub method: Option<String>,
    pub url: Option<JsonValue>,
    pub header: Option<Vec<JsonValue>>,
    pub body: Option<JsonValue>,
    pub description: Option<String>,
    pub auth: Option<JsonValue>,
}

/// Response of `POST /collections/{id}/runs`.
#[derive(Debug, PartialEq)]
pub struct RunCollectionResponse {
    pub run: RunDetail,
}

/// A run of the cloud runner.
#[derive(Debug, PartialEq)]
pub struct RunDetail {
    pub id: Option<String>,
    pub status: Option<String>,
    pub info: Option<JsonValue>,
    pub stats: Option<JsonValue>,
    pub executions: Option<Vec<JsonValue>>,
    pub failures: Option<Vec<JsonValue>>,
}

} // verus!
