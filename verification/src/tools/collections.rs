//! Collection tools: list, get, create, update, delete.

use vstd::prelude::*;
use crate::json::{Json, JsonValue};
use crate::models::collection::{CollectionDetail, CollectionSummary, ListCollectionsResponse};
use crate::text::owned;
use crate::utils::errors::{ToolError, invalid_params};
use crate::utils::items::{count_requests, summarize_items, request_count, outline, height};

verus! {

/// `list_collections`.
#[derive(Debug, PartialEq)]
pub struct ListCollectionsTool;

#[derive(Debug, PartialEq)]
pub struct ListCollectionsInput {}

#[derive(Debug, PartialEq)]
pub struct ListCollectionsOutput {
    pub count: usize,
    pub collections: Vec<CollectionSummaryOutput>,
}

#[derive(Debug, PartialEq)]
pub struct CollectionSummaryOutput {
    pub uid: String,
    pub name: String,
    pub updated_at: String,
}

impl ListCollectionsTool {
    pub fn name() -> (r: &'static str)
        ensures
            r@ == "list_collections"@,
    {
        "list_collections"
    }

    pub fn description() -> (r: &'static str)
        ensures
            r@ == "List all Postman collections in the workspace. Returns collection names, UIDs, and last update dates."@,
    {
        "List all Postman collections in the workspace. Returns collection names, UIDs, and last update dates."
    }
}

impl ListCollectionsOutput {
    /// One entry (UID, name, last update) per collection, in order.
    pub fn from_response(resp: ListCollectionsResponse) -> (out: ListCollectionsOutput)
        ensures
            out.count == resp.collections@.len(),
            out.collections@.len() == resp.collections@.len(),
            forall|i: int| 0 <= i < resp.collections@.len() ==> {
                &&& (#[trigger] out.collections@[i]).uid == resp.collections@[i].uid
                &&& out.collections@[i].name == resp.collections@[i].name
                &&& out.collections@[i].updated_at == resp.collections@[i].updated_at
            },
    {
        let ghost model = resp.collections@;
        let mut out: Vec<CollectionSummaryOutput> = Vec::new();
        for c in it: resp.collections
            invariant
                model == it.seq(),
                out@.len() == it.index(),
                forall|i: int| 0 <= i < it.index() ==> {
                    &&& (#[trigger] out@[i]).uid == model[i].uid
                    &&& out@[i].name == model[i].name
                    &&& out@[i].updated_at == model[i].updated_at
                },
        {
            out.push(CollectionSummaryOutput { uid: c.uid, name: c.name, updated_at: c.updated_at });
        }
        ListCollectionsOutput { count: out.len(), collections: out }
    }
}

/// `get_collection`.
#[derive(Debug, PartialEq)]
pub struct GetCollectionTool;

#[derive(Debug, PartialEq)]
pub struct GetCollectionInput {
    /// The collection's UID or id.
    pub collection_id: String,
}

#[derive(Debug, PartialEq)]
pub struct GetCollectionOutput {
    pub name: String,
    pub description: String,
    pub request_count: usize,
    /// The outline of the collection's tree.
    pub structure: String,
    pub variables: Vec<CollectionVariableOutput>,
}

#[derive(Debug, PartialEq)]
pub struct CollectionVariableOutput {
    pub key: String,
    pub value: String,
    pub variable_type: String,
}

impl GetCollectionTool {
    pub fn name() -> (r: &'static str)
        ensures
            r@ == "get_collection"@,
    {
        "get_collection"
    }

    pub fn description() -> (r: &'static str)
        ensures
            r@ == "Get full details of a specific Postman collection including its requests, folders, and variables. Provide the collection UID."@,
    {
        "Get full details of a specific Postman collection including its requests, folders, and variables. Provide the collection UID."
    }
}

/// A text field of a variable, the default when absent or not a string.
pub open spec fn field_or(v: Json, key: Seq<char>, default: Seq<char>) -> Seq<char> {
    match v.get_str(key) {
        Some(s) => s,
        None => default,
    }
}

fn field_text(v: &JsonValue, key: &str, default: &str) -> (s: String)
    ensures
        s@ == field_or(v.view_json(), key@, default@),
{
    match v.get_str(key) {
        Some(t) => t.clone(),
        None => owned(default),
    }
}

impl GetCollectionOutput {
    /// The summary of a collection: its name, its description (or
    /// `(no description)`), how many requests it holds, the outline of its
    /// tree, and its variables with missing fields read as empty and the
    /// type as `default`.
    pub fn from_detail(detail: &CollectionDetail) -> (out: GetCollectionOutput)
        requires
            request_count(detail.item@) <= usize::MAX,
            height(detail.item@) <= usize::MAX / 2,
        ensures
            out.name@ == detail.info.name@,
            out.description@ == match detail.info.description {
                Some(d) => d@,
                None => "(no description)"@,
            },
            out.request_count == request_count(detail.item@),
            out.structure@ == outline(detail.item@, 0),
            out.variables@.len() == detail.variable@.len(),
            forall|i: int| 0 <= i < detail.variable@.len() ==> {
                &&& (#[trigger] out.variables@[i]).key@ == field_or(detail.variable@[i].view_json(), "key"@, Seq::empty())
                &&& out.variables@[i].value@ == field_or(detail.variable@[i].view_json(), "value"@, Seq::empty())
                &&& out.variables@[i].variable_type@ == field_or(detail.variable@[i].view_json(), "type"@, "default"@)
            },
    {
        let structure = summarize_items(&detail.item, 0);
        let request_count = count_requests(&detail.item);
        let empty = String::new();
        let mut variables: Vec<CollectionVariableOutput> = Vec::new();
        let n = detail.variable.len();
        let mut i: usize = 0;
        while i < n
            invariant
                n == detail.variable@.len(),
                i <= n,
                empty@ == Seq::<char>::empty(),
                variables@.len() == i,
                forall|j: int| 0 <= j < i ==> {
                    &&& (#[trigger] variables@[j]).key@ == field_or(detail.variable@[j].view_json(), "key"@, Seq::empty())
                    &&& variables@[j].value@ == field_or(detail.variable@[j].view_json(), "value"@, Seq::empty())
                    &&& variables@[j].variable_type@ == field_or(detail.variable@[j].view_json(), "type"@, "default"@)
                },
            decreases n - i,
        {
            let v = &detail.variable[i];
            variables.push(CollectionVariableOutput {
                key: field_text(v, "key", empty.as_str()),
                value: field_text(v, "value", empty.as_str()),
                variable_type: field_text(v, "type", "default"),
            });
            i = i + 1;
        }
        let description = match &detail.info.description {
            Some(d) => d.clone(),
            None => owned("(no description)"),
        };
        GetCollectionOutput { name: detail.info.name.clone(), description, request_count, structure, variables }
    }
}

/// `create_collection`.
#[derive(Debug, PartialEq)]
pub struct CreateCollectionTool;

#[derive(Debug, PartialEq)]
pub struct CreateCollectionInput {
    pub name: String,
    pub description: Option<String>,
}

impl CreateCollectionTool {
    pub fn name() -> (r: &'static str)
        ensures
            r@ == "create_collection"@,
    {
        "create_collection"
    }

    pub fn description() -> (r: &'static str)
        ensures
            r@ == "Create a new empty Postman collection with an optional description."@,
    {
        "Create a new empty Postman collection with an optional description."
    }
}

/// `update_collection`.
#[derive(Debug, PartialEq)]
pub struct UpdateCollectionTool;

#[derive(Debug, PartialEq)]
pub struct UpdateCollectionInput {
    pub collection_id: String,
    pub name: Option<String>,
    pub description: Option<String>,
}

impl UpdateCollectionTool {
    pub fn name() -> (r: &'static str)
        ensures
            r@ == "update_collection"@,
    {
        "update_collection"
    }

    pub fn description() -> (r: &'static str)
        ensures
            r@ == "Update the name and/or description of an existing Postman collection."@,
    {
        "Update the name and/or description of an existing Postman collection."
    }

    /// An update must change the name or the description.
    pub fn check(input: &UpdateCollectionInput) -> (r: Result<(), ToolError>)
        ensures
            r is Ok <==> (input.name is Some || input.description is Some),
            r matches Err(ToolError::InvalidParams(m)) ==> m@ == "Provide at least 'name' or 'description' to update."@,
            r matches Err(e) ==> e is InvalidParams,
    {
        if input.name.is_none() && input.description.is_none() {
            return Err(invalid_params("Provide at least 'name' or 'description' to update."));
        }
        Ok(())
    }
}

/// `delete_collection`.
#[derive(Debug, PartialEq)]
pub struct DeleteCollectionTool;

#[derive(Debug, PartialEq)]
pub struct DeleteCollectionInput {
    /// The UID of the collection to delete; this cannot be undone.
    pub collection_id: String,
}

impl DeleteCollectionTool {
    pub fn name() -> (r: &'static str)
        ensures
            r@ == "delete_collection"@,
    {
        "delete_collection"
    }

    pub fn description() -> (r: &'static str)
        ensures
            r@ == "Permanently delete a Postman collection by its UID. This action cannot be undone."@,
    {
        "Permanently delete a Postman collection by its UID. This action cannot be undone."
    }
}

} // verus!
