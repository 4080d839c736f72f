//! Collection variables and workspace-wide global variables.

use vstd::prelude::*;
use crate::client::{ApiRequest, HttpMethod, PostmanApiClient, api_url, api_url_of, body_json, concat2, concat3};
use crate::json::{Json, JsonValue, JsonMember, jstr, object, push_member, view_members, view_values, lemma_view_values, lemma_view_members_empty, opt_json};
use crate::text::{push_str};

verus! {

/// The body that replaces a collection's variables.
pub open spec fn collection_variables_body(name: Seq<char>, variables: Seq<Json>) -> Json {
    Json::Object(seq![("collection"@, Json::Object(seq![
        ("info"@, Json::Object(seq![("name"@, Json::Str(name))])),
        ("variable"@, Json::Array(variables)),
    ]))])
}

/// The body that replaces the global variables.
pub open spec fn globals_body(values: Seq<Json>) -> Json {
    Json::Object(seq![("values"@, Json::Array(values))])
}

/// The path of a workspace's global variables.
pub open spec fn globals_path(workspace_id: Seq<char>) -> Seq<char> {
    "/workspaces/"@ + workspace_id + "/global-variables"@
}

/// The workspace to use when `POSTMAN_WORKSPACE_ID` is set and not empty.
pub open spec fn configured_workspace(env: Option<Seq<char>>) -> Option<Seq<char>> {
    match env {
        Some(id) => if id.len() > 0 { Some(id) } else { None },
        None => None,
    }
}

/// The id of the first workspace in the answer to `GET /workspaces`.
pub open spec fn first_workspace_id(resp: Json) -> Option<Seq<char>> {
    match resp.get_array("workspaces"@) {
        Some(ws) => if ws.len() > 0 { ws[0].get_str("id"@) } else { None },
        None => None,
    }
}

impl PostmanApiClient {
    /// `PATCH /collections/{id}` with the collection's name and the complete
    /// list of its variables.
    pub fn update_collection_variables_request(
        &self,
        collection_id: &str,
        name: &str,
        postman_id: &str,
        variables: Vec<JsonValue>,
    ) -> (r: ApiRequest)
        ensures
            r.method == HttpMethod::Patch,
            r.url@ == api_url("/collections/"@ + collection_id@),
            r.api_key == self.api_key,
            body_json(r.body) == Some(collection_variables_body(name@, view_values(variables@))),
    {
        proof {
            lemma_view_members_empty();
        }
        let ghost vs = view_values(variables@);
        let mut info: Vec<JsonMember> = Vec::new();
        push_member(&mut info, "name", jstr(name));
        let iv = object(info);
        assert(view_members(info@) =~= seq![("name"@, Json::Str(name@))]);
        let arr = JsonValue::Array(variables);
        assert(arr.view_json() == Json::Array(vs));
        let mut coll: Vec<JsonMember> = Vec::new();
        push_member(&mut coll, "info", iv);
        push_member(&mut coll, "variable", arr);
        let cv = object(coll);
        assert(view_members(coll@) =~= seq![("info"@, iv.view_json()), ("variable"@, Json::Array(vs))]);
        let mut top: Vec<JsonMember> = Vec::new();
        push_member(&mut top, "collection", cv);
        let body = object(top);
        assert(view_members(top@) =~= seq![("collection"@, cv.view_json())]);
        assert(body.view_json() == collection_variables_body(name@, vs));
        let path = concat2("/collections/", collection_id);
        self.call(HttpMethod::Patch, api_url_of(path.as_str()), Some(body))
    }

    /// `GET /workspaces`, to find the first workspace.
    pub fn workspaces_request(&self) -> (r: ApiRequest)
        ensures
            r.method == HttpMethod::Get,
            r.url@ == api_url("/workspaces"@),
            r.api_key == self.api_key,
            r.body is None,
    {
        self.call(HttpMethod::Get, api_url_of("/workspaces"), None)
    }

    /// `GET /workspaces/{id}/global-variables`.
    pub fn get_globals_request(&self, workspace_id: &str) -> (r: ApiRequest)
        ensures
            r.method == HttpMethod::Get,
            r.url@ == api_url(globals_path(workspace_id@)),
            r.api_key == self.api_key,
            r.body is None,
    {
        let path = concat3("/workspaces/", workspace_id, "/global-variables");
        self.call(HttpMethod::Get, api_url_of(path.as_str()), None)
    }

    /// `PUT /workspaces/{id}/global-variables` with the complete list.
    pub fn update_globals_request(&self, workspace_id: &str, values: Vec<JsonValue>) -> (r: ApiRequest)
        ensures
            r.method == HttpMethod::Put,
            r.url@ == api_url(globals_path(workspace_id@)),
            r.api_key == self.api_key,
            body_json(r.body) == Some(globals_body(view_values(values@))),
    {
        proof {
            lemma_view_members_empty();
        }
        let ghost vs = view_values(values@);
        let arr = JsonValue::Array(values);
        assert(arr.view_json() == Json::Array(vs));
        let mut top: Vec<JsonMember> = Vec::new();
        push_member(&mut top, "values", arr);
        let body = object(top);
        assert(view_members(top@) =~= seq![("values"@, Json::Array(vs))]);
        let path = concat3("/workspaces/", workspace_id, "/global-variables");
        self.call(HttpMethod::Put, api_url_of(path.as_str()), Some(body))
    }
}

/// The workspace configured by `POSTMAN_WORKSPACE_ID`, if it is set and not empty.
pub fn configured_workspace_id(env: Option<String>) -> (r: Option<String>)
    ensures
        match r {
            Some(id) => configured_workspace(match env { Some(e) => Some(e@), None => None }) == Some(id@),
            None => configured_workspace(match env { Some(e) => Some(e@), None => None }) is None,
        },
{
    match env {
        Some(id) => if id.as_str().is_empty() { None } else { Some(id) },
        None => None,
    }
}

/// The id of the first workspace of the answer to `GET /workspaces`; when
/// there is none, the error tells the user to check the API key.
pub fn workspace_id_from(resp: &JsonValue) -> (r: Result<String, String>)
    ensures
        match r {
            Ok(id) => first_workspace_id(resp.view_json()) == Some(id@),
            Err(e) => first_workspace_id(resp.view_json()) is None
                && e@ == "No se encontró ningún workspace. Verifica tu POSTMAN_API_KEY."@,
        },
{
    let found: Option<&String> = match resp.get_array("workspaces") {
        Some(ws) => {
            proof {
                lemma_view_values(ws@);
            }
            if ws.len() > 0 {
                ws[0].get_str("id")
            } else {
                None
            }
        },
        None => None,
    };
    match found {
        Some(id) => Ok(id.clone()),
        None => {
            let mut e = String::new();
            push_str(&mut e, "No se encontró ningún workspace. Verifica tu POSTMAN_API_KEY.");
            Err(e)
        },
    }
}

} // verus!
