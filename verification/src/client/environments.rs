//! Environment endpoints.

use vstd::prelude::*;
use crate::client::{ApiRequest, HttpMethod, PostmanApiClient, api_url, api_url_of, body_json, concat2};
use crate::json::{Json, JsonValue, JsonMember, jstr, object, push_member, view_members, view_values, lemma_view_members_empty};

verus! {

/// The body that replaces an environment's variables.
pub open spec fn environment_update_body(name: Seq<char>, values: Seq<Json>) -> Json {
    Json::Object(seq![("environment"@, Json::Object(seq![("name"@, Json::Str(name)), ("values"@, Json::Array(values))]))])
}

impl PostmanApiClient {
    /// `GET /environments`.
    pub fn list_environments_request(&self) -> (r: ApiRequest)
        ensures
            r.method == HttpMethod::Get,
            r.url@ == api_url("/environments"@),
            r.api_key == self.api_key,
            r.body is None,
    {
        self.call(HttpMethod::Get, api_url_of("/environments"), None)
    }

    /// `GET /environments/{id}`.
    pub fn get_environment_request(&self, environment_id: &str) -> (r: ApiRequest)
        ensures
            r.method == HttpMethod::Get,
            r.url@ == api_url("/environments/"@ + environment_id@),
            r.api_key == self.api_key,
            r.body is None,
    {
        let path = concat2("/environments/", environment_id);
        self.call(HttpMethod::Get, api_url_of(path.as_str()), None)
    }

    /// `PUT /environments/{id}` with the environment's name and the complete
    /// list of its variables (the API replaces them all).
    pub fn update_environment_variables_request(&self, environment_id: &str, name: &str, values: Vec<JsonValue>) -> (r: ApiRequest)
        ensures
            r.method == HttpMethod::Put,
            r.url@ == api_url("/environments/"@ + environment_id@),
            r.api_key == self.api_key,
            body_json(r.body) == Some(environment_update_body(name@, view_values(values@))),
    {
        proof {
            lemma_view_members_empty();
        }
        let mut env: Vec<JsonMember> = Vec::new();
        push_member(&mut env, "name", jstr(name));
        let ghost vs = view_values(values@);
        let arr = JsonValue::Array(values);
        assert(arr.view_json() == Json::Array(vs));
        push_member(&mut env, "values", arr);
        assert(view_members(env@) =~= seq![("name"@, Json::Str(name@)), ("values"@, Json::Array(vs))]);
        let mut top: Vec<JsonMember> = Vec::new();
        let ev = object(env);
        push_member(&mut top, "environment", ev);
        let body = object(top);
        assert(view_members(top@) =~= seq![("environment"@, ev.view_json())]);
        assert(body.view_json() == environment_update_body(name@, vs));
        let path = concat2("/environments/", environment_id);
        self.call(HttpMethod::Put, api_url_of(path.as_str()), Some(body))
    }
}

} // verus!
