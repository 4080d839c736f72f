//! Collection endpoints.

use vstd::prelude::*;
use crate::client::{ApiRequest, HttpMethod, PostmanApiClient, api_url, api_url_of, body_json, concat2, concat3};
use crate::json::{Json, JsonValue, JsonMember, lookup, jstr, object, push_member, view_members, lemma_view_members_empty, lemma_view_values_empty};

verus! {

/// The schema every new collection declares.
pub open spec fn collection_schema() -> Seq<char> {
    "https://schema.getpostman.com/json/collection/v2.1.0/collection.json"@
}

/// The body that creates a collection: its `info` (name, schema, and the
/// description when given) and no items.
pub open spec fn create_collection_body(name: Seq<char>, description: Option<Seq<char>>) -> Json {
    let base = seq![("name"@, Json::Str(name)), ("schema"@, Json::Str(collection_schema()))];
    let info = match description {
        Some(d) => base.push(("description"@, Json::Str(d))),
        None => base,
    };
    Json::Object(seq![("collection"@, Json::Object(seq![("info"@, Json::Object(info)), ("item"@, Json::Array(Seq::empty()))]))])
}

/// The body that renames or redescribes a collection: only the fields given.
pub open spec fn update_collection_body(name: Option<Seq<char>>, description: Option<Seq<char>>) -> Json {
    let with_name = match name {
        Some(n) => seq![("name"@, Json::Str(n))],
        None => Seq::empty(),
    };
    let info = match description {
        Some(d) => with_name.push(("description"@, Json::Str(d))),
        None => with_name,
    };
    Json::Object(seq![("collection"@, Json::Object(seq![("info"@, Json::Object(info))]))])
}

/// An update names the collection exactly when a name is given and
/// describes it exactly when a description is given, each independently of
/// the other, and changes nothing else of its `info`.
pub proof fn law_update_body_fields(name: Option<Seq<char>>, description: Option<Seq<char>>)
    ensures
        update_collection_body(name, description).get("collection"@) matches Some(c)
            && c.get("info"@) matches Some(info)
            && info.get_str("name"@) == name
            && info.get_str("description"@) == description
            && info.get("schema"@) is None,
{
    reveal_strlit("name");
    reveal_strlit("description");
    reveal_strlit("schema");
    reveal_strlit("collection");
    reveal_strlit("info");
    assert("name"@.len() == 4 && "description"@.len() == 11 && "schema"@.len() == 6);
    assert("name"@ != "description"@);
    assert("schema"@ != "description"@);
    assert("schema"@ != "name"@);
    let with_name: Seq<(Seq<char>, Json)> = match name {
        Some(n) => seq![("name"@, Json::Str(n))],
        None => Seq::empty(),
    };
    let info = match description {
        Some(d) => with_name.push(("description"@, Json::Str(d))),
        None => with_name,
    };
    let inner = Json::Object(seq![("info"@, Json::Object(info))]);
    assert(update_collection_body(name, description)
        == Json::Object(seq![("collection"@, inner)]));
    assert(lookup(seq![("collection"@, inner)], "collection"@) == Some(inner));
    assert(lookup(seq![("info"@, Json::Object(info))], "info"@) == Some(Json::Object(info)));
    let rest = if info.len() > 0 { info.drop_first() } else { info };
    let last = if rest.len() > 0 { rest.drop_first() } else { rest };
    if info.len() > 0 {
        if rest.len() > 0 {
            assert(last =~= Seq::<(Seq<char>, Json)>::empty());
            assert(lookup(last, "name"@) is None);
            assert(lookup(last, "description"@) is None);
            assert(lookup(last, "schema"@) is None);
        }
        assert(lookup(rest, "schema"@) is None);
    }
    match name {
        Some(n) => {
            assert(lookup(info, "name"@) == Some(Json::Str(n)));
            match description {
                Some(d) => {
                    assert(rest =~= seq![("description"@, Json::Str(d))]);
                    assert(lookup(rest, "description"@) == Some(Json::Str(d)));
                    assert(lookup(info, "description"@) == Some(Json::Str(d)));
                },
                None => {
                    assert(rest =~= Seq::<(Seq<char>, Json)>::empty());
                    assert(lookup(info, "description"@) is None);
                },
            }
        },
        None => {
            match description {
                Some(d) => {
                    assert(info =~= seq![("description"@, Json::Str(d))]);
                    assert(rest =~= Seq::<(Seq<char>, Json)>::empty());
                    assert(lookup(rest, "name"@) is None);
                    assert(lookup(info, "name"@) is None);
                    assert(lookup(info, "description"@) == Some(Json::Str(d)));
                },
                None => {
                    assert(info =~= Seq::<(Seq<char>, Json)>::empty());
                },
            }
        },
    }
}

/// The body that starts a cloud run, with the environment when given.
pub open spec fn run_collection_body(environment_id: Option<Seq<char>>) -> Json {
    match environment_id {
        Some(e) => Json::Object(seq![("environment"@, Json::Object(seq![("id"@, Json::Str(e))]))]),
        None => Json::Object(Seq::empty()),
    }
}

/// The model of an optional borrowed text.
pub open spec fn opt_text(o: Option<&str>) -> Option<Seq<char>> {
    match o {
        Some(s) => Some(s@),
        None => None,
    }
}

impl PostmanApiClient {
    /// `GET /collections`.
    pub fn list_collections_request(&self) -> (r: ApiRequest)
        ensures
            r.method == HttpMethod::Get,
            r.url@ == api_url("/collections"@),
            r.api_key == self.api_key,
            r.body is None,
    {
        self.call(HttpMethod::Get, api_url_of("/collections"), None)
    }

    /// `GET /collections/{id}`.
    pub fn get_collection_request(&self, collection_id: &str) -> (r: ApiRequest)
        ensures
            r.method == HttpMethod::Get,
            r.url@ == api_url("/collections/"@ + collection_id@),
            r.api_key == self.api_key,
            r.body is None,
    {
        let path = concat2("/collections/", collection_id);
        self.call(HttpMethod::Get, api_url_of(path.as_str()), None)
    }

    /// `POST /collections` with a new, empty collection.
    pub fn create_collection_request(&self, name: &str, description: Option<&str>) -> (r: ApiRequest)
        ensures
            r.method == HttpMethod::Post,
            r.url@ == api_url("/collections"@),
            r.api_key == self.api_key,
            body_json(r.body) == Some(create_collection_body(name@, opt_text(description))),
    {
        proof {
            lemma_view_members_empty();
            lemma_view_values_empty();
        }
        let mut info: Vec<JsonMember> = Vec::new();
        push_member(&mut info, "name", jstr(name));
        push_member(&mut info, "schema", jstr("https://schema.getpostman.com/json/collection/v2.1.0/collection.json"));
        let ghost base = seq![("name"@, Json::Str(name@)), ("schema"@, Json::Str(collection_schema()))];
        assert(view_members(info@) =~= base);
        match description {
            Some(d) => push_member(&mut info, "description", jstr(d)),
            None => {},
        }
        let ghost ispec = match opt_text(description) {
            Some(d) => base.push(("description"@, Json::Str(d))),
            None => base,
        };
        assert(view_members(info@) == ispec);
        let mut coll: Vec<JsonMember> = Vec::new();
        let iv = object(info);
        push_member(&mut coll, "info", iv);
        let arr = JsonValue::Array(Vec::new());
        assert(arr.view_json() == Json::Array(Seq::empty()));
        push_member(&mut coll, "item", arr);
        assert(view_members(coll@) =~= seq![("info"@, Json::Object(ispec)), ("item"@, Json::Array(Seq::empty()))]);
        let mut top: Vec<JsonMember> = Vec::new();
        let cv = object(coll);
        push_member(&mut top, "collection", cv);
        let body = object(top);
        assert(view_members(top@) =~= seq![("collection"@, cv.view_json())]);
        assert(body.view_json() == create_collection_body(name@, opt_text(description)));
        self.call(HttpMethod::Post, api_url_of("/collections"), Some(body))
    }

    /// `PATCH /collections/{id}` with the new name and/or description.
    pub fn update_collection_request(&self, collection_id: &str, name: Option<&str>, description: Option<&str>) -> (r: ApiRequest)
        ensures
            r.method == HttpMethod::Patch,
            r.url@ == api_url("/collections/"@ + collection_id@),
            r.api_key == self.api_key,
            body_json(r.body) == Some(update_collection_body(opt_text(name), opt_text(description))),
    {
        proof {
            lemma_view_members_empty();
        }
        let mut info: Vec<JsonMember> = Vec::new();
        match name {
            Some(n) => push_member(&mut info, "name", jstr(n)),
            None => {},
        }
        match description {
            Some(d) => push_member(&mut info, "description", jstr(d)),
            None => {},
        }
        let mut coll: Vec<JsonMember> = Vec::new();
        push_member(&mut coll, "info", object(info));
        let mut top: Vec<JsonMember> = Vec::new();
        push_member(&mut top, "collection", object(coll));
        let body = object(top);
        assert(body.view_json() == update_collection_body(opt_text(name), opt_text(description)));
        let path = concat2("/collections/", collection_id);
        self.call(HttpMethod::Patch, api_url_of(path.as_str()), Some(body))
    }

    /// `DELETE /collections/{id}`.
    pub fn delete_collection_request(&self, collection_id: &str) -> (r: ApiRequest)
        ensures
            r.method == HttpMethod::Delete,
            r.url@ == api_url("/collections/"@ + collection_id@),
            r.api_key == self.api_key,
            r.body is None,
    {
        let path = concat2("/collections/", collection_id);
        self.call(HttpMethod::Delete, api_url_of(path.as_str()), None)
    }

    /// `POST /collections/{id}/runs`, with the environment when given.
    pub fn run_collection_request(&self, collection_id: &str, environment_id: Option<&str>) -> (r: ApiRequest)
        ensures
            r.method == HttpMethod::Post,
            r.url@ == api_url("/collections/"@ + collection_id@ + "/runs"@),
            r.api_key == self.api_key,
            body_json(r.body) == Some(run_collection_body(opt_text(environment_id))),
    {
        proof {
            lemma_view_members_empty();
        }
        let mut top: Vec<JsonMember> = Vec::new();
        match environment_id {
            Some(e) => {
                let mut env: Vec<JsonMember> = Vec::new();
                push_member(&mut env, "id", jstr(e));
                push_member(&mut top, "environment", object(env));
            },
            None => {},
        }
        let body = object(top);
        assert(body.view_json() == run_collection_body(opt_text(environment_id)));
        let path = concat3("/collections/", collection_id, "/runs");
        self.call(HttpMethod::Post, api_url_of(path.as_str()), Some(body))
    }
}

} // verus!
