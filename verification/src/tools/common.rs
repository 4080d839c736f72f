//! What the write tools share: their output and the request payload.

use vstd::prelude::*;
use crate::json::{push_member, Json, JsonValue, JsonMember, jstr, member, object, view_members, lemma_view_members};
use crate::outside::{to_uppercase, uppercase_of};
use crate::text::{push_str, text_eq};

verus! {

/// The outcome of a create, update or delete.
#[derive(Debug, PartialEq)]
pub struct CrudOutput {
    pub ok: bool,
    pub message: String,
    /// The id of the resource created or changed.
    pub id: String,
    /// The name of the resource, if any.
    pub name: String,
    /// The action the API reports (`create`, `update`, `delete`, ...).
    pub action: String,
}

/// The value at a two-step path `/a/b`.
pub open spec fn at2(data: Json, a: Seq<char>, b: Seq<char>) -> Option<Json> {
    match data.get(a) {
        Some(x) => x.get(b),
        None => None,
    }
}

/// The value at a three-step path `/a/b/c`.
pub open spec fn at3(data: Json, a: Seq<char>, b: Seq<char>, c: Seq<char>) -> Option<Json> {
    match at2(data, a, b) {
        Some(x) => x.get(c),
        None => None,
    }
}

/// The first of two optional values that is present.
pub open spec fn or_else(a: Option<Json>, b: Option<Json>) -> Option<Json> {
    match a {
        Some(x) => Some(x),
        None => b,
    }
}

/// A present string value, else the default.
pub open spec fn str_or(v: Option<Json>, default: Seq<char>) -> Seq<char> {
    match v {
        Some(x) => match x.as_str() {
            Some(s) => s,
            None => default,
        },
        None => default,
    }
}

/// The id a write reports: `/collection/id`, else `/model_id`, else `/data/id`
/// (the first present), as a string; `unknown` otherwise.
pub open spec fn reported_id(data: Json) -> Seq<char> {
    str_or(or_else(at2(data, "collection"@, "id"@), or_else(data.get("model_id"@), at2(data, "data"@, "id"@))), "unknown"@)
}

/// The name a write reports: `/collection/info/name`, else `/data/name`.
pub open spec fn reported_name(data: Json) -> Seq<char> {
    str_or(or_else(at3(data, "collection"@, "info"@, "name"@), at2(data, "data"@, "name"@)), Seq::empty())
}

/// The action a write reports: `/meta/action`, `ok` by default.
pub open spec fn reported_action(data: Json) -> Seq<char> {
    str_or(at2(data, "meta"@, "action"@), "ok"@)
}

fn path2<'a>(data: &'a JsonValue, a: &str, b: &str) -> (r: Option<&'a JsonValue>)
    ensures
        crate::json::opt_json(r) == at2(data.view_json(), a@, b@),
{
    match data.get(a) {
        Some(x) => x.get(b),
        None => None,
    }
}

fn path3<'a>(data: &'a JsonValue, a: &str, b: &str, c: &str) -> (r: Option<&'a JsonValue>)
    ensures
        crate::json::opt_json(r) == at3(data.view_json(), a@, b@, c@),
{
    match path2(data, a, b) {
        Some(x) => x.get(c),
        None => None,
    }
}

fn text_or(v: Option<&JsonValue>, default: &str) -> (s: String)
    ensures
        s@ == str_or(crate::json::opt_json(v), default@),
{
    let mut s = String::new();
    match v {
        Some(x) => match x.as_str() {
            Some(t) => push_str(&mut s, t.as_str()),
            None => push_str(&mut s, default),
        },
        None => push_str(&mut s, default),
    }
    s
}

impl CrudOutput {
    /// Reads the id, name and action out of the API's answer to a write.
    pub fn success(data: JsonValue) -> (r: CrudOutput)
        ensures
            r.ok,
            r.message@ == "OK"@,
            r.id@ == reported_id(data.view_json()),
            r.name@ == reported_name(data.view_json()),
            r.action@ == reported_action(data.view_json()),
    {
        let id_src = match path2(&data, "collection", "id") {
            Some(x) => Some(x),
            None => match data.get("model_id") {
                Some(x) => Some(x),
                None => path2(&data, "data", "id"),
            },
        };
        let id = text_or(id_src, "unknown");
        let name_src = match path3(&data, "collection", "info", "name") {
            Some(x) => Some(x),
            None => path2(&data, "data", "name"),
        };
        let empty = String::new();
        let name = text_or(name_src, empty.as_str());
        let action = text_or(path2(&data, "meta", "action"), "ok");
        let mut message = String::new();
        push_str(&mut message, "OK");
        CrudOutput { ok: true, message, id, name, action }
    }
}


/// A header given to a write tool.
#[derive(Debug, PartialEq)]
pub struct HeaderEntry {
    pub key: String,
    pub value: String,
}

/// The model of an optional borrowed text.
pub open spec fn opt_str(o: Option<&str>) -> Option<Seq<char>> {
    match o {
        Some(s) => Some(s@),
        None => None,
    }
}

/// The headers as the plain `Key: Value\n` text the API expects.
pub open spec fn headers_block(hs: Seq<HeaderEntry>) -> Seq<char>
    decreases hs.len(),
{
    if hs.len() == 0 {
        Seq::empty()
    } else {
        headers_block(hs.drop_last()) + hs.last().key@ + ": "@ + hs.last().value@ + "\n"@
    }
}

/// The body block for a mode: `raw` (with its text and language, `text` by
/// default), an empty `urlencoded` or `formdata` form, or none.
pub open spec fn body_block(mode: Option<Seq<char>>, raw: Option<Seq<char>>, language: Option<Seq<char>>) -> Option<Json> {
    match mode {
        Some(m) => if m == "raw"@ {
            let lang = match language {
                Some(l) => l,
                None => "text"@,
            };
            let text = match raw {
                Some(r) => r,
                None => Seq::empty(),
            };
            Some(Json::Object(seq![
                ("mode"@, Json::Str("raw"@)),
                ("raw"@, Json::Str(text)),
                ("options"@, Json::Object(seq![("raw"@, Json::Object(seq![("language"@, Json::Str(lang))]))])),
            ]))
        } else if m == "urlencoded"@ {
            Some(Json::Object(seq![("mode"@, Json::Str("urlencoded"@)), ("urlencoded"@, Json::Array(Seq::empty()))]))
        } else if m == "formdata"@ {
            Some(Json::Object(seq![("mode"@, Json::Str("formdata"@)), ("formdata"@, Json::Array(Seq::empty()))]))
        } else {
            None
        },
        None => None,
    }
}

/// The request definition sent to the API: name, method in upper case, URL,
/// the headers as text, then the description and body when given.
pub open spec fn request_payload(
    name: Seq<char>,
    method: Seq<char>,
    url: Seq<char>,
    headers: Seq<HeaderEntry>,
    body_mode: Option<Seq<char>>,
    body_raw: Option<Seq<char>>,
    body_language: Option<Seq<char>>,
    description: Option<Seq<char>>,
) -> Json {
    let base = seq![
        ("name"@, Json::Str(name)),
        ("method"@, Json::Str(uppercase_of(method))),
        ("url"@, Json::Str(url)),
        ("headers"@, Json::Str(headers_block(headers))),
    ];
    let with_desc = match description {
        Some(d) => base.push(("description"@, Json::Str(d))),
        None => base,
    };
    match body_block(body_mode, body_raw, body_language) {
        Some(b) => Json::Object(with_desc.push(("body"@, b))),
        None => Json::Object(with_desc),
    }
}


fn body_json(body_mode: Option<&str>, body_raw: Option<&str>, body_language: Option<&str>) -> (r: Option<JsonValue>)
    ensures
        match r {
            Some(v) => body_block(opt_str(body_mode), opt_str(body_raw), opt_str(body_language)) == Some(v.view_json()),
            None => body_block(opt_str(body_mode), opt_str(body_raw), opt_str(body_language)) is None,
        },
{
    let m = match body_mode {
        Some(m) => m,
        None => return None,
    };
    if text_eq(m, "raw") {
        let lang = match body_language {
            Some(l) => l,
            None => "text",
        };
        let empty = String::new();
        let text = match body_raw {
            Some(r) => r,
            None => empty.as_str(),
        };
        proof {
            assert(view_members(Seq::<JsonMember>::empty()) =~= Seq::<(Seq<char>, Json)>::empty());
        }
        let ghost l = match body_language {
            Some(l) => l@,
            None => "text"@,
        };
        assert(lang@ == l);
        let mut inner: Vec<JsonMember> = Vec::new();
        push_member(&mut inner, "language", jstr(lang));
        assert(view_members(inner@) =~= seq![("language"@, Json::Str(l))]);
        let mut options: Vec<JsonMember> = Vec::new();
        let iv = object(inner);
        push_member(&mut options, "raw", iv);
        assert(view_members(options@) =~= seq![("raw"@, Json::Object(seq![("language"@, Json::Str(l))]))]);
        let mut ms: Vec<JsonMember> = Vec::new();
        push_member(&mut ms, "mode", jstr("raw"));
        push_member(&mut ms, "raw", jstr(text));
        let ov = object(options);
        push_member(&mut ms, "options", ov);
        let r = object(ms);
        assert(view_members(ms@) =~= seq![
            ("mode"@, Json::Str("raw"@)),
            ("raw"@, Json::Str(text@)),
            ("options"@, Json::Object(seq![("raw"@, Json::Object(seq![("language"@, Json::Str(l))]))])),
        ]);
        assert(r.view_json() == body_block(opt_str(body_mode), opt_str(body_raw), opt_str(body_language))->0);
        Some(r)
    } else if text_eq(m, "urlencoded") {
        let mut ms: Vec<JsonMember> = Vec::new();
        proof {
            assert(view_members(Seq::<JsonMember>::empty()) =~= Seq::<(Seq<char>, Json)>::empty());
            assert(crate::json::view_values(Seq::<JsonValue>::empty()) =~= Seq::<Json>::empty());
        }
        let arr = JsonValue::Array(Vec::new());
        assert(arr.view_json() == Json::Array(Seq::empty()));
        push_member(&mut ms, "mode", jstr("urlencoded"));
        push_member(&mut ms, "urlencoded", arr);
        let r = object(ms);
        assert(view_members(ms@) =~= seq![("mode"@, Json::Str("urlencoded"@)), ("urlencoded"@, Json::Array(Seq::empty()))]);
        assert(r.view_json() == body_block(opt_str(body_mode), opt_str(body_raw), opt_str(body_language))->0);
        Some(r)
    } else if text_eq(m, "formdata") {
        let mut ms: Vec<JsonMember> = Vec::new();
        proof {
            assert(view_members(Seq::<JsonMember>::empty()) =~= Seq::<(Seq<char>, Json)>::empty());
            assert(crate::json::view_values(Seq::<JsonValue>::empty()) =~= Seq::<Json>::empty());
        }
        let arr = JsonValue::Array(Vec::new());
        assert(arr.view_json() == Json::Array(Seq::empty()));
        push_member(&mut ms, "mode", jstr("formdata"));
        push_member(&mut ms, "formdata", arr);
        let r = object(ms);
        assert(view_members(ms@) =~= seq![("mode"@, Json::Str("formdata"@)), ("formdata"@, Json::Array(Seq::empty()))]);
        assert(r.view_json() == body_block(opt_str(body_mode), opt_str(body_raw), opt_str(body_language))->0);
        Some(r)
    } else {
        None
    }
}

/// The headers as `Key: Value\n` text.
fn headers_text_block(headers: Option<&[HeaderEntry]>) -> (s: String)
    ensures
        s@ == headers_block(match headers {
            Some(h) => h@,
            None => Seq::empty(),
        }),
{
    let mut s = String::new();
    match headers {
        Some(hs) => {
            let n = hs.len();
            let mut i: usize = 0;
            while i < n
                invariant
                    n == hs@.len(),
                    i <= n,
                    s@ == headers_block(hs@.take(i as int)),
                decreases n - i,
            {
                push_str(&mut s, hs[i].key.as_str());
                push_str(&mut s, ": ");
                push_str(&mut s, hs[i].value.as_str());
                push_str(&mut s, "\n");
                proof {
                    assert(hs@.take(i + 1).drop_last() =~= hs@.take(i as int));
                    assert(s@ =~= headers_block(hs@.take(i + 1)));
                }
                i = i + 1;
            }
            assert(hs@.take(n as int) =~= hs@);
        },
        None => {},
    }
    s
}

/// Builds the request definition for the API: name, method in upper case,
/// URL, headers as `Key: Value\n` text, and the description and body when given.
pub fn build_request_payload(
    name: &str,
    method: &str,
    url: &str,
    headers: Option<&[HeaderEntry]>,
    body_mode: Option<&str>,
    body_raw: Option<&str>,
    body_language: Option<&str>,
    description: Option<&str>,
) -> (payload: JsonValue)
    ensures
        payload.view_json() == request_payload(
            name@,
            method@,
            url@,
            match headers {
                Some(h) => h@,
                None => Seq::empty(),
            },
            opt_str(body_mode),
            opt_str(body_raw),
            opt_str(body_language),
            opt_str(description),
        ),
{
    let headers_str = headers_text_block(headers);
    let body = body_json(body_mode, body_raw, body_language);
    let upper = to_uppercase(method);
    proof {
        assert(view_members(Seq::<JsonMember>::empty()) =~= Seq::<(Seq<char>, Json)>::empty());
    }
    let ghost hs = match headers {
        Some(h) => h@,
        None => Seq::empty(),
    };
    let mut ms: Vec<JsonMember> = Vec::new();
    push_member(&mut ms, "name", jstr(name));
    push_member(&mut ms, "method", JsonValue::Str(upper));
    push_member(&mut ms, "url", jstr(url));
    push_member(&mut ms, "headers", JsonValue::Str(headers_str));
    let ghost base = seq![
        ("name"@, Json::Str(name@)),
        ("method"@, Json::Str(uppercase_of(method@))),
        ("url"@, Json::Str(url@)),
        ("headers"@, Json::Str(headers_block(hs))),
    ];
    assert(view_members(ms@) =~= base);
    match description {
        Some(d) => push_member(&mut ms, "description", jstr(d)),
        None => {},
    }
    let ghost with_desc = match opt_str(description) {
        Some(d) => base.push(("description"@, Json::Str(d))),
        None => base,
    };
    assert(view_members(ms@) == with_desc);
    match body {
        Some(b) => push_member(&mut ms, "body", b),
        None => {},
    }
    let r = object(ms);
    assert(r.view_json() == request_payload(
        name@,
        method@,
        url@,
        match headers {
            Some(h) => h@,
            None => Seq::empty(),
        },
        opt_str(body_mode),
        opt_str(body_raw),
        opt_str(body_language),
        opt_str(description),
    ));
    r
}

} // verus!
