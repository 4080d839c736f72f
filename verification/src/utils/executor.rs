//! Preparing a collection request for sending and summarising its response.
//! The sending itself is the caller's: it sends what `prepare_item` returns
//! and hands what came back to `finish_item`.

use vstd::prelude::*;
use crate::json::{Json, JsonValue, opt_json, opt_view, view_values, lemma_view_values};
use crate::models::collection::{CollectionItem, RequestDetail};
use crate::outside::{canonical_reason, canonical_reason_of, method_accepted, valid_method};
use crate::text::{chars_of, push_char, push_str, text_eq, decimal, decimal_text, join_lines, join_with_newlines, texts_view, owned};
use crate::utils::auth::{AuthResult, apply_auth, auth_header, auth_query, basic_credential, opt_pair};
use crate::outside::base64_fits;
use crate::utils::vars::{Variables, resolve_vars, resolve_spec, placeholder, law_placeholder_resolves};

verus! {

broadcast use vstd::string::group_string_axioms;

/// The outcome of running one request of a collection.
#[derive(Debug, PartialEq)]
pub struct SingleRunResult {
    pub name: String,
    pub method: String,
    /// The final URL, variables resolved.
    pub url: String,
    /// The HTTP status (0 when the request was never answered).
    pub status: u16,
    pub status_text: String,
    pub elapsed_ms: u128,
    /// The status is 2xx.
    pub passed: bool,
    /// The response body, possibly truncated.
    pub response_body: String,
    pub body_truncated: bool,
    /// The body's length in characters before truncation.
    pub body_total_chars: usize,
    /// The headers sent, one `Name: value` per line.
    pub request_headers_sent: String,
    /// The notable response headers, one `name: value` per line.
    pub response_headers: String,
    /// What went wrong before an answer came, if anything.
    pub error: Option<String>,
}

/// What a request carries as its body.
#[derive(Debug, PartialEq)]
pub enum BodyPlan {
    /// No body.
    Empty,
    /// A text body, with the `Content-Type` to send beside it, if any.
    Text { content_type: Option<String>, text: String },
    /// A `application/x-www-form-urlencoded` form.
    UrlEncoded(Vec<(String, String)>),
    /// A multipart form of text fields.
    Multipart(Vec<(String, String)>),
}

/// A request ready to be sent: everything resolved and decided.
#[derive(Debug, PartialEq)]
pub struct PreparedRequest {
    pub name: String,
    pub method: String,
    pub url: String,
    /// Query parameters to add to the URL.
    pub query: Vec<(String, String)>,
    /// Headers of the request definition, in order.
    pub headers: Vec<(String, String)>,
    /// What authentication adds.
    pub auth: AuthResult,
    pub body: BodyPlan,
}

/// The model of a list of string pairs.
pub open spec fn pairs_view(v: Seq<(String, String)>) -> Seq<(Seq<char>, Seq<char>)> {
    v.map_values(|p: (String, String)| (p.0@, p.1@))
}

/// The result for a request that could not be sent.
pub fn err_result(name: &str, method: &str, url: &str, msg: &str) -> (r: SingleRunResult)
    ensures
        r.name@ == name@,
        r.method@ == method@,
        r.url@ == url@,
        r.status == 0,
        r.status_text@ == Seq::<char>::empty(),
        r.elapsed_ms == 0,
        !r.passed,
        r.response_body@ == Seq::<char>::empty(),
        !r.body_truncated,
        r.body_total_chars == 0,
        r.request_headers_sent@ == Seq::<char>::empty(),
        r.response_headers@ == Seq::<char>::empty(),
        r.error matches Some(e) && e@ == msg@,
{
    let mut n = String::new();
    push_str(&mut n, name);
    let mut m = String::new();
    push_str(&mut m, method);
    let mut u = String::new();
    push_str(&mut u, url);
    let mut e = String::new();
    push_str(&mut e, msg);
    SingleRunResult {
        name: n,
        method: m,
        url: u,
        status: 0,
        status_text: String::new(),
        elapsed_ms: 0,
        passed: false,
        response_body: String::new(),
        body_truncated: false,
        body_total_chars: 0,
        request_headers_sent: String::new(),
        response_headers: String::new(),
        error: Some(e),
    }
}

/// `name: value`.
pub open spec fn header_line(h: (Seq<char>, Seq<char>)) -> Seq<char> {
    h.0 + ": "@ + h.1
}

/// One `name: value` line per header.
pub open spec fn header_lines(hs: Seq<(Seq<char>, Seq<char>)>) -> Seq<Seq<char>> {
    hs.map_values(|h: (Seq<char>, Seq<char>)| header_line(h))
}

/// The response headers worth reporting.
pub open spec fn is_reported_header(k: Seq<char>) -> bool {
    ||| k == "content-type"@
    ||| k == "content-length"@
    ||| k == "location"@
    ||| k == "x-request-id"@
    ||| k == "x-correlation-id"@
    ||| k == "retry-after"@
    ||| k == "www-authenticate"@
}

/// The lines of the reported response headers, in order.
pub open spec fn reported_lines(hs: Seq<(Seq<char>, Seq<char>)>) -> Seq<Seq<char>>
    decreases hs.len(),
{
    if hs.len() == 0 {
        Seq::empty()
    } else {
        reported_lines(hs.drop_last()) + if is_reported_header(hs.last().0) {
            seq![header_line(hs.last())]
        } else {
            Seq::empty()
        }
    }
}

fn is_reported(k: &str) -> (r: bool)
    ensures
        r == is_reported_header(k@),
{
    text_eq(k, "content-type") || text_eq(k, "content-length") || text_eq(k, "location")
        || text_eq(k, "x-request-id") || text_eq(k, "x-correlation-id")
        || text_eq(k, "retry-after") || text_eq(k, "www-authenticate")
}

fn line_of(k: &str, v: &str) -> (s: String)
    ensures
        s@ == header_line((k@, v@)),
{
    let mut s = String::new();
    push_str(&mut s, k);
    push_str(&mut s, ": ");
    push_str(&mut s, v);
    s
}

/// The headers as `name: value` lines joined by newlines.
pub fn headers_text(hs: &Vec<(String, String)>) -> (s: String)
    ensures
        s@ == join_lines(header_lines(pairs_view(hs@))),
{
    let mut lines: Vec<String> = Vec::new();
    let n = hs.len();
    let mut i: usize = 0;
    while i < n
        invariant
            n == hs@.len(),
            i <= n,
            texts_view(lines@) == header_lines(pairs_view(hs@)).take(i as int),
        decreases n - i,
    {
        let ghost prev = lines@;
        let l = line_of(hs[i].0.as_str(), hs[i].1.as_str());
        lines.push(l);
        assert(texts_view(lines@) =~= texts_view(prev).push(l@));
        assert(header_lines(pairs_view(hs@)).take(i + 1) =~= header_lines(pairs_view(hs@)).take(i as int).push(l@));
        i = i + 1;
    }
    assert(header_lines(pairs_view(hs@)).take(n as int) =~= header_lines(pairs_view(hs@)));
    join_with_newlines(&lines)
}

/// The reported response headers as `name: value` lines joined by newlines.
pub fn reported_headers_text(hs: &Vec<(String, String)>) -> (s: String)
    ensures
        s@ == join_lines(reported_lines(pairs_view(hs@))),
{
    let mut lines: Vec<String> = Vec::new();
    let n = hs.len();
    let mut i: usize = 0;
    while i < n
        invariant
            n == hs@.len(),
            i <= n,
            texts_view(lines@) == reported_lines(pairs_view(hs@).take(i as int)),
        decreases n - i,
    {
        let ghost prev = lines@;
        proof {
            assert(pairs_view(hs@).take(i + 1).drop_last() =~= pairs_view(hs@).take(i as int));
            assert(pairs_view(hs@).take(i + 1).last() == (hs@[i as int].0@, hs@[i as int].1@));
        }
        if is_reported(hs[i].0.as_str()) {
            let l = line_of(hs[i].0.as_str(), hs[i].1.as_str());
            lines.push(l);
            assert(texts_view(lines@) =~= texts_view(prev).push(l@));
        }
        i = i + 1;
    }
    assert(pairs_view(hs@).take(n as int) =~= pairs_view(hs@));
    join_with_newlines(&lines)
}

/// Whether a body of `total` characters is cut down to `max_body`
/// characters (`0` means no limit).
pub open spec fn truncates(total: nat, max_body: usize) -> bool {
    max_body > 0 && total > max_body
}

/// The notice that follows a truncated body of `total` characters.
pub open spec fn truncation_notice(total: nat) -> Seq<char> {
    "\n[TRUNCADO: "@ + decimal(total) + " chars. Usa body_limit=0 para ver completo.]"@
}

/// The reported body: its first `max_body` characters and a notice when it
/// is longer, the whole body otherwise.
pub open spec fn reported_body(raw: Seq<char>, max_body: usize) -> Seq<char> {
    if truncates(raw.len(), max_body) {
        raw.take(max_body as int) + truncation_notice(raw.len())
    } else {
        raw
    }
}

/// The text of a status: its reason phrase, `Unknown` when it has none.
pub open spec fn status_text_of(code: u16) -> Seq<char> {
    match canonical_reason_of(code) {
        Some(r) => r,
        None => "Unknown"@,
    }
}

/// Builds the result of a request that was answered: `status` with its
/// reason phrase, the body cut to `max_body` characters (`0` for no limit) with
/// a notice, the sent headers and the notable response headers as text.
pub fn finish_item(
    prepared: PreparedRequest,
    status: u16,
    elapsed_ms: u128,
    raw_body: String,
    response_headers: &Vec<(String, String)>,
    max_body: usize,
) -> (r: SingleRunResult)
    ensures
        r.name@ == prepared.name@,
        r.method@ == prepared.method@,
        r.url@ == prepared.url@,
        r.status == status,
        r.status_text@ == status_text_of(status),
        r.elapsed_ms == elapsed_ms,
        r.passed == (200 <= status && status < 300),
        r.body_total_chars == raw_body@.len(),
        r.body_truncated == truncates(raw_body@.len(), max_body),
        r.response_body@ == reported_body(raw_body@, max_body),
        r.request_headers_sent@ == join_lines(header_lines(pairs_view(prepared.headers@))),
        r.response_headers@ == join_lines(reported_lines(pairs_view(response_headers@))),
        r.error is None,
{
    let status_text = match canonical_reason(status) {
        Some(t) => t,
        None => {
            let mut t = String::new();
            push_str(&mut t, "Unknown");
            t
        },
    };
    let passed = 200 <= status && status < 300;
    let cs = chars_of(raw_body.as_str());
    let total_chars = cs.len();
    let truncated = max_body > 0 && total_chars > max_body;
    let body_text = if truncated {
        let mut t = String::new();
        let mut i: usize = 0;
        while i < max_body
            invariant
                cs@ == raw_body@,
                total_chars == cs@.len(),
                max_body < total_chars,
                i <= max_body,
                t@ == cs@.take(i as int),
            decreases max_body - i,
        {
            push_char(&mut t, cs[i]);
            proof {
                assert(cs@.take(i + 1) =~= cs@.take(i as int).push(cs@[i as int]));
            }
            i = i + 1;
        }
        push_str(&mut t, "\n[TRUNCADO: ");
        let digits = decimal_text(total_chars as u64);
        push_str(&mut t, digits.as_str());
        push_str(&mut t, " chars. Usa body_limit=0 para ver completo.]");
        t
    } else {
        raw_body
    };
    let sent = headers_text(&prepared.headers);
    let resp = reported_headers_text(response_headers);
    SingleRunResult {
        name: prepared.name,
        method: prepared.method,
        url: prepared.url,
        status,
        status_text,
        elapsed_ms,
        passed,
        response_body: body_text,
        body_truncated: truncated,
        body_total_chars: total_chars,
        request_headers_sent: sent,
        response_headers: resp,
        error: None,
    }
}

/// `key` read from an entry, `false` when absent or not a boolean.
pub open spec fn flag(entry: Json, key: Seq<char>) -> bool {
    entry.get_bool(key) == Some(true)
}

/// `:key`, the path-parameter form of a variable.
pub open spec fn colon_param(key: Seq<char>) -> Seq<char> {
    seq![':'] + key
}

/// The URL after substituting each path variable that has a string key and
/// value: first `:key`, then `{{key}}`, by its resolved value.
pub open spec fn apply_path_vars(url: Seq<char>, pvs: Seq<Json>, vars: Map<Seq<char>, Seq<char>>) -> Seq<char>
    decreases pvs.len(),
{
    if pvs.len() == 0 {
        url
    } else {
        let next = match (pvs[0].get_str("key"@), pvs[0].get_str("value"@)) {
            (Some(k), Some(v)) => {
                let rv = resolve_spec(v, vars);
                crate::text::replace_spec(
                    crate::text::replace_spec(url, colon_param(k), rv),
                    crate::utils::vars::placeholder(k),
                    rv,
                )
            },
            _ => url,
        };
        apply_path_vars(next, pvs.drop_first(), vars)
    }
}

/// The enabled entries of a parameter list that have a string key, as
/// (key, resolved value) with a missing value read as empty.
pub open spec fn param_pairs(arr: Seq<Json>, vars: Map<Seq<char>, Seq<char>>) -> Seq<(Seq<char>, Seq<char>)>
    decreases arr.len(),
{
    if arr.len() == 0 {
        Seq::empty()
    } else {
        let e = arr.last();
        param_pairs(arr.drop_last(), vars) + if !flag(e, "disabled"@) && e.get_str("key"@) is Some {
            seq![(e.get_str("key"@)->0, resolve_spec(value_or_empty(e), vars))]
        } else {
            Seq::empty()
        }
    }
}

/// The string `"value"` of an entry, empty when absent.
pub open spec fn value_or_empty(e: Json) -> Seq<char> {
    match e.get_str("value"@) {
        Some(v) => v,
        None => Seq::empty(),
    }
}

/// The enabled headers with a string key and a string value, as
/// (key, resolved value).
pub open spec fn header_pairs(hs: Seq<Json>, vars: Map<Seq<char>, Seq<char>>) -> Seq<(Seq<char>, Seq<char>)>
    decreases hs.len(),
{
    if hs.len() == 0 {
        Seq::empty()
    } else {
        let h = hs.last();
        header_pairs(hs.drop_last(), vars) + if !flag(h, "disabled"@) && h.get_str("key"@) is Some
            && h.get_str("value"@) is Some {
            seq![(h.get_str("key"@)->0, resolve_spec(h.get_str("value"@)->0, vars))]
        } else {
            Seq::empty()
        }
    }
}

/// A header entry that is sent: not disabled, with a string name and value.
pub open spec fn sendable_header(h: Json) -> bool {
    &&& h.get_bool("disabled"@) != Some(true)
    &&& h.get_str("key"@) is Some
    &&& h.get_str("value"@) is Some
}

/// Headers that are all sent go out one for one, in order, each under its
/// own name and with its value resolved against the variables.
pub proof fn law_headers_sent_resolved(hs: Seq<Json>, vars: Map<Seq<char>, Seq<char>>)
    requires
        forall|i: int| 0 <= i < hs.len() ==> sendable_header(#[trigger] hs[i]),
    ensures
        header_pairs(hs, vars).len() == hs.len(),
        forall|i: int| 0 <= i < hs.len() ==> #[trigger] header_pairs(hs, vars)[i]
            == (hs[i].get_str("key"@)->0, resolve_spec(hs[i].get_str("value"@)->0, vars)),
    decreases hs.len(),
{
    if hs.len() > 0 {
        let p = hs.drop_last();
        assert forall|i: int| 0 <= i < p.len() implies sendable_header(#[trigger] p[i]) by {
            assert(p[i] == hs[i]);
        }
        law_headers_sent_resolved(p, vars);
        assert(sendable_header(hs[hs.len() - 1]));
        assert forall|i: int| 0 <= i < hs.len() implies #[trigger] header_pairs(hs, vars)[i]
            == (hs[i].get_str("key"@)->0, resolve_spec(hs[i].get_str("value"@)->0, vars)) by {
            if i < p.len() {
                assert(p[i] == hs[i]);
            }
        }
    }
}

/// A sent header whose value is the placeholder of a variable goes out with
/// that variable's value (when no shorter name of the variables begins it).
pub proof fn law_header_placeholder_sends_value(hs: Seq<Json>, vars: Map<Seq<char>, Seq<char>>, i: int, k: Seq<char>)
    requires
        forall|j: int| 0 <= j < hs.len() ==> sendable_header(#[trigger] hs[j]),
        0 <= i < hs.len(),
        hs[i].get_str("value"@) == Some(placeholder(k)),
        vars.contains_key(k),
        forall|t: int| 0 <= t < k.len() ==> !vars.contains_key(#[trigger] k.take(t)),
    ensures
        header_pairs(hs, vars)[i] == (hs[i].get_str("key"@)->0, vars[k]),
{
    law_headers_sent_resolved(hs, vars);
    law_placeholder_resolves(k, vars);
}

/// The headers a request is prepared with: when every header of its
/// definition is sent, each goes out one for one, in order, under its own name
/// and with its value resolved against the variables.
pub proof fn law_prepared_headers_resolved(req: RequestDetail, vars: Map<Seq<char>, Seq<char>>)
    requires
        req.header is Some,
        forall|i: int| 0 <= i < req.header->0@.len() ==> sendable_header(#[trigger] req.header->0@[i].view_json()),
    ensures
        prepared_headers(req, vars).len() == req.header->0@.len(),
        forall|i: int| 0 <= i < req.header->0@.len() ==> #[trigger] prepared_headers(req, vars)[i]
            == (req.header->0@[i].view_json().get_str("key"@)->0,
                resolve_spec(req.header->0@[i].view_json().get_str("value"@)->0, vars)),
{
    let hs = view_values(req.header->0@);
    lemma_view_values(req.header->0@);
    assert forall|i: int| 0 <= i < hs.len() implies sendable_header(#[trigger] hs[i]) by {
        assert(hs[i] == req.header->0@[i].view_json());
    }
    law_headers_sent_resolved(hs, vars);
    assert forall|i: int| 0 <= i < req.header->0@.len() implies #[trigger] prepared_headers(req, vars)[i]
        == (req.header->0@[i].view_json().get_str("key"@)->0,
            resolve_spec(req.header->0@[i].view_json().get_str("value"@)->0, vars)) by {
        assert(hs[i] == req.header->0@[i].view_json());
    }
}

/// The enabled text fields of a multipart form, as (key, resolved value);
/// a field's key defaults to empty and its type to `text`.
pub open spec fn form_text_fields(fs: Seq<Json>, vars: Map<Seq<char>, Seq<char>>) -> Seq<(Seq<char>, Seq<char>)>
    decreases fs.len(),
{
    if fs.len() == 0 {
        Seq::empty()
    } else {
        let f = fs.last();
        let key = match f.get_str("key"@) {
            Some(k) => k,
            None => Seq::empty(),
        };
        let is_text = match f.get_str("type"@) {
            Some(t) => t == "text"@,
            None => true,
        };
        form_text_fields(fs.drop_last(), vars) + if !flag(f, "disabled"@) && is_text {
            seq![(key, resolve_spec(value_or_empty(f), vars))]
        } else {
            Seq::empty()
        }
    }
}

/// The model of a body plan.
pub enum BodyModel {
    Empty,
    Text { content_type: Option<Seq<char>>, text: Seq<char> },
    UrlEncoded(Seq<(Seq<char>, Seq<char>)>),
    Multipart(Seq<(Seq<char>, Seq<char>)>),
}

pub open spec fn body_view(b: BodyPlan) -> BodyModel {
    match b {
        BodyPlan::Empty => BodyModel::Empty,
        BodyPlan::Text { content_type, text } => BodyModel::Text {
            content_type: match content_type {
                Some(c) => Some(c@),
                None => None,
            },
            text: text@,
        },
        BodyPlan::UrlEncoded(ps) => BodyModel::UrlEncoded(pairs_view(ps@)),
        BodyPlan::Multipart(ps) => BodyModel::Multipart(pairs_view(ps@)),
    }
}

/// The `language` of a raw body (`options.raw.language`), empty when absent.
pub open spec fn raw_language(body: Json) -> Seq<char> {
    match body.get("options"@) {
        Some(o) => match o.get("raw"@) {
            Some(r) => match r.get_str("language"@) {
                Some(l) => l,
                None => Seq::empty(),
            },
            None => Seq::empty(),
        },
        None => Seq::empty(),
    }
}

/// The JSON payload of a GraphQL body: the query as a JSON string and the
/// variables text as it stands (`{}` when absent).
pub open spec fn graphql_payload(g: Json) -> Seq<char> {
    let query = match g.get_str("query"@) {
        Some(q) => q,
        None => Seq::empty(),
    };
    let variables = match g.get_str("variables"@) {
        Some(v) => v,
        None => "{}"@,
    };
    "{\"query\":"@ + crate::outside::json_string_literal_of(query) + ",\"variables\":"@ + variables + "}"@
}

/// What a Postman body definition sends, by its `mode`: `raw` (resolved, with
/// a JSON or XML content type by `options.raw.language`), `urlencoded`,
/// `formdata` (text fields only), `graphql` (not resolved); nothing otherwise.
pub open spec fn body_plan(body: Json, vars: Map<Seq<char>, Seq<char>>) -> BodyModel {
    let mode = match body.get_str("mode"@) {
        Some(m) => m,
        None => Seq::empty(),
    };
    if mode == "raw"@ {
        match body.get_str("raw"@) {
            Some(raw) => {
                let text = resolve_spec(raw, vars);
                let lang = raw_language(body);
                if lang == "json"@ {
                    BodyModel::Text { content_type: Some("application/json"@), text }
                } else if lang == "xml"@ {
                    BodyModel::Text { content_type: Some("application/xml"@), text }
                } else {
                    BodyModel::Text { content_type: None, text }
                }
            },
            None => BodyModel::Empty,
        }
    } else if mode == "urlencoded"@ {
        match body.get_array("urlencoded"@) {
            Some(fs) => BodyModel::UrlEncoded(param_pairs(fs, vars)),
            None => BodyModel::Empty,
        }
    } else if mode == "formdata"@ {
        match body.get_array("formdata"@) {
            Some(fs) => BodyModel::Multipart(form_text_fields(fs, vars)),
            None => BodyModel::Empty,
        }
    } else if mode == "graphql"@ {
        match body.get("graphql"@) {
            Some(g) => BodyModel::Text { content_type: Some("application/json"@), text: graphql_payload(g) },
            None => BodyModel::Empty,
        }
    } else {
        BodyModel::Empty
    }
}

/// Substitutes the path variables of a URL object into `url`.
pub fn resolve_path_vars(url: String, pvars: &Vec<JsonValue>, vars: &Variables) -> (out: String)
    ensures
        out@ == apply_path_vars(url@, view_values(pvars@), vars.view_map()),
{
    let ghost model = view_values(pvars@);
    proof {
        lemma_view_values(pvars@);
        assert(model.skip(0) =~= model);
    }
    let mut url = url;
    let ghost start = url@;
    let n = pvars.len();
    let mut i: usize = 0;
    while i < n
        invariant
            n == pvars@.len(),
            model == view_values(pvars@),
            model.len() == n,
            forall|j: int| 0 <= j < n ==> #[trigger] model[j] == pvars@[j].view_json(),
            i <= n,
            apply_path_vars(url@, model.skip(i as int), vars.view_map()) == apply_path_vars(start, model, vars.view_map()),
        decreases n - i,
    {
        let ghost rest = model.skip(i as int);
        proof {
            assert(rest[0] == model[i as int]);
            assert(rest.drop_first() =~= model.skip(i + 1));
        }
        let pv = &pvars[i];
        match (pv.get_str("key"), pv.get_str("value")) {
            (Some(k), Some(v)) => {
                let rv = resolve_vars(v.as_str(), vars);
                let mut colon = String::new();
                push_str(&mut colon, ":");
                push_str(&mut colon, k.as_str());
                proof {
                    reveal_strlit(":");
                    assert(colon@ =~= colon_param(k@));
                }
                url = crate::text::replace_all(url.as_str(), colon.as_str(), rv.as_str());
                let ph = crate::utils::vars::placeholder_of(k.as_str());
                url = crate::text::replace_all(url.as_str(), ph.as_str(), rv.as_str());
            },
            _ => {},
        }
        i = i + 1;
    }
    url
}

/// The enabled query parameters of a URL object, values resolved.
pub fn query_params(arr: &Vec<JsonValue>, vars: &Variables) -> (out: Vec<(String, String)>)
    ensures
        pairs_view(out@) == param_pairs(view_values(arr@), vars.view_map()),
{
    let ghost model = view_values(arr@);
    proof {
        lemma_view_values(arr@);
        reveal_strlit("");
    }
    let mut out: Vec<(String, String)> = Vec::new();
    let n = arr.len();
    let mut i: usize = 0;
    while i < n
        invariant
            n == arr@.len(),
            model == view_values(arr@),
            model.len() == n,
            forall|j: int| 0 <= j < n ==> #[trigger] model[j] == arr@[j].view_json(),
            i <= n,
            pairs_view(out@) == param_pairs(model.take(i as int), vars.view_map()),
            ""@ == Seq::<char>::empty(),
        decreases n - i,
    {
        let ghost prev = out@;
        proof {
            assert(model.take(i + 1).drop_last() =~= model.take(i as int));
            assert(model.take(i + 1).last() == model[i as int]);
        }
        let e = &arr[i];
        let disabled = match e.get_bool("disabled") {
            Some(b) => b,
            None => false,
        };
        if !disabled {
            match e.get_str("key") {
                Some(k) => {
                    let v = match e.get_str("value") {
                        Some(v) => resolve_vars(v.as_str(), vars),
                        None => resolve_vars("", vars),
                    };
                    out.push((k.clone(), v));
                    assert(pairs_view(out@) =~= pairs_view(prev).push((k@, v@)));
                },
                None => {},
            }
        }
        i = i + 1;
    }
    assert(model.take(n as int) =~= model);
    out
}

/// The enabled headers of a request definition with string key and value, values resolved.
pub fn request_headers(hs: &Vec<JsonValue>, vars: &Variables) -> (out: Vec<(String, String)>)
    ensures
        pairs_view(out@) == header_pairs(view_values(hs@), vars.view_map()),
{
    let ghost model = view_values(hs@);
    proof {
        lemma_view_values(hs@);
    }
    let mut out: Vec<(String, String)> = Vec::new();
    let n = hs.len();
    let mut i: usize = 0;
    while i < n
        invariant
            n == hs@.len(),
            model == view_values(hs@),
            model.len() == n,
            forall|j: int| 0 <= j < n ==> #[trigger] model[j] == hs@[j].view_json(),
            i <= n,
            pairs_view(out@) == header_pairs(model.take(i as int), vars.view_map()),
        decreases n - i,
    {
        let ghost prev = out@;
        proof {
            assert(model.take(i + 1).drop_last() =~= model.take(i as int));
            assert(model.take(i + 1).last() == model[i as int]);
        }
        let h = &hs[i];
        let disabled = match h.get_bool("disabled") {
            Some(b) => b,
            None => false,
        };
        if !disabled {
            match (h.get_str("key"), h.get_str("value")) {
                (Some(k), Some(v)) => {
                    let rv = resolve_vars(v.as_str(), vars);
                    out.push((k.clone(), rv));
                    assert(pairs_view(out@) =~= pairs_view(prev).push((k@, rv@)));
                },
                _ => {},
            }
        }
        i = i + 1;
    }
    assert(model.take(n as int) =~= model);
    out
}

/// The enabled text fields of a multipart form, values resolved.
pub fn form_fields(fs: &Vec<JsonValue>, vars: &Variables) -> (out: Vec<(String, String)>)
    ensures
        pairs_view(out@) == form_text_fields(view_values(fs@), vars.view_map()),
{
    let ghost model = view_values(fs@);
    proof {
        lemma_view_values(fs@);
        reveal_strlit("");
    }
    let mut out: Vec<(String, String)> = Vec::new();
    let n = fs.len();
    let mut i: usize = 0;
    while i < n
        invariant
            n == fs@.len(),
            model == view_values(fs@),
            model.len() == n,
            forall|j: int| 0 <= j < n ==> #[trigger] model[j] == fs@[j].view_json(),
            i <= n,
            pairs_view(out@) == form_text_fields(model.take(i as int), vars.view_map()),
            ""@ == Seq::<char>::empty(),
        decreases n - i,
    {
        let ghost prev = out@;
        proof {
            assert(model.take(i + 1).drop_last() =~= model.take(i as int));
            assert(model.take(i + 1).last() == model[i as int]);
        }
        let f = &fs[i];
        let disabled = match f.get_bool("disabled") {
            Some(b) => b,
            None => false,
        };
        let is_text = match f.get_str("type") {
            Some(t) => text_eq(t.as_str(), "text"),
            None => true,
        };
        if !disabled && is_text {
            let key = match f.get_str("key") {
                Some(k) => k.clone(),
                None => String::new(),
            };
            let v = match f.get_str("value") {
                Some(v) => resolve_vars(v.as_str(), vars),
                None => resolve_vars("", vars),
            };
            out.push((key, v));
            assert(pairs_view(out@) =~= pairs_view(prev).push((key@, v@)));
        }
        i = i + 1;
    }
    assert(model.take(n as int) =~= model);
    out
}

/// The GraphQL payload of a `graphql` body block.
fn graphql_body(g: &JsonValue) -> (out: String)
    ensures
        out@ == graphql_payload(g.view_json()),
{
    proof {
        reveal_strlit("");
    }
    let qs = g.get_str("query");
    let query = match qs {
        Some(q) => crate::outside::json_string_literal(q.as_str()),
        None => {
            let e = String::new();
            crate::outside::json_string_literal(e.as_str())
        },
    };
    let ghost gq = g.view_json().get_str("query"@);
    let ghost q = match gq {
        Some(q) => q,
        None => Seq::<char>::empty(),
    };
    assert(query@ == crate::outside::json_string_literal_of(q));
    let vs = g.get_str("variables");
    let variables = match vs {
        Some(v) => owned(v.as_str()),
        None => owned("{}"),
    };
    let ghost v = match g.view_json().get_str("variables"@) {
        Some(v) => v,
        None => "{}"@,
    };
    assert(variables@ == v);
    let mut out = String::new();
    push_str(&mut out, "{\"query\":");
    push_str(&mut out, query.as_str());
    push_str(&mut out, ",\"variables\":");
    push_str(&mut out, variables.as_str());
    push_str(&mut out, "}");
    assert(out@ =~= "{\"query\":"@ + crate::outside::json_string_literal_of(q) + ",\"variables\":"@ + v + "}"@);
    out
}

/// Decides what a Postman body definition sends (see `body_plan`).
pub fn apply_body(body: &JsonValue, vars: &Variables) -> (plan: BodyPlan)
    ensures
        body_view(plan) == body_plan(body.view_json(), vars.view_map()),
{
    let (is_raw, is_urlencoded, is_formdata, is_graphql) = match body.get_str("mode") {
        Some(m) => (
            text_eq(m.as_str(), "raw"),
            text_eq(m.as_str(), "urlencoded"),
            text_eq(m.as_str(), "formdata"),
            text_eq(m.as_str(), "graphql"),
        ),
        None => {
            proof {
                reveal_strlit("");
                reveal_strlit("raw");
                reveal_strlit("urlencoded");
                reveal_strlit("formdata");
                reveal_strlit("graphql");
            }
            (false, false, false, false)
        },
    };
    if is_raw {
        match body.get_str("raw") {
            Some(raw) => {
                let text = resolve_vars(raw.as_str(), vars);
                let lang: Option<&String> = match body.get("options") {
                    Some(o) => match o.get("raw") {
                        Some(r) => r.get_str("language"),
                        None => None,
                    },
                    None => None,
                };
                let (is_json, is_xml) = match lang {
                    Some(l) => (text_eq(l.as_str(), "json"), text_eq(l.as_str(), "xml")),
                    None => {
                        proof {
                            reveal_strlit("");
                            reveal_strlit("json");
                            reveal_strlit("xml");
                        }
                        (false, false)
                    },
                };
                if is_json {
                    BodyPlan::Text { content_type: Some(owned("application/json")), text }
                } else if is_xml {
                    BodyPlan::Text { content_type: Some(owned("application/xml")), text }
                } else {
                    BodyPlan::Text { content_type: None, text }
                }
            },
            None => BodyPlan::Empty,
        }
    } else if is_urlencoded {
        match body.get_array("urlencoded") {
            Some(fs) => {
                assert(body_plan(body.view_json(), vars.view_map()) == BodyModel::UrlEncoded(param_pairs(view_values(fs@), vars.view_map())));
                BodyPlan::UrlEncoded(query_params(fs, vars))
            },
            None => BodyPlan::Empty,
        }
    } else if is_formdata {
        match body.get_array("formdata") {
            Some(fs) => {
                assert(body_plan(body.view_json(), vars.view_map()) == BodyModel::Multipart(form_text_fields(view_values(fs@), vars.view_map())));
                BodyPlan::Multipart(form_fields(fs, vars))
            },
            None => BodyPlan::Empty,
        }
    } else if is_graphql {
        match body.get("graphql") {
            Some(g) => {
                assert(body_plan(body.view_json(), vars.view_map()) == BodyModel::Text {
                    content_type: Some("application/json"@),
                    text: graphql_payload(g.view_json()),
                });
                BodyPlan::Text { content_type: Some(owned("application/json")), text: graphql_body(g) }
            },
            None => BodyPlan::Empty,
        }
    } else {
        BodyPlan::Empty
    }
}

/// The method of a request definition, `GET` when it has none.
pub open spec fn method_of(req: RequestDetail) -> Seq<char> {
    match req.method {
        Some(m) => m@,
        None => "GET"@,
    }
}

/// The URL object of a request definition.
pub open spec fn url_object(req: RequestDetail) -> Json {
    match req.url {
        Some(u) => u.view_json(),
        None => Json::Null,
    }
}

/// The final URL: `raw` resolved, then the path variables substituted.
pub open spec fn prepared_url(req: RequestDetail, vars: Map<Seq<char>, Seq<char>>) -> Seq<char> {
    let u = url_object(req);
    let raw = match u.get_str("raw"@) {
        Some(r) => r,
        None => Seq::empty(),
    };
    let url = resolve_spec(raw, vars);
    match u.get_array("variable"@) {
        Some(pvs) => apply_path_vars(url, pvs, vars),
        None => url,
    }
}

/// The query parameters that the URL object adds.
pub open spec fn prepared_query(req: RequestDetail, vars: Map<Seq<char>, Seq<char>>) -> Seq<(Seq<char>, Seq<char>)> {
    match url_object(req).get_array("query"@) {
        Some(q) => param_pairs(q, vars),
        None => Seq::empty(),
    }
}

/// The headers of the request definition that are sent.
pub open spec fn prepared_headers(req: RequestDetail, vars: Map<Seq<char>, Seq<char>>) -> Seq<(Seq<char>, Seq<char>)> {
    match req.header {
        Some(hs) => header_pairs(view_values(hs@), vars),
        None => Seq::empty(),
    }
}

/// The body that the request definition sends.
pub open spec fn prepared_body(req: RequestDetail, vars: Map<Seq<char>, Seq<char>>) -> BodyModel {
    match req.body {
        Some(b) => body_plan(b.view_json(), vars),
        None => BodyModel::Empty,
    }
}

/// Why an item cannot be sent, as (method, url, message), if it cannot.
pub open spec fn prepare_error(item: CollectionItem, vars: Map<Seq<char>, Seq<char>>) -> Option<(Seq<char>, Seq<char>, Seq<char>)> {
    match item.request {
        None => Some((Seq::empty(), Seq::empty(), "Item is a folder, not a request"@)),
        Some(req) => match req.url {
            None => Some((method_of(req), Seq::empty(), "Request has no URL"@)),
            Some(u) => match u.view_json().get_str("raw"@) {
                None => Some((method_of(req), Seq::empty(), "URL missing 'raw' field"@)),
                Some(_) => if !valid_method(method_of(req)) {
                    Some((method_of(req), prepared_url(req, vars), "Invalid HTTP method: invalid HTTP method"@))
                } else {
                    None
                },
            },
        },
    }
}

/// The authentication of an item can be encoded (see `base64_fits`).
pub open spec fn auth_fits(item: CollectionItem, collection_auth: Option<Json>, vars: Map<Seq<char>, Seq<char>>) -> bool {
    match item.request {
        Some(req) => basic_credential(opt_view(req.auth), collection_auth, vars) matches Some(c) ==> base64_fits(c),
        None => true,
    }
}

/// `r` is the result of a request that failed before sending, with these fields.
pub open spec fn is_error_result(r: SingleRunResult, name: Seq<char>, method: Seq<char>, url: Seq<char>, msg: Seq<char>) -> bool {
    &&& r.name@ == name
    &&& r.method@ == method
    &&& r.url@ == url
    &&& r.status == 0
    &&& r.status_text@ == Seq::<char>::empty()
    &&& r.elapsed_ms == 0
    &&& !r.passed
    &&& r.response_body@ == Seq::<char>::empty()
    &&& !r.body_truncated
    &&& r.body_total_chars == 0
    &&& r.request_headers_sent@ == Seq::<char>::empty()
    &&& r.response_headers@ == Seq::<char>::empty()
    &&& r.error matches Some(e) && e@ == msg
}

/// Prepares an item of a collection for sending: the method (`GET` by
/// default), the URL with variables and path variables resolved, the enabled
/// query parameters and headers, the authentication (the collection's when
/// the request has none or uses `noauth`) and the body. An item that is a
/// folder, has no URL or no `raw` URL, or has a method HTTP refuses, gives
/// the error result instead.
pub fn prepare_item(item: &CollectionItem, vars: &Variables, collection_auth: Option<&JsonValue>) -> (r: Result<PreparedRequest, SingleRunResult>)
    requires
        auth_fits(*item, opt_json(collection_auth), vars.view_map()),
    ensures
        match r {
            Ok(p) => {
                &&& prepare_error(*item, vars.view_map()) is None
                &&& item.request matches Some(req) && {
                    &&& p.name@ == item.name@
                    &&& p.method@ == method_of(req)
                    &&& p.url@ == prepared_url(req, vars.view_map())
                    &&& pairs_view(p.query@) == prepared_query(req, vars.view_map())
                    &&& pairs_view(p.headers@) == prepared_headers(req, vars.view_map())
                    &&& opt_pair(p.auth.header) == auth_header(opt_view(req.auth), opt_json(collection_auth), vars.view_map())
                    &&& opt_pair(p.auth.apikey_query) == auth_query(opt_view(req.auth), opt_json(collection_auth), vars.view_map())
                    &&& body_view(p.body) == prepared_body(req, vars.view_map())
                }
            },
            Err(e) => prepare_error(*item, vars.view_map()) matches Some((m, u, msg))
                && is_error_result(e, item.name@, m, u, msg),
        },
{
    let none = String::new();
    let req = match &item.request {
        Some(r) => r,
        None => return Err(err_result(item.name.as_str(), none.as_str(), none.as_str(), "Item is a folder, not a request")),
    };
    let method = match &req.method {
        Some(m) => m.clone(),
        None => owned("GET"),
    };
    let url_obj = match &req.url {
        Some(u) => u,
        None => return Err(err_result(item.name.as_str(), method.as_str(), none.as_str(), "Request has no URL")),
    };
    let raw_url = match url_obj.get_str("raw") {
        Some(u) => u,
        None => return Err(err_result(item.name.as_str(), method.as_str(), none.as_str(), "URL missing 'raw' field")),
    };
    let mut url = resolve_vars(raw_url.as_str(), vars);
    match url_obj.get_array("variable") {
        Some(pvars) => {
            url = resolve_path_vars(url, pvars, vars);
        },
        None => {},
    }
    let query = match url_obj.get_array("query") {
        Some(arr) => query_params(arr, vars),
        None => Vec::new(),
    };
    if !method_accepted(method.as_str()) {
        return Err(err_result(item.name.as_str(), method.as_str(), url.as_str(), "Invalid HTTP method: invalid HTTP method"));
    }
    let headers = match &req.header {
        Some(hs) => request_headers(hs, vars),
        None => Vec::new(),
    };
    let auth = apply_auth(req.auth.as_ref(), collection_auth, vars);
    let body = match &req.body {
        Some(b) => apply_body(b, vars),
        None => BodyPlan::Empty,
    };
    proof {
        assert(pairs_view(Seq::<(String, String)>::empty()) =~= Seq::<(Seq<char>, Seq<char>)>::empty());
    }
    Ok(PreparedRequest { name: item.name.clone(), method, url, query, headers, auth, body })
}

/// The result of a prepared request that could not be sent: the error is
/// `Network error: ` followed by what the transport reported (`cause`).
pub fn network_error(prepared: &PreparedRequest, cause: &str) -> (r: SingleRunResult)
    ensures
        is_error_result(r, prepared.name@, prepared.method@, prepared.url@, "Network error: "@ + cause@),
{
    let mut msg = owned("Network error: ");
    push_str(&mut msg, cause);
    err_result(prepared.name.as_str(), prepared.method.as_str(), prepared.url.as_str(), msg.as_str())
}

} // verus!
