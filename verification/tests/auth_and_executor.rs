use postman_mcp::json::{JsonMember, JsonValue};
use postman_mcp::models::collection::{CollectionItem, RequestDetail};
use postman_mcp::utils::auth::apply_auth;
use postman_mcp::utils::executor::{
    network_error,
    apply_body, err_result, finish_item, prepare_item, BodyPlan, PreparedRequest,
};
use postman_mcp::utils::vars::Variables;

fn to_lib(v: &serde_json::Value) -> JsonValue {
    match v {
        serde_json::Value::Null => JsonValue::Null,
        serde_json::Value::Bool(b) => JsonValue::Bool(*b),
        serde_json::Value::Number(n) => JsonValue::Number(n.to_string()),
        serde_json::Value::String(s) => JsonValue::Str(s.clone()),
        serde_json::Value::Array(a) => JsonValue::Array(a.iter().map(to_lib).collect()),
        serde_json::Value::Object(m) => JsonValue::Object(
            m.iter().map(|(k, v)| JsonMember { key: k.clone(), value: to_lib(v) }).collect(),
        ),
    }
}

fn j(text: &str) -> JsonValue {
    to_lib(&serde_json::from_str(text).unwrap())
}

fn vars(pairs: &[(&str, &str)]) -> Variables {
    let mut v = Variables::new();
    for (k, val) in pairs {
        v.insert(k.to_string(), val.to_string());
    }
    v
}

fn pair(p: &Option<(String, String)>) -> Option<(&str, &str)> {
    p.as_ref().map(|(a, b)| (a.as_str(), b.as_str()))
}

fn item_with(method: Option<&str>, url: Option<JsonValue>, header: Option<Vec<JsonValue>>, body: Option<JsonValue>) -> CollectionItem {
    CollectionItem {
        name: "Create".to_string(),
        id: None,
        item: None,
        request: Some(RequestDetail {
            method: method.map(|m| m.to_string()),
            url,
            header,
            body,
            description: None,
            auth: None,
        }),
    }
}

fn array(text: &str) -> Vec<JsonValue> {
    match j(text) {
        JsonValue::Array(a) => a,
        _ => unreachable!(),
    }
}

#[test]
fn basic_auth_encodes_credentials() {
    let auth = j(r#"{"type":"basic","basic":[{"key":"username","value":"{{user}}"},{"key":"password","value":"pass"}]}"#);
    let r = apply_auth(Some(&auth), None, &vars(&[("user", "user")]));
    assert_eq!(pair(&r.header), Some(("Authorization", "Basic dXNlcjpwYXNz")));
    assert_eq!(r.apikey_query, None);
}

#[test]
fn digest_auth_is_sent_as_basic() {
    let auth = j(r#"{"type":"digest","digest":[{"key":"username","value":"a"},{"key":"password","value":"b"}]}"#);
    let r = apply_auth(Some(&auth), None, &Variables::new());
    assert_eq!(pair(&r.header), Some(("Authorization", "Basic YTpi")));
}

#[test]
fn basic_auth_with_missing_fields_uses_empty_text() {
    let auth = j(r#"{"type":"basic","basic":[]}"#);
    let r = apply_auth(Some(&auth), None, &Variables::new());
    assert_eq!(pair(&r.header), Some(("Authorization", "Basic Og==")));
    let no_list = j(r#"{"type":"basic"}"#);
    let r = apply_auth(Some(&no_list), None, &Variables::new());
    assert_eq!(r.header, None);
}

#[test]
fn bearer_auth_sets_token() {
    let auth = j(r#"{"type":"bearer","bearer":[{"key":"token","value":"{{tok}}"}]}"#);
    let r = apply_auth(Some(&auth), None, &vars(&[("tok", "abc")]));
    assert_eq!(pair(&r.header), Some(("Authorization", "Bearer abc")));
}

#[test]
fn apikey_goes_to_query_or_header() {
    let q = j(r#"{"type":"apikey","apikey":[{"key":"key","value":"X-Key"},{"key":"value","value":"secret"},{"key":"in","value":"query"}]}"#);
    let r = apply_auth(Some(&q), None, &Variables::new());
    assert_eq!(r.header, None);
    assert_eq!(pair(&r.apikey_query), Some(("X-Key", "secret")));
    let h = j(r#"{"type":"apikey","apikey":[{"key":"key","value":"X-Key"},{"key":"value","value":"secret"}]}"#);
    let r = apply_auth(Some(&h), None, &Variables::new());
    assert_eq!(pair(&r.header), Some(("X-Key", "secret")));
    assert_eq!(r.apikey_query, None);
}

#[test]
fn noauth_request_falls_back_to_collection_auth() {
    let req = j(r#"{"type":"noauth"}"#);
    let col = j(r#"{"type":"bearer","bearer":[{"key":"token","value":"col"}]}"#);
    let r = apply_auth(Some(&req), Some(&col), &Variables::new());
    assert_eq!(pair(&r.header), Some(("Authorization", "Bearer col")));
    let r = apply_auth(None, Some(&col), &Variables::new());
    assert_eq!(pair(&r.header), Some(("Authorization", "Bearer col")));
    let own = j(r#"{"type":"bearer","bearer":[{"key":"token","value":"own"}]}"#);
    let r = apply_auth(Some(&own), Some(&col), &Variables::new());
    assert_eq!(pair(&r.header), Some(("Authorization", "Bearer own")));
}

#[test]
fn unknown_or_missing_auth_adds_nothing() {
    let r = apply_auth(None, None, &Variables::new());
    assert_eq!(r.header, None);
    assert_eq!(r.apikey_query, None);
    let o = j(r#"{"type":"oauth2"}"#);
    let r = apply_auth(Some(&o), None, &Variables::new());
    assert_eq!(r.header, None);
}

#[test]
fn prepare_item_resolves_url_query_headers_and_body() {
    let url = j(r#"{"raw":"{{base}}/users/:id","variable":[{"key":"id","value":"{{uid}}"}],"query":[{"key":"a","value":"{{x}}"},{"key":"b","value":"2","disabled":true},{"key":"c"}]}"#);
    let headers = array(r#"[{"key":"Accept","value":"application/json"},{"key":"X-Off","value":"1","disabled":true},{"key":"NoValue"}]"#);
    let body = j(r#"{"mode":"raw","raw":"{\"id\": {{uid}}}","options":{"raw":{"language":"json"}}}"#);
    let item = item_with(Some("post"), Some(url), Some(headers), Some(body));
    let v = vars(&[("base", "http://h"), ("uid", "42"), ("x", "1")]);
    let p = match prepare_item(&item, &v, None) {
        Ok(p) => p,
        Err(e) => panic!("unexpected error {:?}", e.error),
    };
    assert_eq!(p.name, "Create");
    assert_eq!(p.method, "post");
    assert_eq!(p.url, "http://h/users/42");
    assert_eq!(p.query, vec![("a".to_string(), "1".to_string()), ("c".to_string(), String::new())]);
    assert_eq!(p.headers, vec![("Accept".to_string(), "application/json".to_string())]);
    assert_eq!(p.body, BodyPlan::Text { content_type: Some("application/json".to_string()), text: "{\"id\": 42}".to_string() });
}

#[test]
fn prepare_item_replaces_braced_path_variables() {
    let url = j(r#"{"raw":"http://h/{{id}}/x","variable":[{"key":"id","value":"7"}]}"#);
    let item = item_with(None, Some(url), None, None);
    let p = prepare_item(&item, &Variables::new(), None).ok().unwrap();
    assert_eq!(p.method, "GET");
    assert_eq!(p.url, "http://h/7/x");
    assert_eq!(p.body, BodyPlan::Empty);
}

#[test]
fn prepare_item_reports_each_error() {
    let folder = CollectionItem { name: "F".to_string(), id: None, item: Some(vec![]), request: None };
    let e = prepare_item(&folder, &Variables::new(), None).err().unwrap();
    assert_eq!(e.error.as_deref(), Some("Item is a folder, not a request"));
    assert_eq!((e.name.as_str(), e.method.as_str(), e.url.as_str(), e.status, e.passed), ("F", "", "", 0, false));

    let no_url = item_with(None, None, None, None);
    let e = prepare_item(&no_url, &Variables::new(), None).err().unwrap();
    assert_eq!(e.error.as_deref(), Some("Request has no URL"));
    assert_eq!(e.method, "GET");

    let no_raw = item_with(Some("PUT"), Some(j(r#"{"host":["h"]}"#)), None, None);
    let e = prepare_item(&no_raw, &Variables::new(), None).err().unwrap();
    assert_eq!(e.error.as_deref(), Some("URL missing 'raw' field"));
    assert_eq!(e.method, "PUT");

    let bad_method = item_with(Some("GE T"), Some(j(r#"{"raw":"http://h/{{p}}"}"#)), None, None);
    let e = prepare_item(&bad_method, &Variables::new(), None).err().unwrap();
    assert_eq!(e.error.as_deref(), Some("Invalid HTTP method: invalid HTTP method"));
    assert_eq!(e.url, "http://h/{{p}}");
}

#[test]
fn apply_body_modes() {
    let v = vars(&[("n", "5")]);
    let form = j(r#"{"mode":"urlencoded","urlencoded":[{"key":"a","value":"{{n}}"},{"key":"b","disabled":true},{"value":"x"}]}"#);
    assert_eq!(apply_body(&form, &v), BodyPlan::UrlEncoded(vec![("a".to_string(), "5".to_string())]));
    let multi = j(r#"{"mode":"formdata","formdata":[{"key":"f","type":"file","src":"/x"},{"key":"t","value":"{{n}}"},{"value":"nokey"}]}"#);
    assert_eq!(
        apply_body(&multi, &v),
        BodyPlan::Multipart(vec![("t".to_string(), "5".to_string()), (String::new(), "nokey".to_string())])
    );
    let xml = j(r#"{"mode":"raw","raw":"<a>{{n}}</a>","options":{"raw":{"language":"xml"}}}"#);
    assert_eq!(apply_body(&xml, &v), BodyPlan::Text { content_type: Some("application/xml".to_string()), text: "<a>5</a>".to_string() });
    let plain = j(r#"{"mode":"raw","raw":"hi"}"#);
    assert_eq!(apply_body(&plain, &v), BodyPlan::Text { content_type: None, text: "hi".to_string() });
    assert_eq!(apply_body(&j(r#"{"mode":"file"}"#), &v), BodyPlan::Empty);
    assert_eq!(apply_body(&j(r#"{"mode":"raw"}"#), &v), BodyPlan::Empty);
}

#[test]
fn graphql_body_quotes_the_query() {
    let g = j(r#"{"mode":"graphql","graphql":{"query":"{ user(id: \"{{n}}\") { name } }"}}"#);
    assert_eq!(
        apply_body(&g, &Variables::new()),
        BodyPlan::Text {
            content_type: Some("application/json".to_string()),
            text: r#"{"query":"{ user(id: \"{{n}}\") { name } }","variables":{}}"#.to_string(),
        }
    );
    let g2 = j(r#"{"mode":"graphql","graphql":{"query":"q","variables":"{\"a\":1}"}}"#);
    assert_eq!(
        apply_body(&g2, &Variables::new()),
        BodyPlan::Text { content_type: Some("application/json".to_string()), text: r#"{"query":"q","variables":{"a":1}}"#.to_string() }
    );
}

fn prepared() -> PreparedRequest {
    PreparedRequest {
        name: "R".to_string(),
        method: "GET".to_string(),
        url: "http://h".to_string(),
        query: vec![],
        headers: vec![("Accept".to_string(), "*/*".to_string()), ("X-A".to_string(), "1".to_string())],
        auth: postman_mcp::utils::auth::AuthResult { header: None, apikey_query: None },
        body: BodyPlan::Empty,
    }
}

#[test]
fn finish_item_truncates_long_bodies() {
    let resp_headers = vec![
        ("content-type".to_string(), "text/plain".to_string()),
        ("server".to_string(), "x".to_string()),
        ("location".to_string(), "/a".to_string()),
    ];
    let r = finish_item(prepared(), 404, 12, "hello world".to_string(), &resp_headers, 5);
    assert_eq!(r.status, 404);
    assert_eq!(r.status_text, "Not Found");
    assert!(!r.passed);
    assert!(r.body_truncated);
    assert_eq!(r.body_total_chars, 11);
    assert_eq!(r.response_body, "hello\n[TRUNCADO: 11 chars. Usa body_limit=0 para ver completo.]");
    assert_eq!(r.request_headers_sent, "Accept: */*\nX-A: 1");
    assert_eq!(r.response_headers, "content-type: text/plain\nlocation: /a");
    assert_eq!(r.elapsed_ms, 12);
    assert_eq!(r.error, None);
}

#[test]
fn finish_item_keeps_short_or_unlimited_bodies() {
    let r = finish_item(prepared(), 200, 1, "hello world".to_string(), &vec![], 0);
    assert!(r.passed);
    assert_eq!(r.status_text, "OK");
    assert!(!r.body_truncated);
    assert_eq!(r.response_body, "hello world");
    assert_eq!(r.response_headers, "");
    let r = finish_item(prepared(), 299, 1, "héllo".to_string(), &vec![], 5);
    assert!(r.passed);
    assert_eq!(r.status_text, "Unknown");
    assert_eq!(r.body_total_chars, 5);
    assert!(!r.body_truncated);
    assert_eq!(r.response_body, "héllo");
    let r = finish_item(prepared(), 300, 1, "héllo".to_string(), &vec![], 2);
    assert!(!r.passed);
    assert!(r.body_truncated);
    assert_eq!(r.response_body, "hé\n[TRUNCADO: 5 chars. Usa body_limit=0 para ver completo.]");
    let r = finish_item(prepared(), 200, 1, "éé".to_string(), &vec![], 2);
    assert_eq!(r.body_total_chars, 2);
    assert!(!r.body_truncated);
    assert_eq!(r.response_body, "éé");
    let r = finish_item(prepared(), 200, 1, "é".to_string(), &vec![], 0);
    assert_eq!(r.body_total_chars, 1);
}

#[test]
fn err_result_carries_the_message() {
    let r = err_result("n", "GET", "http://u", "Network error: boom");
    assert_eq!(r.error.as_deref(), Some("Network error: boom"));
    assert_eq!((r.name.as_str(), r.method.as_str(), r.url.as_str()), ("n", "GET", "http://u"));
    assert_eq!((r.status, r.elapsed_ms, r.passed, r.body_truncated, r.body_total_chars), (0, 0, false, false, 0));
    assert!(r.status_text.is_empty() && r.response_body.is_empty() && r.response_headers.is_empty());
}

#[test]
fn network_error_prefixes_the_cause() {
    let r = network_error(&prepared(), "connection refused");
    assert_eq!(r.error.as_deref(), Some("Network error: connection refused"));
    assert_eq!((r.name.as_str(), r.method.as_str(), r.url.as_str()), ("R", "GET", "http://h"));
    assert_eq!((r.status, r.elapsed_ms, r.passed, r.body_truncated, r.body_total_chars), (0, 0, false, false, 0));
    assert!(r.response_body.is_empty() && r.request_headers_sent.is_empty() && r.response_headers.is_empty());
}
