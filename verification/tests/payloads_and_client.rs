use postman_mcp::client::http::check_status;
use postman_mcp::client::requests::collection_uuid;
use postman_mcp::client::variables::{configured_workspace_id, workspace_id_from};
use postman_mcp::client::{HttpMethod, PostmanApiClient};
use postman_mcp::json::{JsonMember, JsonValue};
use postman_mcp::tools::common::{build_request_payload, CrudOutput, HeaderEntry};

fn to_lib(v: &serde_json::Value) -> JsonValue {
    match v {
        serde_json::Value::Null => JsonValue::Null,
        serde_json::Value::Bool(b) => JsonValue::Bool(*b),
        serde_json::Value::Number(n) => JsonValue::Number(n.to_string()),
        serde_json::Value::String(s) => JsonValue::Str(s.clone()),
        serde_json::Value::Array(a) => JsonValue::Array(a.iter().map(to_lib).collect()),
        serde_json::Value::Object(m) => JsonValue::Object(
            m.iter().map(|(k, v)| JsonMember { key: k.clone(), value: to_lib(v) }).collect(),
        ),
    }
}

fn to_serde(v: &JsonValue) -> serde_json::Value {
    match v {
        JsonValue::Null => serde_json::Value::Null,
        JsonValue::Bool(b) => serde_json::Value::Bool(*b),
        JsonValue::Number(n) => serde_json::from_str(n).unwrap(),
        JsonValue::Str(s) => serde_json::Value::String(s.clone()),
        JsonValue::Array(a) => serde_json::Value::Array(a.iter().map(to_serde).collect()),
        JsonValue::Object(ms) => {
            let mut m = serde_json::Map::new();
            for member in ms {
                m.insert(member.key.clone(), to_serde(&member.value));
            }
            serde_json::Value::Object(m)
        }
    }
}

fn j(text: &str) -> JsonValue {
    to_lib(&serde_json::from_str(text).unwrap())
}

fn sj(text: &str) -> serde_json::Value {
    serde_json::from_str(text).unwrap()
}

#[test]
fn request_payload_with_raw_body_and_description() {
    let headers = vec![
        HeaderEntry { key: "A".to_string(), value: "1".to_string() },
        HeaderEntry { key: "B".to_string(), value: "2".to_string() },
    ];
    let p = build_request_payload("Get", "get", "http://x", Some(&headers), Some("raw"), Some("{}"), None, Some("d"));
    assert_eq!(
        to_serde(&p),
        sj(r#"{"name":"Get","method":"GET","url":"http://x","headers":"A: 1\nB: 2\n","description":"d","body":{"mode":"raw","raw":"{}","options":{"raw":{"language":"text"}}}}"#)
    );
}

#[test]
fn request_payload_without_body() {
    let p = build_request_payload("N", "Delete", "u", None, Some("graphql"), None, None, None);
    assert_eq!(to_serde(&p), sj(r#"{"name":"N","method":"DELETE","url":"u","headers":""}"#));
    let p = build_request_payload("N", "post", "u", None, Some("formdata"), None, None, None);
    assert_eq!(to_serde(&p), sj(r#"{"name":"N","method":"POST","url":"u","headers":"","body":{"mode":"formdata","formdata":[]}}"#));
    let p = build_request_payload("N", "post", "u", Some(&[]), Some("urlencoded"), None, Some("json"), None);
    assert_eq!(to_serde(&p), sj(r#"{"name":"N","method":"POST","url":"u","headers":"","body":{"mode":"urlencoded","urlencoded":[]}}"#));
}

#[test]
fn crud_output_reads_ids_in_order() {
    let o = CrudOutput::success(j(r#"{"collection":{"id":"c1","info":{"name":"N"}},"model_id":"m","meta":{"action":"create"}}"#));
    assert!(o.ok);
    assert_eq!((o.message.as_str(), o.id.as_str(), o.name.as_str(), o.action.as_str()), ("OK", "c1", "N", "create"));
    let o = CrudOutput::success(j(r#"{"model_id":"m","data":{"id":"d","name":"dn"}}"#));
    assert_eq!((o.id.as_str(), o.name.as_str(), o.action.as_str()), ("m", "dn", "ok"));
    let o = CrudOutput::success(j(r#"{"data":{"id":"d"}}"#));
    assert_eq!(o.id, "d");
    let o = CrudOutput::success(j(r#"{}"#));
    assert_eq!((o.id.as_str(), o.name.as_str(), o.action.as_str()), ("unknown", "", "ok"));
    let o = CrudOutput::success(j(r#"{"collection":{"id":7},"model_id":"m"}"#));
    assert_eq!(o.id, "unknown");
}

#[test]
fn collection_uuid_strips_the_owner_prefix() {
    assert_eq!(collection_uuid("12ab34cd-aaaa-bbbb"), "aaaa-bbbb");
    assert_eq!(collection_uuid("12AB34CD-x"), "x");
    assert_eq!(collection_uuid("12ab34cg-aaaa"), "12ab34cg-aaaa");
    assert_eq!(collection_uuid("1234567-aaaa"), "1234567-aaaa");
    assert_eq!(collection_uuid("short"), "short");
    assert_eq!(collection_uuid("12345678-"), "");
}

fn client() -> PostmanApiClient {
    PostmanApiClient::new(Some("PMAK-test".to_string())).ok().unwrap()
}

#[test]
fn client_requires_an_api_key() {
    let e = PostmanApiClient::new(None).err().unwrap();
    assert_eq!(e, "Variable de entorno POSTMAN_API_KEY no encontrada. Configúrala con tu API key de Postman.");
    assert_eq!(client().api_key, "PMAK-test");
}

#[test]
fn collection_endpoints() {
    let c = client();
    let r = c.list_collections_request();
    assert_eq!((r.method, r.url.as_str(), r.api_key.as_str()), (HttpMethod::Get, "https://api.getpostman.com/collections", "PMAK-test"));
    assert!(r.body.is_none());
    let r = c.get_collection_request("c1");
    assert_eq!(r.url, "https://api.getpostman.com/collections/c1");
    let r = c.create_collection_request("New", Some("desc"));
    assert_eq!(r.method, HttpMethod::Post);
    assert_eq!(
        to_serde(r.body.as_ref().unwrap()),
        sj(r#"{"collection":{"info":{"name":"New","schema":"https://schema.getpostman.com/json/collection/v2.1.0/collection.json","description":"desc"},"item":[]}}"#)
    );
    let r = c.update_collection_request("c1", None, Some("d"));
    assert_eq!(r.method, HttpMethod::Patch);
    assert_eq!(to_serde(r.body.as_ref().unwrap()), sj(r#"{"collection":{"info":{"description":"d"}}}"#));
    let r = c.delete_collection_request("c1");
    assert_eq!((r.method, r.url.as_str()), (HttpMethod::Delete, "https://api.getpostman.com/collections/c1"));
    let r = c.run_collection_request("c1", Some("e1"));
    assert_eq!(r.url, "https://api.getpostman.com/collections/c1/runs");
    assert_eq!(to_serde(r.body.as_ref().unwrap()), sj(r#"{"environment":{"id":"e1"}}"#));
    let r = c.run_collection_request("c1", None);
    assert_eq!(to_serde(r.body.as_ref().unwrap()), sj(r#"{}"#));
}

#[test]
fn request_and_environment_endpoints() {
    let c = client();
    let r = c.create_request_request("1234abcd-col", j(r#"{"name":"x"}"#), Some("f1"));
    assert_eq!(r.url, "https://api.getpostman.com/collections/col/requests?folder=f1");
    assert_eq!(to_serde(r.body.as_ref().unwrap()), sj(r#"{"name":"x"}"#));
    let r = c.update_request_request("col", "r1", j(r#"{}"#));
    assert_eq!((r.method, r.url.as_str()), (HttpMethod::Put, "https://api.getpostman.com/collections/col/requests/r1"));
    let r = c.delete_request_request("1234abcd-col", "r1");
    assert_eq!((r.method, r.url.as_str()), (HttpMethod::Delete, "https://api.getpostman.com/collections/col/requests/r1"));
    let r = c.list_environments_request();
    assert_eq!(r.url, "https://api.getpostman.com/environments");
    let r = c.get_environment_request("e1");
    assert_eq!(r.url, "https://api.getpostman.com/environments/e1");
    let r = c.update_environment_variables_request("e1", "Env", vec![j(r#"{"key":"a"}"#)]);
    assert_eq!(r.method, HttpMethod::Put);
    assert_eq!(to_serde(r.body.as_ref().unwrap()), sj(r#"{"environment":{"name":"Env","values":[{"key":"a"}]}}"#));
}

#[test]
fn variable_endpoints() {
    let c = client();
    let r = c.update_collection_variables_request("c1", "Col", "pid", vec![j(r#"{"key":"k","value":"v"}"#)]);
    assert_eq!((r.method, r.url.as_str()), (HttpMethod::Patch, "https://api.getpostman.com/collections/c1"));
    assert_eq!(to_serde(r.body.as_ref().unwrap()), sj(r#"{"collection":{"info":{"name":"Col"},"variable":[{"key":"k","value":"v"}]}}"#));
    let r = c.workspaces_request();
    assert_eq!(r.url, "https://api.getpostman.com/workspaces");
    let r = c.get_globals_request("w1");
    assert_eq!(r.url, "https://api.getpostman.com/workspaces/w1/global-variables");
    let r = c.update_globals_request("w1", vec![]);
    assert_eq!(r.method, HttpMethod::Put);
    assert_eq!(to_serde(r.body.as_ref().unwrap()), sj(r#"{"values":[]}"#));
}

#[test]
fn workspace_id_sources() {
    assert_eq!(configured_workspace_id(Some("w9".to_string())), Some("w9".to_string()));
    assert_eq!(configured_workspace_id(Some(String::new())), None);
    assert_eq!(configured_workspace_id(None), None);
    assert_eq!(workspace_id_from(&j(r#"{"workspaces":[{"id":"w1"},{"id":"w2"}]}"#)), Ok("w1".to_string()));
    let msg = "No se encontró ningún workspace. Verifica tu POSTMAN_API_KEY.".to_string();
    assert_eq!(workspace_id_from(&j(r#"{"workspaces":[]}"#)), Err(msg.clone()));
    assert_eq!(workspace_id_from(&j(r#"{}"#)), Err(msg.clone()));
    assert_eq!(workspace_id_from(&j(r#"{"workspaces":[{"id":1}]}"#)), Err(msg));
}

#[test]
fn api_status_check() {
    assert_eq!(check_status(200, "x"), Ok(()));
    assert_eq!(check_status(204, ""), Ok(()));
    assert_eq!(check_status(404, "nope"), Err("Postman API respondió con status 404 Not Found: nope".to_string()));
    assert_eq!(check_status(799, "b"), Err("Postman API respondió con status 799 <unknown status code>: b".to_string()));
    assert_eq!(check_status(500, ""), Err("Postman API respondió con status 500 Internal Server Error: ".to_string()));
}
