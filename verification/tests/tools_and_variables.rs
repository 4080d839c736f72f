use postman_mcp::json::{JsonMember, JsonValue};
use postman_mcp::models::collection::{CollectionDetail, CollectionInfo, CollectionItem, CollectionSummary, ListCollectionsResponse, RequestDetail, RunDetail};
use postman_mcp::models::environment::{EnvironmentDetail, EnvironmentSummary, EnvironmentValue, ListEnvironmentsResponse};
use postman_mcp::tools::collections::{GetCollectionOutput, ListCollectionsOutput, ListCollectionsTool, UpdateCollectionInput, UpdateCollectionTool};
use postman_mcp::tools::environments::{GetEnvironmentOutput, ListEnvironmentsOutput};
use postman_mcp::tools::request_executor::{ExecuteRequestInput, ExecuteRequestOutput, ExecuteRequestTool};
use postman_mcp::tools::requests::CreateRequestInput;
use postman_mcp::tools::runner::{CollectionSource, RunCollectionLocalInput, RunCollectionOutput, RunState};
use postman_mcp::tools::variables::{
    delete_environment_value, environment_entries, global_values, remove_variable, set_environment_value, upsert_variable,
    ListGlobalVariablesOutput, SetCollectionVariableInput, SetEnvironmentVariableInput, SetGlobalVariableInput,
    VariableOutput,
};
use postman_mcp::utils::errors::{internal_err, to_internal_err, ToolError};
use postman_mcp::utils::executor::{err_result, SingleRunResult};

fn to_lib(v: &serde_json::Value) -> JsonValue {
    match v {
        serde_json::Value::Null => JsonValue::Null,
        serde_json::Value::Bool(b) => JsonValue::Bool(*b),
        serde_json::Value::Number(n) => JsonValue::Number(n.to_string()),
        serde_json::Value::String(s) => JsonValue::Str(s.clone()),
        serde_json::Value::Array(a) => JsonValue::Array(a.iter().map(to_lib).collect()),
        serde_json::Value::Object(m) => JsonValue::Object(
            m.iter().map(|(k, v)| JsonMember { key: k.clone(), value: to_lib(v) }).collect(),
        ),
    }
}

fn to_serde(v: &JsonValue) -> serde_json::Value {
    match v {
        JsonValue::Null => serde_json::Value::Null,
        JsonValue::Bool(b) => serde_json::Value::Bool(*b),
        JsonValue::Number(n) => serde_json::from_str(n).unwrap(),
        JsonValue::Str(s) => serde_json::Value::String(s.clone()),
        JsonValue::Array(a) => serde_json::Value::Array(a.iter().map(to_serde).collect()),
        JsonValue::Object(ms) => {
            let mut m = serde_json::Map::new();
            for member in ms {
                m.insert(member.key.clone(), to_serde(&member.value));
            }
            serde_json::Value::Object(m)
        }
    }
}

fn j(text: &str) -> JsonValue {
    to_lib(&serde_json::from_str(text).unwrap())
}

fn array(text: &str) -> Vec<JsonValue> {
    match j(text) {
        JsonValue::Array(a) => a,
        _ => unreachable!(),
    }
}

fn list(v: &[JsonValue]) -> serde_json::Value {
    serde_json::Value::Array(v.iter().map(to_serde).collect())
}

fn sj(text: &str) -> serde_json::Value {
    serde_json::from_str(text).unwrap()
}

fn env_values() -> Vec<EnvironmentValue> {
    vec![
        EnvironmentValue { key: "a".to_string(), value: "1".to_string(), enabled: true, value_type: None },
        EnvironmentValue { key: "b".to_string(), value: "2".to_string(), enabled: false, value_type: Some("secret".to_string()) },
    ]
}

#[test]
fn set_environment_variable_replaces_or_appends() {
    let input = SetEnvironmentVariableInput { environment_id: "e".into(), key: "a".into(), value: "9".into(), variable_type: None, enabled: None };
    let out = set_environment_value(env_values(), &input.entry());
    assert_eq!(list(&out), sj(r#"[{"key":"a","value":"9","enabled":true,"type":"default"},{"key":"b","value":"2","enabled":false,"type":"secret"}]"#));
    let input = SetEnvironmentVariableInput { environment_id: "e".into(), key: "c".into(), value: "3".into(), variable_type: Some("secret".into()), enabled: Some(false) };
    let out = set_environment_value(env_values(), &input.entry());
    assert_eq!(list(&out), sj(r#"[{"key":"a","value":"1","enabled":true,"type":"default"},{"key":"b","value":"2","enabled":false,"type":"secret"},{"key":"c","value":"3","enabled":false,"type":"secret"}]"#));
}

#[test]
fn delete_environment_variable_keeps_others() {
    let out = delete_environment_value(env_values(), "a");
    assert_eq!(list(&out), sj(r#"[{"key":"b","value":"2","enabled":false,"type":"secret"}]"#));
    let out = delete_environment_value(env_values(), "zz");
    assert_eq!(out.len(), 2);
}

#[test]
fn collection_variables_upsert_and_remove() {
    let vars = || array(r#"[{"key":"x","value":"1","type":"default","extra":1},{"key":"y","value":"2"},{"value":"nokey"}]"#);
    let input = SetCollectionVariableInput { collection_id: "c".into(), key: "x".into(), value: "5".into(), variable_type: None };
    let out = upsert_variable(vars(), &input.entry());
    assert_eq!(list(&out), sj(r#"[{"key":"x","value":"5","type":"default"},{"key":"y","value":"2"},{"value":"nokey"}]"#));
    let input = SetCollectionVariableInput { collection_id: "c".into(), key: "z".into(), value: "7".into(), variable_type: Some("secret".into()) };
    let out = upsert_variable(vars(), &input.entry());
    assert_eq!(out.len(), 4);
    assert_eq!(to_serde(&out[3]), sj(r#"{"key":"z","value":"7","type":"secret"}"#));
    let out = remove_variable(vars(), "y");
    assert_eq!(list(&out), sj(r#"[{"key":"x","value":"1","type":"default","extra":1},{"value":"nokey"}]"#));
}

#[test]
fn set_then_delete_equals_delete() {
    let vars = || array(r#"[{"key":"x","value":"1"},{"key":"y","value":"2"}]"#);
    let input = SetGlobalVariableInput { key: "x".into(), value: "9".into(), variable_type: None, enabled: None };
    let after = remove_variable(upsert_variable(vars(), &input.entry()), "x");
    assert_eq!(list(&after), list(&remove_variable(vars(), "x")));
    let twice = upsert_variable(upsert_variable(vars(), &input.entry()), &input.entry());
    assert_eq!(list(&twice), list(&upsert_variable(vars(), &input.entry())));
}

#[test]
fn global_values_and_listing() {
    let values = global_values(j(r#"{"values":[{"key":"g","value":"v"},{"key":"h","enabled":false,"type":"secret"}],"id":"w"}"#));
    assert_eq!(values.len(), 2);
    let out = ListGlobalVariablesOutput::from_values(&values);
    assert_eq!(out.count, 2);
    let items: Vec<(&str, &str, bool, &str)> = out.variables.iter().map(|i| (i.key.as_str(), i.value.as_str(), i.enabled, i.variable_type.as_str())).collect();
    assert_eq!(items, vec![("g", "v", true, "default"), ("h", "", false, "secret")]);
    assert!(global_values(j(r#"{}"#)).is_empty());
    assert!(global_values(j(r#"{"values":3}"#)).is_empty());
    assert!(global_values(j(r#"[1]"#)).is_empty());
}

#[test]
fn variable_output_actions() {
    let o = VariableOutput::set("globals".into(), "k".into());
    assert_eq!((o.ok, o.message.as_str(), o.resource_id.as_str(), o.key.as_str(), o.action.as_str()), (true, "OK", "globals", "k", "set"));
    let o = VariableOutput::delete("e1".into(), "k".into());
    assert_eq!(o.action, "delete");
}

#[test]
fn update_collection_needs_a_change() {
    let none = UpdateCollectionInput { collection_id: "c".into(), name: None, description: None };
    assert_eq!(
        UpdateCollectionTool::check(&none),
        Err(ToolError::InvalidParams("Provide at least 'name' or 'description' to update.".into()))
    );
    let some = UpdateCollectionInput { collection_id: "c".into(), name: Some("n".into()), description: None };
    assert_eq!(UpdateCollectionTool::check(&some), Ok(()));
}

#[test]
fn tool_names() {
    assert_eq!(ListCollectionsTool::name(), "list_collections");
    assert_eq!(ExecuteRequestTool::name(), "execute_request");
    assert_eq!(UpdateCollectionTool::name(), "update_collection");
    assert!(UpdateCollectionTool::description().starts_with("Update the name"));
}

fn request(name: &str) -> CollectionItem {
    CollectionItem {
        name: name.into(),
        id: None,
        item: None,
        request: Some(RequestDetail { method: Some("GET".into()), url: None, header: None, body: None, description: None, auth: None }),
    }
}

#[test]
fn locate_lists_available_requests() {
    let items = vec![
        CollectionItem { name: "F".into(), id: None, item: Some(vec![request("One"), request("Two")]), request: None },
        request("Three"),
    ];
    assert_eq!(ExecuteRequestTool::locate(&items, "two").ok().unwrap().name, "Two");
    assert_eq!(
        ExecuteRequestTool::locate(&items, "zzz").err().unwrap(),
        ToolError::InvalidParams("Request 'zzz' not found. Available: One, Two, Three".into())
    );
}

fn answered(error: Option<&str>) -> SingleRunResult {
    let mut r = err_result("n", "GET", "http://u", "x");
    r.error = error.map(|e| e.to_string());
    r.status = 200;
    r.passed = error.is_none();
    r.response_headers = "content-type: a".into();
    r.elapsed_ms = 5;
    r
}

#[test]
fn execute_request_output() {
    let all = vec![
        ("content-type".to_string(), "a".to_string()),
        ("server".to_string(), "s".to_string()),
        ("x-other".to_string(), "o".to_string()),
    ];
    assert_eq!(ExecuteRequestOutput::from_result(answered(Some("Network error: x")), None, &all).err().unwrap(), ToolError::Internal("Network error: x".into()));
    let o = ExecuteRequestOutput::from_result(answered(None), Some(true), &all).ok().unwrap();
    assert_eq!(o.response_headers, "content-type: a\nserver: s\nx-other: o");
    assert_eq!((o.request_name.as_str(), o.status, o.elapsed_ms), ("n", 200, 5));
    let o = ExecuteRequestOutput::from_result(answered(None), Some(false), &all).ok().unwrap();
    assert_eq!(o.response_headers, "content-type: a");
    let input = ExecuteRequestInput { collection_id: "c".into(), request_name: "r".into(), environment_id: None, full_headers: None, body_limit: None };
    assert_eq!(input.max_body(), 4000);
}

#[test]
fn local_run_tally() {
    let mut s = RunState::new();
    assert_eq!(s.next_index(4), Some(0));
    assert_eq!(s.next_index(0), None);
    s.record(answered(None), true);
    assert!(!s.is_stopped());
    assert_eq!(s.next_index(4), Some(1));
    s.record(answered(Some("Network error: x")), false);
    assert!(!s.is_stopped());
    assert_eq!(s.next_index(2), None);
    let mut failing = answered(None);
    failing.passed = false;
    failing.status = 500;
    s.record(failing, true);
    assert!(s.is_stopped());
    assert_eq!(s.next_index(4), None);
    assert_eq!(s.tally(), (3, 1, 2));
    assert_eq!(s.total_elapsed_ms(), 15);
    let out = s.into_output("Col".into());
    assert_eq!((out.collection_name.as_str(), out.total, out.passed, out.failed, out.total_elapsed_ms), ("Col", 3, 1, 2, 15));
    assert_eq!(out.results[1].error.as_deref(), Some("Network error: x"));
    let empty = RunState::new().into_output("E".into());
    assert_eq!((empty.total, empty.passed, empty.failed, empty.results.len()), (0, 0, 0, 0));
}

#[test]
fn local_run_source_and_defaults() {
    let mut input = RunCollectionLocalInput { collection_id: Some("c".into()), collection_file: Some("/f".into()), environment_id: None, stop_on_failure: None, body_limit: None };
    assert_eq!(input.source(), Ok(CollectionSource::Api("c".into())));
    assert_eq!(input.max_body(), 2000);
    assert!(!input.stops_on_failure());
    input.collection_id = None;
    assert_eq!(input.source(), Ok(CollectionSource::File("/f".into())));
    input.collection_file = None;
    assert_eq!(
        input.source(),
        Err(ToolError::InvalidParams("Provide either 'collection_id' (Postman API) or 'collection_file' (local .json path).".into()))
    );
}

#[test]
fn cloud_run_output() {
    let run = RunDetail { id: None, status: Some("finished".into()), info: None, stats: None, executions: None, failures: Some(vec![j("{}"), j("{}")]) };
    let o = RunCollectionOutput::from_run(&run, "", "[...]");
    assert_eq!((o.run_id.as_str(), o.status.as_str(), o.stats.as_str()), ("N/A", "finished", "No stats available"));
    assert_eq!(o.failures, "2 failure(s):\n[...]");
    let run = RunDetail { id: Some("r1".into()), status: None, info: None, stats: Some(j("{}")), executions: None, failures: Some(vec![]) };
    let o = RunCollectionOutput::from_run(&run, "{ }", "[]");
    assert_eq!((o.run_id.as_str(), o.status.as_str(), o.stats.as_str(), o.failures.as_str()), ("r1", "unknown", "{ }", "No failures"));
}

#[test]
fn collection_and_environment_outputs() {
    let summary = |uid: &str| CollectionSummary { id: "i".into(), uid: uid.into(), name: "n".into(), owner: String::new(), created_at: String::new(), updated_at: "t".into(), fork: None };
    let out = ListCollectionsOutput::from_response(ListCollectionsResponse { collections: vec![summary("u1"), summary("u2")] });
    assert_eq!(out.count, 2);
    assert_eq!(out.collections[1].uid, "u2");

    let detail = CollectionDetail {
        info: CollectionInfo { postman_id: "p".into(), name: "Col".into(), description: None, schema: "s".into() },
        item: vec![request("A")],
        variable: array(r#"[{"key":"k","value":"v"},{"key":"s","type":"secret"}]"#),
        auth: None,
    };
    let o = GetCollectionOutput::from_detail(&detail);
    assert_eq!((o.name.as_str(), o.description.as_str(), o.request_count, o.structure.as_str()), ("Col", "(no description)", 1, "  [GET] A"));
    let vars: Vec<(&str, &str, &str)> = o.variables.iter().map(|v| (v.key.as_str(), v.value.as_str(), v.variable_type.as_str())).collect();
    assert_eq!(vars, vec![("k", "v", "default"), ("s", "", "secret")]);

    let env = EnvironmentSummary { id: "i".into(), uid: "eu".into(), name: "E".into(), owner: String::new(), created_at: String::new(), updated_at: "t".into(), is_public: false };
    let out = ListEnvironmentsOutput::from_response(ListEnvironmentsResponse { environments: vec![env] });
    assert_eq!((out.count, out.environments[0].uid.as_str()), (1, "eu"));
    let g = GetEnvironmentOutput::from_detail(EnvironmentDetail { id: "e".into(), name: "E".into(), values: env_values() });
    assert_eq!(g.variables[0].variable_type, "default");
    assert_eq!(g.variables[1].variable_type, "secret");
    assert!(!g.variables[1].enabled);
}

#[test]
fn request_input_payload() {
    let input = CreateRequestInput {
        collection_id: "c".into(),
        name: "N".into(),
        method: "patch".into(),
        url: "u".into(),
        headers: None,
        body_mode: Some("raw".into()),
        body_raw: None,
        body_language: Some("json".into()),
        folder_id: None,
        description: None,
    };
    assert_eq!(
        to_serde(&input.payload()),
        sj(r#"{"name":"N","method":"PATCH","url":"u","headers":"","body":{"mode":"raw","raw":"","options":{"raw":{"language":"json"}}}}"#)
    );
}

#[test]
fn error_helpers() {
    assert_eq!(to_internal_err("get_collection failed", "boom"), ToolError::Internal("get_collection failed: boom".into()));
    assert_eq!(internal_err("x"), ToolError::Internal("x".into()));
}

#[test]
fn set_then_delete_restores_environment() {
    let input = SetEnvironmentVariableInput { environment_id: "e".into(), key: "c".into(), value: "3".into(), variable_type: None, enabled: None };
    let written = set_environment_value(env_values(), &input.entry());
    let restored = remove_variable(written, "c");
    assert_eq!(list(&restored), list(&environment_entries(env_values())));
}
