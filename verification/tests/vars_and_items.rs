use postman_mcp::models::collection::{CollectionItem, RequestDetail};
use postman_mcp::models::environment::EnvironmentValue;
use postman_mcp::json::{JsonMember, JsonValue};
use postman_mcp::utils::items::{
    collect_requests, count_requests, find_request_by_name, list_request_names, summarize_items,
};
use postman_mcp::utils::vars::{collection_variables, merge_environment, resolve_vars, Variables};

fn to_lib(v: &serde_json::Value) -> JsonValue {
    match v {
        serde_json::Value::Null => JsonValue::Null,
        serde_json::Value::Bool(b) => JsonValue::Bool(*b),
        serde_json::Value::Number(n) => JsonValue::Number(n.to_string()),
        serde_json::Value::String(s) => JsonValue::Str(s.clone()),
        serde_json::Value::Array(a) => JsonValue::Array(a.iter().map(to_lib).collect()),
        serde_json::Value::Object(m) => JsonValue::Object(
            m.iter().map(|(k, v)| JsonMember { key: k.clone(), value: to_lib(v) }).collect(),
        ),
    }
}

fn j(text: &str) -> JsonValue {
    to_lib(&serde_json::from_str(text).unwrap())
}

fn vars(pairs: &[(&str, &str)]) -> Variables {
    let mut v = Variables::new();
    for (k, val) in pairs {
        v.insert(k.to_string(), val.to_string());
    }
    v
}

fn request(name: &str, method: Option<&str>) -> CollectionItem {
    CollectionItem {
        name: name.to_string(),
        id: None,
        item: None,
        request: Some(RequestDetail {
            method: method.map(|m| m.to_string()),
            url: None,
            header: None,
            body: None,
            description: None,
            auth: None,
        }),
    }
}

fn folder(name: &str, children: Vec<CollectionItem>) -> CollectionItem {
    CollectionItem { name: name.to_string(), id: None, item: Some(children), request: None }
}

fn sample_tree() -> Vec<CollectionItem> {
    vec![
        folder("Users", vec![request("Get User", Some("GET")), request("Create User", Some("POST"))]),
        request("Health", None),
        CollectionItem { name: "Note".to_string(), id: None, item: None, request: None },
    ]
}

#[test]
fn resolve_vars_replaces_known_placeholders() {
    let v = vars(&[("host", "example.com"), ("ver", "v1")]);
    assert_eq!(resolve_vars("https://{{host}}/api/{{ver}}/{{host}}", &v), "https://example.com/api/v1/example.com");
}

#[test]
fn resolve_vars_leaves_unknown_references() {
    let v = vars(&[("host", "example.com")]);
    assert_eq!(resolve_vars("{{missing}} and {{host}}", &v), "{{missing}} and example.com");
    assert_eq!(resolve_vars("{host} {{ host }}", &v), "{host} {{ host }}");
}

#[test]
fn resolve_vars_without_variables_is_identity() {
    let v = Variables::new();
    assert_eq!(resolve_vars("a {{b}} c", &v), "a {{b}} c");
    assert_eq!(resolve_vars("", &v), "");
}

#[test]
fn resolve_vars_does_not_depend_on_insertion_order() {
    let v = vars(&[("a", "{{b}}"), ("b", "x")]);
    assert_eq!(resolve_vars("{{a}}", &v), "{{b}}");
    let w = vars(&[("b", "x"), ("a", "{{b}}")]);
    assert_eq!(resolve_vars("{{a}}", &w), "{{b}}");
    assert_eq!(resolve_vars("{{a}}{{b}}", &v), resolve_vars("{{a}}{{b}}", &w));
}

#[test]
fn resolve_vars_reads_placeholders_left_to_right() {
    let v = vars(&[("a", "1"), ("{a", "2")]);
    assert_eq!(resolve_vars("{{{a}}}", &v), "2}");
    assert_eq!(resolve_vars("{{a}}}}", &v), "1}}");
    assert_eq!(resolve_vars("{{a", &v), "{{a");
    assert_eq!(resolve_vars("{{}}", &v), "{{}}");
    assert_eq!(resolve_vars("é{{a}}ü", &v), "é1ü");
}

#[test]
fn resolve_vars_replaces_names_that_hold_braces() {
    let v = vars(&[("x}", "y"), ("", "empty")]);
    assert_eq!(resolve_vars("{{x}}}", &v), "y");
    assert_eq!(resolve_vars("{{x}}", &v), "{{x}}");
    assert_eq!(resolve_vars("a{{}}b", &v), "aemptyb");
    let w = vars(&[("x", "1"), ("x}}{{y", "2")]);
    assert_eq!(resolve_vars("{{x}}{{y}}", &w), "1{{y}}");
}

#[test]
fn variables_insert_overwrites_and_get_reads() {
    let mut v = Variables::new();
    v.insert("a".to_string(), "1".to_string());
    v.insert("b".to_string(), "2".to_string());
    v.insert("a".to_string(), "3".to_string());
    assert_eq!(v.len(), 2);
    assert_eq!(v.get("a").map(|s| s.as_str()), Some("3"));
    assert_eq!(v.get("b").map(|s| s.as_str()), Some("2"));
    assert_eq!(v.get("c"), None);
}

#[test]
fn collection_variables_read_keys_and_values() {
    let list = match j(r#"[{"key":"a","value":"1"},{"key":"b"},{"value":"x"},{"key":"a","value":"3"},{"key":"n","value":5}]"#) {
        JsonValue::Array(a) => a,
        _ => unreachable!(),
    };
    let v = collection_variables(&list);
    assert_eq!(v.len(), 3);
    assert_eq!(v.get("a").map(|s| s.as_str()), Some("3"));
    assert_eq!(v.get("b").map(|s| s.as_str()), Some(""));
    assert_eq!(v.get("n").map(|s| s.as_str()), Some(""));
}

#[test]
fn environment_overrides_collection_variables() {
    let mut v = vars(&[("a", "collection"), ("keep", "k")]);
    let env = vec![
        EnvironmentValue { key: "a".to_string(), value: "env".to_string(), enabled: true, value_type: None },
        EnvironmentValue { key: "c".to_string(), value: "off".to_string(), enabled: false, value_type: None },
        EnvironmentValue { key: "keep".to_string(), value: "disabled".to_string(), enabled: false, value_type: None },
    ];
    merge_environment(&mut v, env);
    assert_eq!(v.get("a").map(|s| s.as_str()), Some("env"));
    assert_eq!(v.get("keep").map(|s| s.as_str()), Some("k"));
    assert_eq!(v.get("c"), None);
    assert_eq!(resolve_vars("{{a}}-{{keep}}-{{c}}", &v), "env-k-{{c}}");
}

#[test]
fn summarize_items_outlines_the_tree() {
    let items = sample_tree();
    assert_eq!(
        summarize_items(&items, 0),
        "[folder] Users\n    [GET] Get User\n    [POST] Create User\n  [???] Health\n  - Note"
    );
    assert_eq!(summarize_items(&Vec::new(), 0), "");
    let empty_folder = vec![folder("Empty", vec![])];
    assert_eq!(summarize_items(&empty_folder, 1), "  [folder] Empty");
}

#[test]
fn find_request_by_name_ignores_case_and_skips_folders() {
    let items = sample_tree();
    let found = find_request_by_name(&items, "get USER").unwrap();
    assert_eq!(found.name, "Get User");
    assert!(find_request_by_name(&items, "users").is_none());
    assert!(find_request_by_name(&items, "note").is_none());
    assert_eq!(find_request_by_name(&items, "HEALTH").unwrap().name, "Health");
}

#[test]
fn list_collect_and_count_requests() {
    let items = sample_tree();
    assert_eq!(list_request_names(&items), vec!["Get User", "Create User", "Health"]);
    let collected: Vec<&str> = collect_requests(&items).iter().map(|i| i.name.as_str()).collect();
    assert_eq!(collected, vec!["Get User", "Create User", "Health"]);
    assert_eq!(count_requests(&items), 3);
}

#[test]
fn request_with_children_is_counted_by_its_children() {
    let mut both = request("Both", Some("GET"));
    both.item = Some(vec![request("Inner", Some("GET")), request("Inner2", Some("GET"))]);
    let items = vec![both];
    assert_eq!(list_request_names(&items), vec!["Both", "Inner", "Inner2"]);
    let collected: Vec<&str> = collect_requests(&items).iter().map(|i| i.name.as_str()).collect();
    assert_eq!(collected, vec!["Both"]);
    assert_eq!(count_requests(&items), 2);
    assert_eq!(find_request_by_name(&items, "inner2").unwrap().name, "Inner2");
}
