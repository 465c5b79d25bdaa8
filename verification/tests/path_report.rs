use rdap_redact::json::Json;
use rdap_redact::path_report::{
    check_json_paths, check_redaction_paths_text, count_status, decimal_string,
    get_kp_json_paths_for_object, redaction_values_text, try_check_json_paths,
    unique_redaction_paths,
};
use rdap_redact::path_safety::{is_index_safe, is_single_steps_path};

fn doc(text: &str) -> Json {
    Json::from_value(serde_json::from_str(text).unwrap())
}

fn pairs(items: &[(&str, &str)]) -> Vec<(String, String)> {
    items.iter().map(|(k, p)| (k.to_string(), p.to_string())).collect()
}

fn owned(results: &[(&'static str, String, String)]) -> Vec<(String, String, String)> {
    results
        .iter()
        .map(|(s, k, p)| (s.to_string(), k.clone(), p.clone()))
        .collect()
}

#[test]
fn decimal_strings() {
    assert_eq!(decimal_string(0), "0");
    assert_eq!(decimal_string(7), "7");
    assert_eq!(decimal_string(10), "10");
    assert_eq!(decimal_string(1234), "1234");
}

#[test]
fn every_member_with_its_path() {
    let d = doc(r#"{"a": {"b": 1}, "c": [{"d": "x"}, 5], "e": null}"#);
    let found = get_kp_json_paths_for_object(&d, String::new());
    let listed: Vec<(String, serde_json::Value, String)> = found
        .iter()
        .map(|(k, v, p)| (k.clone(), v.to_value(), p.clone()))
        .collect();
    assert_eq!(
        listed,
        vec![
            ("a".to_string(), serde_json::from_str(r#"{"b": 1}"#).unwrap(), "$.a".to_string()),
            ("b".to_string(), serde_json::from_str("1").unwrap(), "$.a.b".to_string()),
            (
                "c".to_string(),
                serde_json::from_str(r#"[{"d": "x"}, 5]"#).unwrap(),
                "$.c".to_string()
            ),
            ("d".to_string(), serde_json::from_str(r#""x""#).unwrap(), "$.c[0].d".to_string()),
            ("e".to_string(), serde_json::Value::Null, "$.e".to_string()),
        ]
    );
}

#[test]
fn paths_below_a_given_path_and_in_arrays() {
    let d = doc(r#"[{"k": 1}, [{"m": 2}]]"#);
    let found = get_kp_json_paths_for_object(&d, "$.top".to_string());
    let paths: Vec<(String, String)> = found.iter().map(|(k, _, p)| (k.clone(), p.clone())).collect();
    assert_eq!(
        paths,
        vec![
            ("k".to_string(), "$.top[0].k".to_string()),
            ("m".to_string(), "$.top[1][0].m".to_string()),
        ]
    );
}

#[test]
fn scalars_have_no_members() {
    assert!(get_kp_json_paths_for_object(&doc("3"), String::new()).is_empty());
    assert!(get_kp_json_paths_for_object(&doc(r#""text""#), String::new()).is_empty());
}

#[test]
fn each_path_gets_a_status() {
    let d = doc(r#"{"a": "", "b": "x", "c": 1, "list": ["", "y"]}"#);
    let checks = check_json_paths(
        d,
        pairs(&[
            ("prePath", "$.a"),
            ("postPath", "$.b"),
            ("prePath", "$.c"),
            ("prePath", "$.z"),
            ("postPath", "$.list[*]"),
        ]),
    );
    let expected: Vec<(String, String, String)> = vec![
        ("Empty2", "prePath", "$.a"),
        ("Replaced1", "postPath", "$.b"),
        ("Removed3", "prePath", "$.c"),
        ("Removed1", "prePath", "$.z"),
        ("Empty2", "postPath", "$.list[*]"),
        ("Replaced1", "postPath", "$.list[*]"),
    ]
    .into_iter()
    .map(|(s, k, p)| (s.to_string(), k.to_string(), p.to_string()))
    .collect();
    assert_eq!(owned(&checks), expected);
}

#[test]
fn no_paths_give_no_statuses() {
    assert!(check_json_paths(doc(r#"{"a": 1}"#), Vec::new()).is_empty());
}

#[test]
fn a_path_that_does_not_parse_is_refused() {
    let d = doc(r#"{"a": ""}"#);
    assert!(try_check_json_paths(d, pairs(&[("prePath", "$.a"), ("postPath", "$[")])).is_none());
    let d = doc(r#"{"a": ""}"#);
    let checks = try_check_json_paths(d, pairs(&[("prePath", "$.a")])).unwrap();
    assert_eq!(
        owned(&checks),
        vec![("Empty2".to_string(), "prePath".to_string(), "$.a".to_string())]
    );
}

#[test]
fn statuses_are_counted() {
    let d = doc(r#"{"a": "", "b": "x", "c": ""}"#);
    let checks = check_json_paths(
        d,
        pairs(&[("prePath", "$.a"), ("prePath", "$.b"), ("prePath", "$.c"), ("prePath", "$.q")]),
    );
    assert_eq!(count_status(&checks, "Empty2"), 2);
    assert_eq!(count_status(&checks, "Replaced1"), 1);
    assert_eq!(count_status(&checks, "Removed1"), 1);
    assert_eq!(count_status(&checks, "empty"), 0);
}

#[test]
fn redaction_paths_are_kept_once() {
    let d = doc(
        r#"{"redacted": [
            {"prePath": "$.a", "method": "removal"},
            {"postPath": "$.b", "method": "emptyValue"},
            {"prePath": "$.a", "method": "removal"},
            {"postPath": "$.a", "method": "emptyValue"},
            {"other": "$.c"}
        ]}"#,
    );
    let entries = get_kp_json_paths_for_object(&d, String::new());
    assert!(redaction_values_text(&entries));
    assert_eq!(
        unique_redaction_paths(&entries),
        pairs(&[("prePath", "$.a"), ("postPath", "$.b")])
    );
}

#[test]
fn a_redaction_path_that_is_not_text_is_found() {
    let d = doc(r#"{"redacted": [{"prePath": 3}]}"#);
    let entries = get_kp_json_paths_for_object(&d, String::new());
    assert!(!redaction_values_text(&entries));
    let d = doc(r#"{"redacted": [{"name": 3}]}"#);
    let entries = get_kp_json_paths_for_object(&d, String::new());
    assert!(redaction_values_text(&entries));
    assert!(unique_redaction_paths(&entries).is_empty());
}

fn triples(items: &[(&str, &str, &str)]) -> Vec<(String, String, String)> {
    items
        .iter()
        .map(|(s, k, p)| (s.to_string(), k.to_string(), p.to_string()))
        .collect()
}

#[test]
fn documented_codes_for_empty_replaced_and_removed() {
    let d = doc(r#"{"handle": "", "port43": "whois.example.net"}"#);
    let checks = check_json_paths(
        d,
        pairs(&[("prePath", "$.handle"), ("prePath", "$.port43"), ("postPath", "$.status")]),
    );
    assert_eq!(
        owned(&checks),
        triples(&[
            ("Empty2", "prePath", "$.handle"),
            ("Replaced1", "prePath", "$.port43"),
            ("Removed1", "postPath", "$.status"),
        ])
    );
}

#[test]
fn documented_codes_for_other_values() {
    let d = doc(r#"{"n": null, "a": [1], "o": {"k": 1}, "t": true, "s": "NO_VALUE"}"#);
    let checks = check_json_paths(
        d,
        pairs(&[("prePath", "$.n"), ("prePath", "$.a"), ("prePath", "$.o"), ("prePath", "$.t"), ("prePath", "$.s")]),
    );
    assert_eq!(
        owned(&checks),
        triples(&[
            ("Removed2", "prePath", "$.n"),
            ("Replaced2", "prePath", "$.a"),
            ("Replaced3", "prePath", "$.o"),
            ("Removed3", "prePath", "$.t"),
            ("Empty1", "prePath", "$.s"),
        ])
    );
}

#[test]
fn redaction_paths_checked_from_text() {
    let text = r#"{
        "handle": "",
        "port43": "whois.example.net",
        "redacted": [
            {"prePath": "$.handle", "method": "emptyValue"},
            {"prePath": "$.port43", "method": "partialValue"},
            {"postPath": "$.status", "method": "removal"},
            {"prePath": "$.handle", "method": "emptyValue"}
        ]
    }"#;
    let checks = check_redaction_paths_text(text).unwrap();
    assert_eq!(
        owned(&checks),
        triples(&[
            ("Empty2", "prePath", "$.handle"),
            ("Replaced1", "prePath", "$.port43"),
            ("Removed1", "postPath", "$.status"),
        ])
    );
}

#[test]
fn redaction_paths_text_refusals() {
    assert!(check_redaction_paths_text("{not json").is_none());
    assert!(check_redaction_paths_text(r#"{"redacted": [{"prePath": 3}]}"#).is_none());
    assert!(check_redaction_paths_text(r#"{"redacted": [{"prePath": "$["}]}"#).is_none());
    assert!(check_redaction_paths_text(r#"{"a": [1], "redacted": [{"prePath": "$.a[-1,0]"}]}"#).is_none());
    assert!(check_redaction_paths_text(r#"{"a": [1], "redacted": [{"prePath": "$.a[0:2:0]"}]}"#).is_none());
    assert!(check_redaction_paths_text(r#"{"a": 1}"#).unwrap().is_empty());
}

#[test]
fn index_safety_of_paths() {
    assert!(is_index_safe("$.entities[0].vcardArray[1][?(@[0]=='email')][3]"));
    assert!(is_index_safe("$.a[*].b['c']"));
    assert!(is_index_safe("$[0,1]"));
    assert!(is_index_safe("$[ 0 , -0 ]"));
    assert!(is_index_safe("$[:2]"));
    assert!(is_index_safe("$[0:1]"));
    assert!(is_index_safe("$[0:4:2]"));
    assert!(is_index_safe("$[-1]"));
    assert!(is_index_safe("$[ -1]"));
    assert!(is_index_safe("$[999999999999999999]"));
    assert!(is_index_safe("$[9223372036854775807]"));
    assert!(is_index_safe("$[0,1-2]"));
    assert!(!is_index_safe("$[-1,0]"));
    assert!(!is_index_safe("$[0, 1.5]"));
    assert!(!is_index_safe("$[1e2,0]"));
    assert!(!is_index_safe("$[0,9223372036854775808]"));
    assert!(!is_index_safe("$[0:2:0]"));
    assert!(!is_index_safe("$[ : : 0 ]"));
    assert!(!is_index_safe("$[9223372036854775808]"));
    assert!(!is_index_safe("$[99999999999999999999]"));
}

#[test]
fn paths_with_slices_and_unions_are_checked() {
    let d = doc(r#"{"a": ["", "x", "y"]}"#);
    let checks = try_check_json_paths(
        d,
        pairs(&[("prePath", "$.a[0:2]"), ("postPath", "$.a[1,2]"), ("prePath", "$.a[5:]")]),
    )
    .unwrap();
    assert_eq!(
        owned(&checks),
        triples(&[
            ("Empty2", "prePath", "$.a[0:2]"),
            ("Replaced1", "prePath", "$.a[0:2]"),
            ("Replaced1", "postPath", "$.a[1,2]"),
            ("Replaced1", "postPath", "$.a[1,2]"),
            ("Removed1", "prePath", "$.a[5:]"),
        ])
    );
}

#[test]
fn single_step_paths() {
    assert!(is_single_steps_path("$"));
    assert!(is_single_steps_path("$.['entities'][0].['vcardArray'][1][3]"));
    assert!(is_single_steps_path("$.['a b$']"));
    assert!(!is_single_steps_path("$..a"));
    assert!(!is_single_steps_path("$.a"));
    assert!(!is_single_steps_path("$.['it's']"));
    assert!(!is_single_steps_path("$[?(@.a)]"));
    assert!(!is_single_steps_path("$[]"));
    assert!(is_single_steps_path("$.['a\\b']"));
    assert!(!is_single_steps_path("$.['a\\']"));
    assert!(!is_single_steps_path("$[1234567890123456]"));
    assert!(!is_single_steps_path("x"));
}
