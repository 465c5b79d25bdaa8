use rdap_redact::json::Json;
use rdap_redact::pointer::pointer_lookup;
use rdap_redact::pointer_path::convert_to_json_pointer_path;
use rdap_redact::redaction::{
    check_valid_json_path, parse_redacted_array, set_result_type_from_json_path,
    RedactedObject, RedactionType, ResultType,
};
use rdap_redact::substitution::{parse_redacted_json, process_redacted_json, process_redacted_text};

fn doc(text: &str) -> Json {
    Json::from_value(serde_json::from_str(text).unwrap())
}

fn value(j: &Json) -> serde_json::Value {
    j.to_value()
}

fn sample() -> Json {
    doc(r#"{
        "objectClassName": "domain",
        "handle": "ABC-123",
        "ldhName": "example.com",
        "port43": "",
        "status": ["active"],
        "secureDNS": {"dsData": [{"keyTag": 12345, "digest": "ABCDEF"}]},
        "entities": [
            {
                "objectClassName": "entity",
                "handle": "REG-1",
                "roles": ["registrant"],
                "vcardArray": ["vcard", [
                    ["version", {}, "text", "4.0"],
                    ["fn", {}, "text", ""],
                    ["org", {}, "text", "Example Org"],
                    ["email", {}, "text", "NO_VALUE"]
                ]]
            }
        ],
        "nothing": null
    }"#)
}

fn empty_object() -> RedactedObject {
    RedactedObject {
        name: Json::String(String::new()),
        path_index_count: 0,
        pre_path: None,
        post_path: None,
        original_path: None,
        final_path: Vec::new(),
        do_final_path_subsitution: false,
        path_lang: Json::String(String::new()),
        replacement_path: None,
        method: Json::String(String::new()),
        reason: Json::String(String::new()),
        result_type: Vec::new(),
        redaction_type: None,
    }
}

fn with_path(path: &str) -> RedactedObject {
    let mut o = empty_object();
    o.original_path = Some(path.to_string());
    o
}

fn redactions(text: &str) -> Vec<Json> {
    match doc(text) {
        Json::Array(items) => items,
        _ => panic!("not an array"),
    }
}

#[test]
fn pointer_path_of_found_paths() {
    assert_eq!(convert_to_json_pointer_path("$.['entities'][0].['vcardArray'][1]"), "/entities/0/vcardArray/1");
    assert_eq!(convert_to_json_pointer_path("$.['handle']"), "/handle");
    assert_eq!(convert_to_json_pointer_path("$"), "");
    assert_eq!(convert_to_json_pointer_path("$.a.b[2]"), "/a/b/2");
    assert_eq!(convert_to_json_pointer_path("$$.x"), "/x");
    assert_eq!(convert_to_json_pointer_path("a//b"), "a/b");
    assert_eq!(convert_to_json_pointer_path("a///b"), "a//b");
    assert_eq!(convert_to_json_pointer_path("x$"), "x$");
}

#[test]
fn pointer_lookup_follows_serde_json() {
    let d = sample();
    let found = pointer_lookup(&d, "/entities/0/vcardArray/1/2/3").unwrap();
    assert_eq!(value(&found), serde_json::Value::String("Example Org".to_string()));
    assert!(pointer_lookup(&d, "/entities/01").is_none());
    assert!(pointer_lookup(&d, "/entities/+0").is_none());
    assert!(pointer_lookup(&d, "/missing").is_none());
    assert!(pointer_lookup(&d, "handle").is_none());
    assert_eq!(value(&pointer_lookup(&d, "").unwrap()), value(&d));
}

#[test]
fn value_round_trip_keeps_the_document() {
    let d = sample();
    let v = d.to_value();
    let back = Json::from_value(v.clone());
    assert_eq!(back.to_value(), v);
    let copy = d.clone();
    assert_eq!(copy.to_value(), v);
}

#[test]
fn result_type_of_a_partial_string() {
    let d = sample();
    let mut item = with_path("$.entities[0].vcardArray[1][2][3]");
    let r = set_result_type_from_json_path(d, &mut item);
    assert_eq!(item.path_index_count, 1);
    assert_eq!(item.final_path, vec![Some("$.['entities'][0].['vcardArray'][1][2][3]".to_string())]);
    assert_eq!(item.result_type, vec![Some(ResultType::PartialString)]);
    assert_eq!(r.result_type, item.result_type);
    assert_eq!(r.final_path, item.final_path);
}

#[test]
fn result_type_of_other_values() {
    let cases = [
        ("$.entities[0].vcardArray[1][1][3]", ResultType::EmptyString),
        ("$.entities[0].vcardArray[1][3][3]", ResultType::StringNoValue),
        ("$.secureDNS.dsData[0].keyTag", ResultType::FoundNothing),
        ("$.nothing", ResultType::FoundNull),
        ("$.status", ResultType::Array),
        ("$.secureDNS", ResultType::Object),
    ];
    for (path, expected) in cases.iter() {
        let mut item = with_path(path);
        set_result_type_from_json_path(sample(), &mut item);
        assert_eq!(item.result_type, vec![Some(*expected)], "path {}", path);
        assert_eq!(item.path_index_count, 1);
    }
}

#[test]
fn result_type_when_nothing_matches() {
    let mut item = with_path("$.entities[0].notThere");
    set_result_type_from_json_path(sample(), &mut item);
    assert_eq!(item.result_type, vec![Some(ResultType::Removed)]);
    assert!(item.final_path.is_empty());
    assert_eq!(item.path_index_count, 0);
}

#[test]
fn quotes_around_the_path_are_dropped() {
    let mut item = with_path("\"$.handle\"");
    set_result_type_from_json_path(sample(), &mut item);
    assert_eq!(item.result_type, vec![Some(ResultType::PartialString)]);
    assert_eq!(item.final_path, vec![Some("$.['handle']".to_string())]);
}

#[test]
fn no_path_or_bad_path_changes_nothing() {
    let mut item = empty_object();
    set_result_type_from_json_path(sample(), &mut item);
    assert!(item.result_type.is_empty());
    let mut bad = with_path("$.[[[");
    set_result_type_from_json_path(sample(), &mut bad);
    assert!(bad.result_type.is_empty());
    assert!(bad.final_path.is_empty());
}

#[test]
fn several_paths_are_all_recorded() {
    let mut item = with_path("$.entities[0].vcardArray[1][*][3]");
    set_result_type_from_json_path(sample(), &mut item);
    assert_eq!(item.path_index_count, 4);
    assert_eq!(item.final_path.len(), 4);
    assert_eq!(
        item.result_type,
        vec![
            Some(ResultType::PartialString),
            Some(ResultType::EmptyString),
            Some(ResultType::PartialString),
            Some(ResultType::StringNoValue),
        ]
    );
}

#[test]
fn valid_json_path_only_for_strings() {
    assert!(check_valid_json_path(sample(), "$.handle"));
    assert!(check_valid_json_path(sample(), "$.entities[0].vcardArray[1][2][3]"));
    assert!(!check_valid_json_path(sample(), "$.status"));
    assert!(!check_valid_json_path(sample(), "$.secureDNS.dsData[0].keyTag"));
    assert!(!check_valid_json_path(sample(), "$.notThere"));
    assert!(!check_valid_json_path(sample(), "$.[[["));
}

#[test]
fn redaction_types_follow_method_and_findings() {
    let d = sample();
    let items = redactions(r#"[
        {"name": {"description": "Registrant Name"}, "prePath": "$.entities[0].vcardArray[1][1][3]", "pathLang": "jsonpath", "method": "emptyValue", "reason": {"type": "Server policy"}},
        {"name": {"type": "Registrant Organization"}, "prePath": "$.entities[0].vcardArray[1][2][3]", "method": "partialValue"},
        {"name": {"type": "Registrant Email"}, "prePath": "$.entities[0].vcardArray[1][2][3]", "replacementPath": "$.ldhName", "method": "replacementValue"},
        {"name": {"type": "Registrant Phone"}, "prePath": "$.entities[0].phone", "method": "removal"},
        {"name": {"type": "Key tag"}, "prePath": "$.secureDNS.dsData[0].keyTag", "method": "emptyValue"},
        {"name": "plain", "postPath": "$.handle", "method": "replacementValue"},
        {"prePath": "$.handle", "method": "somethingElse"},
        {"prePath": "$.handle", "method": 7}
    ]"#);
    let r = parse_redacted_array(&d, &items);
    let kinds: Vec<Option<RedactionType>> = r.iter().map(|o| o.redaction_type).collect();
    assert_eq!(
        kinds,
        vec![
            Some(RedactionType::EmptyValue),
            Some(RedactionType::PartialValue),
            Some(RedactionType::ReplacementValue),
            Some(RedactionType::Removal),
            Some(RedactionType::Unknown),
            Some(RedactionType::PartialValue),
            Some(RedactionType::Unknown),
            Some(RedactionType::Unknown),
        ]
    );
    let subst: Vec<bool> = r.iter().map(|o| o.do_final_path_subsitution).collect();
    assert_eq!(subst, vec![true, true, true, false, false, true, false, false]);
    assert_eq!(value(&r[0].name), serde_json::Value::String("Registrant Name".to_string()));
    assert_eq!(value(&r[0].reason), serde_json::Value::String("Server policy".to_string()));
    assert_eq!(value(&r[0].path_lang), serde_json::Value::String("jsonpath".to_string()));
    assert_eq!(value(&r[1].path_lang), serde_json::Value::String(String::new()));
    assert_eq!(value(&r[5].name), serde_json::Value::String(String::new()));
    assert_eq!(r[5].original_path, Some("$.handle".to_string()));
    assert_eq!(r[3].result_type, vec![Some(ResultType::Removed)]);
    assert_eq!(value(&r[7].method), serde_json::Value::from(7));
}

fn redact(text_doc: &str, redacted: &str) -> serde_json::Value {
    let mut d = doc(text_doc);
    let items = redactions(redacted);
    parse_redacted_json(&mut d, Some(&items));
    d.to_value()
}

fn at<'a>(v: &'a serde_json::Value, ptr: &str) -> &'a serde_json::Value {
    v.pointer(ptr).unwrap()
}

#[test]
fn empty_value_is_starred() {
    let text = serde_json::to_string(&sample().to_value()).unwrap();
    let out = redact(&text, r#"[{"prePath": "$.entities[0].vcardArray[1][1][3]", "method": "emptyValue"}]"#);
    assert_eq!(at(&out, "/entities/0/vcardArray/1/1/3"), "*REDACTED*");
    assert_eq!(at(&out, "/entities/0/vcardArray/1/2/3"), "Example Org");
}

#[test]
fn partial_value_is_starred() {
    let text = serde_json::to_string(&sample().to_value()).unwrap();
    let out = redact(&text, r#"[{"prePath": "$.entities[0].vcardArray[1][2][3]", "method": "partialValue"}]"#);
    assert_eq!(at(&out, "/entities/0/vcardArray/1/2/3"), "*Example Org*");
}

#[test]
fn replacement_value_copies_the_replacement() {
    let text = serde_json::to_string(&sample().to_value()).unwrap();
    let out = redact(
        &text,
        r#"[{"prePath": "$.entities[0].vcardArray[1][2][3]", "replacementPath": "$.ldhName", "method": "replacementValue"}]"#,
    );
    assert_eq!(at(&out, "/entities/0/vcardArray/1/2/3"), "example.com");
}

#[test]
fn replacement_without_a_target_leaves_the_document() {
    let text = serde_json::to_string(&sample().to_value()).unwrap();
    let out = redact(
        &text,
        r#"[{"prePath": "$.entities[0].vcardArray[1][2][3]", "replacementPath": "$.notThere", "method": "replacementValue"}]"#,
    );
    assert_eq!(out, sample().to_value());
}

#[test]
fn number_is_not_replaced() {
    let text = serde_json::to_string(&sample().to_value()).unwrap();
    let out = redact(&text, r#"[{"prePath": "$.secureDNS.dsData[0].keyTag", "method": "emptyValue"}]"#);
    assert_eq!(out, sample().to_value());
}

#[test]
fn removal_changes_nothing() {
    let text = serde_json::to_string(&sample().to_value()).unwrap();
    let out = redact(&text, r#"[{"prePath": "$.entities[0].phone", "method": "removal"}]"#);
    assert_eq!(out, sample().to_value());
}

#[test]
fn no_redactions_change_nothing() {
    let mut d = sample();
    parse_redacted_json(&mut d, None);
    assert_eq!(d.to_value(), sample().to_value());
}

#[test]
fn several_matches_are_all_starred() {
    let text = serde_json::to_string(&sample().to_value()).unwrap();
    let out = redact(&text, r#"[{"prePath": "$.entities[0].vcardArray[1][*][3]", "method": "emptyValue"}]"#);
    assert_eq!(at(&out, "/entities/0/vcardArray/1/0/3"), "*4.0*");
    assert_eq!(at(&out, "/entities/0/vcardArray/1/1/3"), "*REDACTED*");
    assert_eq!(at(&out, "/entities/0/vcardArray/1/2/3"), "*Example Org*");
    assert_eq!(at(&out, "/entities/0/vcardArray/1/3/3"), "*NO_VALUE*");
}

#[test]
fn redactions_listed_in_the_response_are_carried_out() {
    let mut d = doc(r#"{
        "handle": "H-1",
        "port43": "whois.example.com",
        "redacted": [
            {"name": {"type": "Handle"}, "prePath": "$.handle", "method": "partialValue"},
            {"name": {"type": "Port 43"}, "prePath": "$.port43", "method": "removal"}
        ]
    }"#);
    process_redacted_json(&mut d);
    let out = d.to_value();
    assert_eq!(at(&out, "/handle"), "*H-1*");
    assert_eq!(at(&out, "/port43"), "whois.example.com");
}

#[test]
fn response_text_is_redacted_and_printed() {
    let text = r#"{"handle":"H-1","redacted":[{"prePath":"$.handle","method":"emptyValue"}]}"#;
    let out = process_redacted_text(text).unwrap();
    let expected = "{\n  \"handle\": \"*H-1*\",\n  \"redacted\": [\n    {\n      \"prePath\": \"$.handle\",\n      \"method\": \"emptyValue\"\n    }\n  ]\n}";
    assert_eq!(out, expected);
}

#[test]
fn response_text_that_is_not_json_gives_none() {
    assert!(process_redacted_text("{not json").is_none());
    assert!(process_redacted_text(r#"{"redacted": [1]}"#).is_none());
}

#[test]
fn response_without_redactions_is_printed_as_is() {
    let out = process_redacted_text(r#"{"b": 1, "a": [true, null]}"#).unwrap();
    assert_eq!(out, "{\n  \"b\": 1,\n  \"a\": [\n    true,\n    null\n  ]\n}");
}

#[test]
fn number_redaction_prints_the_response_unchanged() {
    let text = "{\n  \"secureDNS\": {\n    \"dsData\": [\n      {\n        \"keyTag\": 12345,\n        \"digest\": \"ABCDEF\"\n      }\n    ]\n  },\n  \"redacted\": [\n    {\n      \"prePath\": \"$.secureDNS.dsData[0].keyTag\",\n      \"method\": \"emptyValue\"\n    }\n  ]\n}";
    assert_eq!(process_redacted_text(text).unwrap(), text);
}

#[test]
fn response_text_with_an_unevaluable_path_gives_none() {
    assert!(process_redacted_text(r#"{"a": [1], "redacted": [{"prePath": "$.a[-1,0]", "method": "emptyValue"}]}"#).is_none());
    assert!(process_redacted_text(r#"{"a": [1], "redacted": [{"prePath": "\"$.a[0:1:0]\"", "method": "emptyValue"}]}"#).is_none());
}

#[test]
fn response_text_with_a_slice_path_is_printed() {
    let text = "{\n  \"handle\": \"H-1\",\n  \"redacted\": [\n    {\n      \"prePath\": \"$[:1]\",\n      \"method\": \"removal\"\n    }\n  ]\n}";
    assert_eq!(process_redacted_text(text).unwrap(), text);
}

#[test]
fn union_and_slice_paths_are_redacted() {
    let text = serde_json::to_string(&sample().to_value()).unwrap();
    let out = redact(&text, r#"[{"prePath": "$.entities[0].vcardArray[1][1,2][3]", "method": "emptyValue"}]"#);
    assert_eq!(at(&out, "/entities/0/vcardArray/1/1/3"), "*REDACTED*");
    assert_eq!(at(&out, "/entities/0/vcardArray/1/2/3"), "*Example Org*");
    let out = redact(&text, r#"[{"prePath": "$.entities[0].vcardArray[1][2:4][3]", "method": "partialValue"}]"#);
    assert_eq!(at(&out, "/entities/0/vcardArray/1/1/3"), "");
    assert_eq!(at(&out, "/entities/0/vcardArray/1/2/3"), "*Example Org*");
    assert_eq!(at(&out, "/entities/0/vcardArray/1/3/3"), "*NO_VALUE*");
}

#[test]
fn only_the_found_value_changes() {
    let text = serde_json::to_string(&sample().to_value()).unwrap();
    let out = redact(&text, r#"[{"prePath": "$.handle", "method": "partialValue"}]"#);
    let mut expected = sample().to_value();
    expected["handle"] = serde_json::Value::String("*ABC-123*".to_string());
    assert_eq!(out, expected);
}
