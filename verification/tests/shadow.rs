use rdap_redact::json::Json;
use rdap_redact::shadow::{
    make_ip_addresses, make_shadow_entities, make_shadow_events, make_shadow_handle,
    make_shadow_lang, make_shadow_ldhName, make_shadow_links, make_shadow_notices,
    make_shadow_port43, make_shadow_publicIds, make_shadow_redacted_array,
    make_shadow_redacted_string, make_shadow_roles, make_shadow_status, make_shadow_unicodeName,
    make_shadow_vcard, makes_secureDNS, make_shadow_asn, make_shadow_entity,
    make_shadow_ip_network, make_shadow_nameserver,
};

fn same(j: Json, text: &str) {
    let expected: serde_json::Value = serde_json::from_str(text).unwrap();
    assert_eq!(j.to_value(), expected);
}

#[test]
fn redacted_string_and_array() {
    same(make_shadow_redacted_string(), r#""*REDACTED*""#);
    same(make_shadow_redacted_array(), r#"["*REDACTED*"]"#);
}

#[test]
fn shadow_links_and_notices() {
    same(make_shadow_links(), r#"[{"value":"*REDACTED*","rel":"*REDACTED*","href":"*REDACTED*","hreflang":["*REDACTED*"],"title":"*REDACTED*","media":"*REDACTED*","type":"*REDACTED*"}]"#);
    same(make_shadow_notices(), r#"[{"title":"*REDACTED*","description":["*REDACTED*"],"links":[{"value":"*REDACTED*","rel":"*REDACTED*","type":"*REDACTED*","href":"*REDACTED*"}]}]"#);
    same(make_shadow_lang(), r#""*REDACTED*""#);
}

#[test]
fn shadow_object_members() {
    same(make_shadow_events(), r#"{ "events" : [ { "eventAction" : "*REDACTED*", "eventActor" : "*REDACTED*", "eventDate" : "*REDACTED*" } ] }"#);
    same(make_shadow_publicIds(), r#"{ "publicIds": [ { "type":"*REDACTED*", "identifier":"*REDACTED*" } ] }"#);
    same(make_shadow_port43(), r#"{ "port43":"*REDACTED*" }"#);
    same(make_shadow_status(), r#"{ "status":[ "*REDACTED*", "*REDACTED*" ] }"#);
    same(make_shadow_handle(), r#"{ "handle":"*REDACTED*" }"#);
    same(make_shadow_roles(), r#"{ "roles": [ "*REDACTED*" ] }"#);
    same(make_shadow_ldhName(), r#"{ "ldhName":"*REDACTED*" }"#);
    same(make_shadow_unicodeName(), r#"{ "unicodeName":"*REDACTED*" }"#);
    same(make_ip_addresses(), r#"{ "ipAddresses": [ { "v4": [ "*REDACTED*" ], "v6": [ "*REDACTED*" ] } ] }"#);
    same(makes_secureDNS(), r#"{ "secureDNS": { "zoneSigned": true, "delegationSigned": true, "maxSigLife": null, "dsData": [ { "keyTag": null, "algorithm": null, "digest": "*REDACTED*", "digestType": null } ], "keyData": [ { "flags": null, "protocol": null, "algorithm": null, "publicKey": "*REDACTED*" } ] } }"#);
    same(make_shadow_entities(), r#"{ "entities" : [ ] }"#);
}

#[test]
fn shadow_vcard() {
    same(make_shadow_vcard(), r#"{ "vcardArray": [ "vcard", [ ["version", {}, "text", "4.0"], ["fn", {}, "text", "*REDACTED*"], ["n", {}, "text", ["User", "*REDACTED*", "*REDACTED*", "*REDACTED*", ["*REDACTED*", "*REDACTED*"]]], ["kind", {}, "text", "individual"], ["lang", { "pref":"1" }, "language-tag", "*REDACTED*"], ["lang", { "pref":"2" }, "language-tag", "*REDACTED*"], ["org", { "type":"work" }, "text", "*REDACTED*"], ["title", {}, "text", "*REDACTED*"], ["role", {}, "text", "*REDACTED*"], ["adr", { "type":"work" }, "text", ["*REDACTED*", "*REDACTED*"]], ["adr", { "type":"home", "label":"*REDACTED*" }, "text", ["*REDACTED*", "*REDACTED*"]], ["tel", { "type":["work", "voice"], "pref":"1" }, "uri", "*REDACTED*"], ["tel", { "type":["*REDACTED*", "*REDACTED*", "*REDACTED*", "*REDACTED*", "*REDACTED*"] }, "uri", "*REDACTED*"], ["email", { "type":"work" }, "text", "*REDACTED*"], ["geo", { "type":"work" }, "uri", "*REDACTED*"], ["key", { "type":"work" }, "uri", "*REDACTED*"], ["tz", {}, "utc-offset", "-05:00"], ["url", { "type":"*REDACTED*" }, "uri", "*REDACTED*"] ] ] }"#);
}

#[test]
fn unbuilt_shadows_do_nothing() {
    make_shadow_nameserver();
    make_shadow_entity();
    make_shadow_ip_network();
    make_shadow_asn();
}
