use vstd::prelude::*;
use crate::json::{Json, JsonV};

verus! {

/// The parts of an RDAP object class (RFC 9083) that a redaction may stand in for.
pub struct ShadowBuilder {
    pub conformances: Json,
    pub links: Json,
    pub notices_and_remarks: Json,
    pub lang: Json,
    pub events: Json,
    pub status: Json,
    pub port43: Json,
    pub public_ids: Json,
    pub object_class_name: Json,
}

/// An owned copy of `s`.
fn text(s: &str) -> (r: String)
    ensures
        r@ == s@,
{
    String::from_str(s)
}

/// The JSON string `s`.
fn string(s: &str) -> (r: Json)
    ensures
        r@ == JsonV::String(s@),
{
    Json::String(text(s))
}

/// The JSON array of `items`.
fn array(items: Vec<Json>) -> (r: Json)
    ensures
        r@ == JsonV::Array(items@.map_values(|j: Json| j@)),
{
    let r = Json::Array(items);
    proof {
        crate::json::lemma_view_items(r);
        assert(r@->Array_0 =~= items@.map_values(|j: Json| j@));
    }
    r
}

/// The JSON object of `entries`.
fn object(entries: Vec<(String, Json)>) -> (r: Json)
    ensures
        r@ == JsonV::Object(entries@.map_values(|e: (String, Json)| (e.0@, e.1@))),
{
    let r = Json::Object(entries);
    proof {
        crate::json::lemma_view_items(r);
        assert(r@->Object_0 =~= entries@.map_values(|e: (String, Json)| (e.0@, e.1@)));
    }
    r
}

/// The marker that stands where a value was redacted.
pub open spec fn redacted_marker() -> JsonV {
    JsonV::String("*REDACTED*"@)
}

/// The stand-in for a redacted nameserver (none is built yet).
pub fn make_shadow_nameserver() {
}

/// The stand-in for a redacted entity (none is built yet).
pub fn make_shadow_entity() {
}

/// The stand-in for a redacted IP network (none is built yet).
pub fn make_shadow_ip_network() {
}

/// The stand-in for a redacted autonomous system number (none is built yet).
pub fn make_shadow_asn() {
}

/// The string `*REDACTED*`.
pub fn make_shadow_redacted_string() -> (r: Json)
    ensures
        r@ == redacted_marker(),
{
    string("*REDACTED*")
}

/// An array holding only the string `*REDACTED*`.
pub fn make_shadow_redacted_array() -> (r: Json)
    ensures
        r@ == JsonV::Array(seq![redacted_marker()]),
{
    let r = array(vec![string("*REDACTED*")]);
    assert(r@->Array_0 =~= seq![redacted_marker()]);
    r
}

/// The stand-in for a redacted `links` array: one link with every member redacted.
pub fn make_shadow_links() -> (r: Json)
    ensures
        r@ == JsonV::Array(seq![JsonV::Object(seq![("value"@, JsonV::String("*REDACTED*"@)), ("rel"@, JsonV::String("*REDACTED*"@)), ("href"@, JsonV::String("*REDACTED*"@)), ("hreflang"@, JsonV::Array(seq![JsonV::String("*REDACTED*"@)])), ("title"@, JsonV::String("*REDACTED*"@)), ("media"@, JsonV::String("*REDACTED*"@)), ("type"@, JsonV::String("*REDACTED*"@))])]),
{
    let v1 = string("*REDACTED*");
    let v2 = string("*REDACTED*");
    let v3 = string("*REDACTED*");
    let v4 = string("*REDACTED*");
    let v5 = array(vec![v4]);
    assert(v5@->Array_0 =~= seq![JsonV::String("*REDACTED*"@)]);
    let v6 = string("*REDACTED*");
    let v7 = string("*REDACTED*");
    let v8 = string("*REDACTED*");
    let v9 = object(vec![(text("value"), v1), (text("rel"), v2), (text("href"), v3), (text("hreflang"), v5), (text("title"), v6), (text("media"), v7), (text("type"), v8)]);
    assert(v9@->Object_0 =~= seq![("value"@, JsonV::String("*REDACTED*"@)), ("rel"@, JsonV::String("*REDACTED*"@)), ("href"@, JsonV::String("*REDACTED*"@)), ("hreflang"@, JsonV::Array(seq![JsonV::String("*REDACTED*"@)])), ("title"@, JsonV::String("*REDACTED*"@)), ("media"@, JsonV::String("*REDACTED*"@)), ("type"@, JsonV::String("*REDACTED*"@))]);
    let v10 = array(vec![v9]);
    assert(v10@->Array_0 =~= seq![JsonV::Object(seq![("value"@, JsonV::String("*REDACTED*"@)), ("rel"@, JsonV::String("*REDACTED*"@)), ("href"@, JsonV::String("*REDACTED*"@)), ("hreflang"@, JsonV::Array(seq![JsonV::String("*REDACTED*"@)])), ("title"@, JsonV::String("*REDACTED*"@)), ("media"@, JsonV::String("*REDACTED*"@)), ("type"@, JsonV::String("*REDACTED*"@))])]);
    v10
}

/// The stand-in for redacted notices: one notice with a redacted title, description and link.
pub fn make_shadow_notices() -> (r: Json)
    ensures
        r@ == JsonV::Array(seq![JsonV::Object(seq![("title"@, JsonV::String("*REDACTED*"@)), ("description"@, JsonV::Array(seq![JsonV::String("*REDACTED*"@)])), ("links"@, JsonV::Array(seq![JsonV::Object(seq![("value"@, JsonV::String("*REDACTED*"@)), ("rel"@, JsonV::String("*REDACTED*"@)), ("type"@, JsonV::String("*REDACTED*"@)), ("href"@, JsonV::String("*REDACTED*"@))])]))])]),
{
    let v1 = string("*REDACTED*");
    let v2 = string("*REDACTED*");
    let v3 = array(vec![v2]);
    assert(v3@->Array_0 =~= seq![JsonV::String("*REDACTED*"@)]);
    let v4 = string("*REDACTED*");
    let v5 = string("*REDACTED*");
    let v6 = string("*REDACTED*");
    let v7 = string("*REDACTED*");
    let v8 = object(vec![(text("value"), v4), (text("rel"), v5), (text("type"), v6), (text("href"), v7)]);
    assert(v8@->Object_0 =~= seq![("value"@, JsonV::String("*REDACTED*"@)), ("rel"@, JsonV::String("*REDACTED*"@)), ("type"@, JsonV::String("*REDACTED*"@)), ("href"@, JsonV::String("*REDACTED*"@))]);
    let v9 = array(vec![v8]);
    assert(v9@->Array_0 =~= seq![JsonV::Object(seq![("value"@, JsonV::String("*REDACTED*"@)), ("rel"@, JsonV::String("*REDACTED*"@)), ("type"@, JsonV::String("*REDACTED*"@)), ("href"@, JsonV::String("*REDACTED*"@))])]);
    let v10 = object(vec![(text("title"), v1), (text("description"), v3), (text("links"), v9)]);
    assert(v10@->Object_0 =~= seq![("title"@, JsonV::String("*REDACTED*"@)), ("description"@, JsonV::Array(seq![JsonV::String("*REDACTED*"@)])), ("links"@, JsonV::Array(seq![JsonV::Object(seq![("value"@, JsonV::String("*REDACTED*"@)), ("rel"@, JsonV::String("*REDACTED*"@)), ("type"@, JsonV::String("*REDACTED*"@)), ("href"@, JsonV::String("*REDACTED*"@))])]))]);
    let v11 = array(vec![v10]);
    assert(v11@->Array_0 =~= seq![JsonV::Object(seq![("title"@, JsonV::String("*REDACTED*"@)), ("description"@, JsonV::Array(seq![JsonV::String("*REDACTED*"@)])), ("links"@, JsonV::Array(seq![JsonV::Object(seq![("value"@, JsonV::String("*REDACTED*"@)), ("rel"@, JsonV::String("*REDACTED*"@)), ("type"@, JsonV::String("*REDACTED*"@)), ("href"@, JsonV::String("*REDACTED*"@))])]))])]);
    v11
}

/// The stand-in for a redacted language tag.
pub fn make_shadow_lang() -> (r: Json)
    ensures
        r@ == JsonV::String("*REDACTED*"@),
{
    let v1 = string("*REDACTED*");
    v1
}

/// The stand-in for redacted `events`.
pub fn make_shadow_events() -> (r: Json)
    ensures
        r@ == JsonV::Object(seq![("events"@, JsonV::Array(seq![JsonV::Object(seq![("eventAction"@, JsonV::String("*REDACTED*"@)), ("eventActor"@, JsonV::String("*REDACTED*"@)), ("eventDate"@, JsonV::String("*REDACTED*"@))])]))]),
{
    let v1 = string("*REDACTED*");
    let v2 = string("*REDACTED*");
    let v3 = string("*REDACTED*");
    let v4 = object(vec![(text("eventAction"), v1), (text("eventActor"), v2), (text("eventDate"), v3)]);
    assert(v4@->Object_0 =~= seq![("eventAction"@, JsonV::String("*REDACTED*"@)), ("eventActor"@, JsonV::String("*REDACTED*"@)), ("eventDate"@, JsonV::String("*REDACTED*"@))]);
    let v5 = array(vec![v4]);
    assert(v5@->Array_0 =~= seq![JsonV::Object(seq![("eventAction"@, JsonV::String("*REDACTED*"@)), ("eventActor"@, JsonV::String("*REDACTED*"@)), ("eventDate"@, JsonV::String("*REDACTED*"@))])]);
    let v6 = object(vec![(text("events"), v5)]);
    assert(v6@->Object_0 =~= seq![("events"@, JsonV::Array(seq![JsonV::Object(seq![("eventAction"@, JsonV::String("*REDACTED*"@)), ("eventActor"@, JsonV::String("*REDACTED*"@)), ("eventDate"@, JsonV::String("*REDACTED*"@))])]))]);
    v6
}

/// The stand-in for redacted `publicIds`.
#[allow(non_snake_case)]
pub fn make_shadow_publicIds() -> (r: Json)
    ensures
        r@ == JsonV::Object(seq![("publicIds"@, JsonV::Array(seq![JsonV::Object(seq![("type"@, JsonV::String("*REDACTED*"@)), ("identifier"@, JsonV::String("*REDACTED*"@))])]))]),
{
    let v1 = string("*REDACTED*");
    let v2 = string("*REDACTED*");
    let v3 = object(vec![(text("type"), v1), (text("identifier"), v2)]);
    assert(v3@->Object_0 =~= seq![("type"@, JsonV::String("*REDACTED*"@)), ("identifier"@, JsonV::String("*REDACTED*"@))]);
    let v4 = array(vec![v3]);
    assert(v4@->Array_0 =~= seq![JsonV::Object(seq![("type"@, JsonV::String("*REDACTED*"@)), ("identifier"@, JsonV::String("*REDACTED*"@))])]);
    let v5 = object(vec![(text("publicIds"), v4)]);
    assert(v5@->Object_0 =~= seq![("publicIds"@, JsonV::Array(seq![JsonV::Object(seq![("type"@, JsonV::String("*REDACTED*"@)), ("identifier"@, JsonV::String("*REDACTED*"@))])]))]);
    v5
}

/// The stand-in for a redacted `vcardArray`.
pub fn make_shadow_vcard() -> (r: Json)
    ensures
        r@ == JsonV::Object(seq![("vcardArray"@, JsonV::Array(seq![JsonV::String("vcard"@), JsonV::Array(seq![JsonV::Array(seq![JsonV::String("version"@), JsonV::Object(seq![]), JsonV::String("text"@), JsonV::String("4.0"@)]), JsonV::Array(seq![JsonV::String("fn"@), JsonV::Object(seq![]), JsonV::String("text"@), JsonV::String("*REDACTED*"@)]), JsonV::Array(seq![JsonV::String("n"@), JsonV::Object(seq![]), JsonV::String("text"@), JsonV::Array(seq![JsonV::String("User"@), JsonV::String("*REDACTED*"@), JsonV::String("*REDACTED*"@), JsonV::String("*REDACTED*"@), JsonV::Array(seq![JsonV::String("*REDACTED*"@), JsonV::String("*REDACTED*"@)])])]), JsonV::Array(seq![JsonV::String("kind"@), JsonV::Object(seq![]), JsonV::String("text"@), JsonV::String("individual"@)]), JsonV::Array(seq![JsonV::String("lang"@), JsonV::Object(seq![("pref"@, JsonV::String("1"@))]), JsonV::String("language-tag"@), JsonV::String("*REDACTED*"@)]), JsonV::Array(seq![JsonV::String("lang"@), JsonV::Object(seq![("pref"@, JsonV::String("2"@))]), JsonV::String("language-tag"@), JsonV::String("*REDACTED*"@)]), JsonV::Array(seq![JsonV::String("org"@), JsonV::Object(seq![("type"@, JsonV::String("work"@))]), JsonV::String("text"@), JsonV::String("*REDACTED*"@)]), JsonV::Array(seq![JsonV::String("title"@), JsonV::Object(seq![]), JsonV::String("text"@), JsonV::String("*REDACTED*"@)]), JsonV::Array(seq![JsonV::String("role"@), JsonV::Object(seq![]), JsonV::String("text"@), JsonV::String("*REDACTED*"@)]), JsonV::Array(seq![JsonV::String("adr"@), JsonV::Object(seq![("type"@, JsonV::String("work"@))]), JsonV::String("text"@), JsonV::Array(seq![JsonV::String("*REDACTED*"@), JsonV::String("*REDACTED*"@)])]), JsonV::Array(seq![JsonV::String("adr"@), JsonV::Object(seq![("type"@, JsonV::String("home"@)), ("label"@, JsonV::String("*REDACTED*"@))]), JsonV::String("text"@), JsonV::Array(seq![JsonV::String("*REDACTED*"@), JsonV::String("*REDACTED*"@)])]), JsonV::Array(seq![JsonV::String("tel"@), JsonV::Object(seq![("type"@, JsonV::Array(seq![JsonV::String("work"@), JsonV::String("voice"@)])), ("pref"@, JsonV::String("1"@))]), JsonV::String("uri"@), JsonV::String("*REDACTED*"@)]), JsonV::Array(seq![JsonV::String("tel"@), JsonV::Object(seq![("type"@, JsonV::Array(seq![JsonV::String("*REDACTED*"@), JsonV::String("*REDACTED*"@), JsonV::String("*REDACTED*"@), JsonV::String("*REDACTED*"@), JsonV::String("*REDACTED*"@)]))]), JsonV::String("uri"@), JsonV::String("*REDACTED*"@)]), JsonV::Array(seq![JsonV::String("email"@), JsonV::Object(seq![("type"@, JsonV::String("work"@))]), JsonV::String("text"@), JsonV::String("*REDACTED*"@)]), JsonV::Array(seq![JsonV::String("geo"@), JsonV::Object(seq![("type"@, JsonV::String("work"@))]), JsonV::String("uri"@), JsonV::String("*REDACTED*"@)]), JsonV::Array(seq![JsonV::String("key"@), JsonV::Object(seq![("type"@, JsonV::String("work"@))]), JsonV::String("uri"@), JsonV::String("*REDACTED*"@)]), JsonV::Array(seq![JsonV::String("tz"@), JsonV::Object(seq![]), JsonV::String("utc-offset"@), JsonV::String("-05:00"@)]), JsonV::Array(seq![JsonV::String("url"@), JsonV::Object(seq![("type"@, JsonV::String("*REDACTED*"@))]), JsonV::String("uri"@), JsonV::String("*REDACTED*"@)])])]))]),
{
    let v1 = string("vcard");
    let v2 = string("version");
    let v3 = object(vec![]);
    assert(v3@->Object_0 =~= seq![]);
    let v4 = string("text");
    let v5 = string("4.0");
    let v6 = array(vec![v2, v3, v4, v5]);
    assert(v6@->Array_0 =~= seq![JsonV::String("version"@), JsonV::Object(seq![]), JsonV::String("text"@), JsonV::String("4.0"@)]);
    let v7 = string("fn");
    let v8 = object(vec![]);
    assert(v8@->Object_0 =~= seq![]);
    let v9 = string("text");
    let v10 = string("*REDACTED*");
    let v11 = array(vec![v7, v8, v9, v10]);
    assert(v11@->Array_0 =~= seq![JsonV::String("fn"@), JsonV::Object(seq![]), JsonV::String("text"@), JsonV::String("*REDACTED*"@)]);
    let v12 = string("n");
    let v13 = object(vec![]);
    assert(v13@->Object_0 =~= seq![]);
    let v14 = string("text");
    let v15 = string("User");
    let v16 = string("*REDACTED*");
    let v17 = string("*REDACTED*");
    let v18 = string("*REDACTED*");
    let v19 = string("*REDACTED*");
    let v20 = string("*REDACTED*");
    let v21 = array(vec![v19, v20]);
    assert(v21@->Array_0 =~= seq![JsonV::String("*REDACTED*"@), JsonV::String("*REDACTED*"@)]);
    let v22 = array(vec![v15, v16, v17, v18, v21]);
    assert(v22@->Array_0 =~= seq![JsonV::String("User"@), JsonV::String("*REDACTED*"@), JsonV::String("*REDACTED*"@), JsonV::String("*REDACTED*"@), JsonV::Array(seq![JsonV::String("*REDACTED*"@), JsonV::String("*REDACTED*"@)])]);
    let v23 = array(vec![v12, v13, v14, v22]);
    assert(v23@->Array_0 =~= seq![JsonV::String("n"@), JsonV::Object(seq![]), JsonV::String("text"@), JsonV::Array(seq![JsonV::String("User"@), JsonV::String("*REDACTED*"@), JsonV::String("*REDACTED*"@), JsonV::String("*REDACTED*"@), JsonV::Array(seq![JsonV::String("*REDACTED*"@), JsonV::String("*REDACTED*"@)])])]);
    let v24 = string("kind");
    let v25 = object(vec![]);
    assert(v25@->Object_0 =~= seq![]);
    let v26 = string("text");
    let v27 = string("individual");
    let v28 = array(vec![v24, v25, v26, v27]);
    assert(v28@->Array_0 =~= seq![JsonV::String("kind"@), JsonV::Object(seq![]), JsonV::String("text"@), JsonV::String("individual"@)]);
    let v29 = string("lang");
    let v30 = string("1");
    let v31 = object(vec![(text("pref"), v30)]);
    assert(v31@->Object_0 =~= seq![("pref"@, JsonV::String("1"@))]);
    let v32 = string("language-tag");
    let v33 = string("*REDACTED*");
    let v34 = array(vec![v29, v31, v32, v33]);
    assert(v34@->Array_0 =~= seq![JsonV::String("lang"@), JsonV::Object(seq![("pref"@, JsonV::String("1"@))]), JsonV::String("language-tag"@), JsonV::String("*REDACTED*"@)]);
    let v35 = string("lang");
    let v36 = string("2");
    let v37 = object(vec![(text("pref"), v36)]);
    assert(v37@->Object_0 =~= seq![("pref"@, JsonV::String("2"@))]);
    let v38 = string("language-tag");
    let v39 = string("*REDACTED*");
    let v40 = array(vec![v35, v37, v38, v39]);
    assert(v40@->Array_0 =~= seq![JsonV::String("lang"@), JsonV::Object(seq![("pref"@, JsonV::String("2"@))]), JsonV::String("language-tag"@), JsonV::String("*REDACTED*"@)]);
    let v41 = string("org");
    let v42 = string("work");
    let v43 = object(vec![(text("type"), v42)]);
    assert(v43@->Object_0 =~= seq![("type"@, JsonV::String("work"@))]);
    let v44 = string("text");
    let v45 = string("*REDACTED*");
    let v46 = array(vec![v41, v43, v44, v45]);
    assert(v46@->Array_0 =~= seq![JsonV::String("org"@), JsonV::Object(seq![("type"@, JsonV::String("work"@))]), JsonV::String("text"@), JsonV::String("*REDACTED*"@)]);
    let v47 = string("title");
    let v48 = object(vec![]);
    assert(v48@->Object_0 =~= seq![]);
    let v49 = string("text");
    let v50 = string("*REDACTED*");
    let v51 = array(vec![v47, v48, v49, v50]);
    assert(v51@->Array_0 =~= seq![JsonV::String("title"@), JsonV::Object(seq![]), JsonV::String("text"@), JsonV::String("*REDACTED*"@)]);
    let v52 = string("role");
    let v53 = object(vec![]);
    assert(v53@->Object_0 =~= seq![]);
    let v54 = string("text");
    let v55 = string("*REDACTED*");
    let v56 = array(vec![v52, v53, v54, v55]);
    assert(v56@->Array_0 =~= seq![JsonV::String("role"@), JsonV::Object(seq![]), JsonV::String("text"@), JsonV::String("*REDACTED*"@)]);
    let v57 = string("adr");
    let v58 = string("work");
    let v59 = object(vec![(text("type"), v58)]);
    assert(v59@->Object_0 =~= seq![("type"@, JsonV::String("work"@))]);
    let v60 = string("text");
    let v61 = string("*REDACTED*");
    let v62 = string("*REDACTED*");
    let v63 = array(vec![v61, v62]);
    assert(v63@->Array_0 =~= seq![JsonV::String("*REDACTED*"@), JsonV::String("*REDACTED*"@)]);
    let v64 = array(vec![v57, v59, v60, v63]);
    assert(v64@->Array_0 =~= seq![JsonV::String("adr"@), JsonV::Object(seq![("type"@, JsonV::String("work"@))]), JsonV::String("text"@), JsonV::Array(seq![JsonV::String("*REDACTED*"@), JsonV::String("*REDACTED*"@)])]);
    let v65 = string("adr");
    let v66 = string("home");
    let v67 = string("*REDACTED*");
    let v68 = object(vec![(text("type"), v66), (text("label"), v67)]);
    assert(v68@->Object_0 =~= seq![("type"@, JsonV::String("home"@)), ("label"@, JsonV::String("*REDACTED*"@))]);
    let v69 = string("text");
    let v70 = string("*REDACTED*");
    let v71 = string("*REDACTED*");
    let v72 = array(vec![v70, v71]);
    assert(v72@->Array_0 =~= seq![JsonV::String("*REDACTED*"@), JsonV::String("*REDACTED*"@)]);
    let v73 = array(vec![v65, v68, v69, v72]);
    assert(v73@->Array_0 =~= seq![JsonV::String("adr"@), JsonV::Object(seq![("type"@, JsonV::String("home"@)), ("label"@, JsonV::String("*REDACTED*"@))]), JsonV::String("text"@), JsonV::Array(seq![JsonV::String("*REDACTED*"@), JsonV::String("*REDACTED*"@)])]);
    let v74 = string("tel");
    let v75 = string("work");
    let v76 = string("voice");
    let v77 = array(vec![v75, v76]);
    assert(v77@->Array_0 =~= seq![JsonV::String("work"@), JsonV::String("voice"@)]);
    let v78 = string("1");
    let v79 = object(vec![(text("type"), v77), (text("pref"), v78)]);
    assert(v79@->Object_0 =~= seq![("type"@, JsonV::Array(seq![JsonV::String("work"@), JsonV::String("voice"@)])), ("pref"@, JsonV::String("1"@))]);
    let v80 = string("uri");
    let v81 = string("*REDACTED*");
    let v82 = array(vec![v74, v79, v80, v81]);
    assert(v82@->Array_0 =~= seq![JsonV::String("tel"@), JsonV::Object(seq![("type"@, JsonV::Array(seq![JsonV::String("work"@), JsonV::String("voice"@)])), ("pref"@, JsonV::String("1"@))]), JsonV::String("uri"@), JsonV::String("*REDACTED*"@)]);
    let v83 = string("tel");
    let v84 = string("*REDACTED*");
    let v85 = string("*REDACTED*");
    let v86 = string("*REDACTED*");
    let v87 = string("*REDACTED*");
    let v88 = string("*REDACTED*");
    let v89 = array(vec![v84, v85, v86, v87, v88]);
    assert(v89@->Array_0 =~= seq![JsonV::String("*REDACTED*"@), JsonV::String("*REDACTED*"@), JsonV::String("*REDACTED*"@), JsonV::String("*REDACTED*"@), JsonV::String("*REDACTED*"@)]);
    let v90 = object(vec![(text("type"), v89)]);
    assert(v90@->Object_0 =~= seq![("type"@, JsonV::Array(seq![JsonV::String("*REDACTED*"@), JsonV::String("*REDACTED*"@), JsonV::String("*REDACTED*"@), JsonV::String("*REDACTED*"@), JsonV::String("*REDACTED*"@)]))]);
    let v91 = string("uri");
    let v92 = string("*REDACTED*");
    let v93 = array(vec![v83, v90, v91, v92]);
    assert(v93@->Array_0 =~= seq![JsonV::String("tel"@), JsonV::Object(seq![("type"@, JsonV::Array(seq![JsonV::String("*REDACTED*"@), JsonV::String("*REDACTED*"@), JsonV::String("*REDACTED*"@), JsonV::String("*REDACTED*"@), JsonV::String("*REDACTED*"@)]))]), JsonV::String("uri"@), JsonV::String("*REDACTED*"@)]);
    let v94 = string("email");
    let v95 = string("work");
    let v96 = object(vec![(text("type"), v95)]);
    assert(v96@->Object_0 =~= seq![("type"@, JsonV::String("work"@))]);
    let v97 = string("text");
    let v98 = string("*REDACTED*");
    let v99 = array(vec![v94, v96, v97, v98]);
    assert(v99@->Array_0 =~= seq![JsonV::String("email"@), JsonV::Object(seq![("type"@, JsonV::String("work"@))]), JsonV::String("text"@), JsonV::String("*REDACTED*"@)]);
    let v100 = string("geo");
    let v101 = string("work");
    let v102 = object(vec![(text("type"), v101)]);
    assert(v102@->Object_0 =~= seq![("type"@, JsonV::String("work"@))]);
    let v103 = string("uri");
    let v104 = string("*REDACTED*");
    let v105 = array(vec![v100, v102, v103, v104]);
    assert(v105@->Array_0 =~= seq![JsonV::String("geo"@), JsonV::Object(seq![("type"@, JsonV::String("work"@))]), JsonV::String("uri"@), JsonV::String("*REDACTED*"@)]);
    let v106 = string("key");
    let v107 = string("work");
    let v108 = object(vec![(text("type"), v107)]);
    assert(v108@->Object_0 =~= seq![("type"@, JsonV::String("work"@))]);
    let v109 = string("uri");
    let v110 = string("*REDACTED*");
    let v111 = array(vec![v106, v108, v109, v110]);
    assert(v111@->Array_0 =~= seq![JsonV::String("key"@), JsonV::Object(seq![("type"@, JsonV::String("work"@))]), JsonV::String("uri"@), JsonV::String("*REDACTED*"@)]);
    let v112 = string("tz");
    let v113 = object(vec![]);
    assert(v113@->Object_0 =~= seq![]);
    let v114 = string("utc-offset");
    let v115 = string("-05:00");
    let v116 = array(vec![v112, v113, v114, v115]);
    assert(v116@->Array_0 =~= seq![JsonV::String("tz"@), JsonV::Object(seq![]), JsonV::String("utc-offset"@), JsonV::String("-05:00"@)]);
    let v117 = string("url");
    let v118 = string("*REDACTED*");
    let v119 = object(vec![(text("type"), v118)]);
    assert(v119@->Object_0 =~= seq![("type"@, JsonV::String("*REDACTED*"@))]);
    let v120 = string("uri");
    let v121 = string("*REDACTED*");
    let v122 = array(vec![v117, v119, v120, v121]);
    assert(v122@->Array_0 =~= seq![JsonV::String("url"@), JsonV::Object(seq![("type"@, JsonV::String("*REDACTED*"@))]), JsonV::String("uri"@), JsonV::String("*REDACTED*"@)]);
    let v123 = array(vec![v6, v11, v23, v28, v34, v40, v46, v51, v56, v64, v73, v82, v93, v99, v105, v111, v116, v122]);
    assert(v123@->Array_0 =~= seq![JsonV::Array(seq![JsonV::String("version"@), JsonV::Object(seq![]), JsonV::String("text"@), JsonV::String("4.0"@)]), JsonV::Array(seq![JsonV::String("fn"@), JsonV::Object(seq![]), JsonV::String("text"@), JsonV::String("*REDACTED*"@)]), JsonV::Array(seq![JsonV::String("n"@), JsonV::Object(seq![]), JsonV::String("text"@), JsonV::Array(seq![JsonV::String("User"@), JsonV::String("*REDACTED*"@), JsonV::String("*REDACTED*"@), JsonV::String("*REDACTED*"@), JsonV::Array(seq![JsonV::String("*REDACTED*"@), JsonV::String("*REDACTED*"@)])])]), JsonV::Array(seq![JsonV::String("kind"@), JsonV::Object(seq![]), JsonV::String("text"@), JsonV::String("individual"@)]), JsonV::Array(seq![JsonV::String("lang"@), JsonV::Object(seq![("pref"@, JsonV::String("1"@))]), JsonV::String("language-tag"@), JsonV::String("*REDACTED*"@)]), JsonV::Array(seq![JsonV::String("lang"@), JsonV::Object(seq![("pref"@, JsonV::String("2"@))]), JsonV::String("language-tag"@), JsonV::String("*REDACTED*"@)]), JsonV::Array(seq![JsonV::String("org"@), JsonV::Object(seq![("type"@, JsonV::String("work"@))]), JsonV::String("text"@), JsonV::String("*REDACTED*"@)]), JsonV::Array(seq![JsonV::String("title"@), JsonV::Object(seq![]), JsonV::String("text"@), JsonV::String("*REDACTED*"@)]), JsonV::Array(seq![JsonV::String("role"@), JsonV::Object(seq![]), JsonV::String("text"@), JsonV::String("*REDACTED*"@)]), JsonV::Array(seq![JsonV::String("adr"@), JsonV::Object(seq![("type"@, JsonV::String("work"@))]), JsonV::String("text"@), JsonV::Array(seq![JsonV::String("*REDACTED*"@), JsonV::String("*REDACTED*"@)])]), JsonV::Array(seq![JsonV::String("adr"@), JsonV::Object(seq![("type"@, JsonV::String("home"@)), ("label"@, JsonV::String("*REDACTED*"@))]), JsonV::String("text"@), JsonV::Array(seq![JsonV::String("*REDACTED*"@), JsonV::String("*REDACTED*"@)])]), JsonV::Array(seq![JsonV::String("tel"@), JsonV::Object(seq![("type"@, JsonV::Array(seq![JsonV::String("work"@), JsonV::String("voice"@)])), ("pref"@, JsonV::String("1"@))]), JsonV::String("uri"@), JsonV::String("*REDACTED*"@)]), JsonV::Array(seq![JsonV::String("tel"@), JsonV::Object(seq![("type"@, JsonV::Array(seq![JsonV::String("*REDACTED*"@), JsonV::String("*REDACTED*"@), JsonV::String("*REDACTED*"@), JsonV::String("*REDACTED*"@), JsonV::String("*REDACTED*"@)]))]), JsonV::String("uri"@), JsonV::String("*REDACTED*"@)]), JsonV::Array(seq![JsonV::String("email"@), JsonV::Object(seq![("type"@, JsonV::String("work"@))]), JsonV::String("text"@), JsonV::String("*REDACTED*"@)]), JsonV::Array(seq![JsonV::String("geo"@), JsonV::Object(seq![("type"@, JsonV::String("work"@))]), JsonV::String("uri"@), JsonV::String("*REDACTED*"@)]), JsonV::Array(seq![JsonV::String("key"@), JsonV::Object(seq![("type"@, JsonV::String("work"@))]), JsonV::String("uri"@), JsonV::String("*REDACTED*"@)]), JsonV::Array(seq![JsonV::String("tz"@), JsonV::Object(seq![]), JsonV::String("utc-offset"@), JsonV::String("-05:00"@)]), JsonV::Array(seq![JsonV::String("url"@), JsonV::Object(seq![("type"@, JsonV::String("*REDACTED*"@))]), JsonV::String("uri"@), JsonV::String("*REDACTED*"@)])]);
    let v124 = array(vec![v1, v123]);
    assert(v124@->Array_0 =~= seq![JsonV::String("vcard"@), JsonV::Array(seq![JsonV::Array(seq![JsonV::String("version"@), JsonV::Object(seq![]), JsonV::String("text"@), JsonV::String("4.0"@)]), JsonV::Array(seq![JsonV::String("fn"@), JsonV::Object(seq![]), JsonV::String("text"@), JsonV::String("*REDACTED*"@)]), JsonV::Array(seq![JsonV::String("n"@), JsonV::Object(seq![]), JsonV::String("text"@), JsonV::Array(seq![JsonV::String("User"@), JsonV::String("*REDACTED*"@), JsonV::String("*REDACTED*"@), JsonV::String("*REDACTED*"@), JsonV::Array(seq![JsonV::String("*REDACTED*"@), JsonV::String("*REDACTED*"@)])])]), JsonV::Array(seq![JsonV::String("kind"@), JsonV::Object(seq![]), JsonV::String("text"@), JsonV::String("individual"@)]), JsonV::Array(seq![JsonV::String("lang"@), JsonV::Object(seq![("pref"@, JsonV::String("1"@))]), JsonV::String("language-tag"@), JsonV::String("*REDACTED*"@)]), JsonV::Array(seq![JsonV::String("lang"@), JsonV::Object(seq![("pref"@, JsonV::String("2"@))]), JsonV::String("language-tag"@), JsonV::String("*REDACTED*"@)]), JsonV::Array(seq![JsonV::String("org"@), JsonV::Object(seq![("type"@, JsonV::String("work"@))]), JsonV::String("text"@), JsonV::String("*REDACTED*"@)]), JsonV::Array(seq![JsonV::String("title"@), JsonV::Object(seq![]), JsonV::String("text"@), JsonV::String("*REDACTED*"@)]), JsonV::Array(seq![JsonV::String("role"@), JsonV::Object(seq![]), JsonV::String("text"@), JsonV::String("*REDACTED*"@)]), JsonV::Array(seq![JsonV::String("adr"@), JsonV::Object(seq![("type"@, JsonV::String("work"@))]), JsonV::String("text"@), JsonV::Array(seq![JsonV::String("*REDACTED*"@), JsonV::String("*REDACTED*"@)])]), JsonV::Array(seq![JsonV::String("adr"@), JsonV::Object(seq![("type"@, JsonV::String("home"@)), ("label"@, JsonV::String("*REDACTED*"@))]), JsonV::String("text"@), JsonV::Array(seq![JsonV::String("*REDACTED*"@), JsonV::String("*REDACTED*"@)])]), JsonV::Array(seq![JsonV::String("tel"@), JsonV::Object(seq![("type"@, JsonV::Array(seq![JsonV::String("work"@), JsonV::String("voice"@)])), ("pref"@, JsonV::String("1"@))]), JsonV::String("uri"@), JsonV::String("*REDACTED*"@)]), JsonV::Array(seq![JsonV::String("tel"@), JsonV::Object(seq![("type"@, JsonV::Array(seq![JsonV::String("*REDACTED*"@), JsonV::String("*REDACTED*"@), JsonV::String("*REDACTED*"@), JsonV::String("*REDACTED*"@), JsonV::String("*REDACTED*"@)]))]), JsonV::String("uri"@), JsonV::String("*REDACTED*"@)]), JsonV::Array(seq![JsonV::String("email"@), JsonV::Object(seq![("type"@, JsonV::String("work"@))]), JsonV::String("text"@), JsonV::String("*REDACTED*"@)]), JsonV::Array(seq![JsonV::String("geo"@), JsonV::Object(seq![("type"@, JsonV::String("work"@))]), JsonV::String("uri"@), JsonV::String("*REDACTED*"@)]), JsonV::Array(seq![JsonV::String("key"@), JsonV::Object(seq![("type"@, JsonV::String("work"@))]), JsonV::String("uri"@), JsonV::String("*REDACTED*"@)]), JsonV::Array(seq![JsonV::String("tz"@), JsonV::Object(seq![]), JsonV::String("utc-offset"@), JsonV::String("-05:00"@)]), JsonV::Array(seq![JsonV::String("url"@), JsonV::Object(seq![("type"@, JsonV::String("*REDACTED*"@))]), JsonV::String("uri"@), JsonV::String("*REDACTED*"@)])])]);
    let v125 = object(vec![(text("vcardArray"), v124)]);
    assert(v125@->Object_0 =~= seq![("vcardArray"@, JsonV::Array(seq![JsonV::String("vcard"@), JsonV::Array(seq![JsonV::Array(seq![JsonV::String("version"@), JsonV::Object(seq![]), JsonV::String("text"@), JsonV::String("4.0"@)]), JsonV::Array(seq![JsonV::String("fn"@), JsonV::Object(seq![]), JsonV::String("text"@), JsonV::String("*REDACTED*"@)]), JsonV::Array(seq![JsonV::String("n"@), JsonV::Object(seq![]), JsonV::String("text"@), JsonV::Array(seq![JsonV::String("User"@), JsonV::String("*REDACTED*"@), JsonV::String("*REDACTED*"@), JsonV::String("*REDACTED*"@), JsonV::Array(seq![JsonV::String("*REDACTED*"@), JsonV::String("*REDACTED*"@)])])]), JsonV::Array(seq![JsonV::String("kind"@), JsonV::Object(seq![]), JsonV::String("text"@), JsonV::String("individual"@)]), JsonV::Array(seq![JsonV::String("lang"@), JsonV::Object(seq![("pref"@, JsonV::String("1"@))]), JsonV::String("language-tag"@), JsonV::String("*REDACTED*"@)]), JsonV::Array(seq![JsonV::String("lang"@), JsonV::Object(seq![("pref"@, JsonV::String("2"@))]), JsonV::String("language-tag"@), JsonV::String("*REDACTED*"@)]), JsonV::Array(seq![JsonV::String("org"@), JsonV::Object(seq![("type"@, JsonV::String("work"@))]), JsonV::String("text"@), JsonV::String("*REDACTED*"@)]), JsonV::Array(seq![JsonV::String("title"@), JsonV::Object(seq![]), JsonV::String("text"@), JsonV::String("*REDACTED*"@)]), JsonV::Array(seq![JsonV::String("role"@), JsonV::Object(seq![]), JsonV::String("text"@), JsonV::String("*REDACTED*"@)]), JsonV::Array(seq![JsonV::String("adr"@), JsonV::Object(seq![("type"@, JsonV::String("work"@))]), JsonV::String("text"@), JsonV::Array(seq![JsonV::String("*REDACTED*"@), JsonV::String("*REDACTED*"@)])]), JsonV::Array(seq![JsonV::String("adr"@), JsonV::Object(seq![("type"@, JsonV::String("home"@)), ("label"@, JsonV::String("*REDACTED*"@))]), JsonV::String("text"@), JsonV::Array(seq![JsonV::String("*REDACTED*"@), JsonV::String("*REDACTED*"@)])]), JsonV::Array(seq![JsonV::String("tel"@), JsonV::Object(seq![("type"@, JsonV::Array(seq![JsonV::String("work"@), JsonV::String("voice"@)])), ("pref"@, JsonV::String("1"@))]), JsonV::String("uri"@), JsonV::String("*REDACTED*"@)]), JsonV::Array(seq![JsonV::String("tel"@), JsonV::Object(seq![("type"@, JsonV::Array(seq![JsonV::String("*REDACTED*"@), JsonV::String("*REDACTED*"@), JsonV::String("*REDACTED*"@), JsonV::String("*REDACTED*"@), JsonV::String("*REDACTED*"@)]))]), JsonV::String("uri"@), JsonV::String("*REDACTED*"@)]), JsonV::Array(seq![JsonV::String("email"@), JsonV::Object(seq![("type"@, JsonV::String("work"@))]), JsonV::String("text"@), JsonV::String("*REDACTED*"@)]), JsonV::Array(seq![JsonV::String("geo"@), JsonV::Object(seq![("type"@, JsonV::String("work"@))]), JsonV::String("uri"@), JsonV::String("*REDACTED*"@)]), JsonV::Array(seq![JsonV::String("key"@), JsonV::Object(seq![("type"@, JsonV::String("work"@))]), JsonV::String("uri"@), JsonV::String("*REDACTED*"@)]), JsonV::Array(seq![JsonV::String("tz"@), JsonV::Object(seq![]), JsonV::String("utc-offset"@), JsonV::String("-05:00"@)]), JsonV::Array(seq![JsonV::String("url"@), JsonV::Object(seq![("type"@, JsonV::String("*REDACTED*"@))]), JsonV::String("uri"@), JsonV::String("*REDACTED*"@)])])]))]);
    v125
}

/// The stand-in for a redacted `port43`.
pub fn make_shadow_port43() -> (r: Json)
    ensures
        r@ == JsonV::Object(seq![("port43"@, JsonV::String("*REDACTED*"@))]),
{
    let v1 = string("*REDACTED*");
    let v2 = object(vec![(text("port43"), v1)]);
    assert(v2@->Object_0 =~= seq![("port43"@, JsonV::String("*REDACTED*"@))]);
    v2
}

/// The stand-in for a redacted `status`.
pub fn make_shadow_status() -> (r: Json)
    ensures
        r@ == JsonV::Object(seq![("status"@, JsonV::Array(seq![JsonV::String("*REDACTED*"@), JsonV::String("*REDACTED*"@)]))]),
{
    let v1 = string("*REDACTED*");
    let v2 = string("*REDACTED*");
    let v3 = array(vec![v1, v2]);
    assert(v3@->Array_0 =~= seq![JsonV::String("*REDACTED*"@), JsonV::String("*REDACTED*"@)]);
    let v4 = object(vec![(text("status"), v3)]);
    assert(v4@->Object_0 =~= seq![("status"@, JsonV::Array(seq![JsonV::String("*REDACTED*"@), JsonV::String("*REDACTED*"@)]))]);
    v4
}

/// The stand-in for a redacted `handle`.
pub fn make_shadow_handle() -> (r: Json)
    ensures
        r@ == JsonV::Object(seq![("handle"@, JsonV::String("*REDACTED*"@))]),
{
    let v1 = string("*REDACTED*");
    let v2 = object(vec![(text("handle"), v1)]);
    assert(v2@->Object_0 =~= seq![("handle"@, JsonV::String("*REDACTED*"@))]);
    v2
}

/// The stand-in for redacted `roles`.
pub fn make_shadow_roles() -> (r: Json)
    ensures
        r@ == JsonV::Object(seq![("roles"@, JsonV::Array(seq![JsonV::String("*REDACTED*"@)]))]),
{
    let v1 = string("*REDACTED*");
    let v2 = array(vec![v1]);
    assert(v2@->Array_0 =~= seq![JsonV::String("*REDACTED*"@)]);
    let v3 = object(vec![(text("roles"), v2)]);
    assert(v3@->Object_0 =~= seq![("roles"@, JsonV::Array(seq![JsonV::String("*REDACTED*"@)]))]);
    v3
}

/// The stand-in for a redacted `ldhName`.
#[allow(non_snake_case)]
pub fn make_shadow_ldhName() -> (r: Json)
    ensures
        r@ == JsonV::Object(seq![("ldhName"@, JsonV::String("*REDACTED*"@))]),
{
    let v1 = string("*REDACTED*");
    let v2 = object(vec![(text("ldhName"), v1)]);
    assert(v2@->Object_0 =~= seq![("ldhName"@, JsonV::String("*REDACTED*"@))]);
    v2
}

/// The stand-in for a redacted `unicodeName`.
#[allow(non_snake_case)]
pub fn make_shadow_unicodeName() -> (r: Json)
    ensures
        r@ == JsonV::Object(seq![("unicodeName"@, JsonV::String("*REDACTED*"@))]),
{
    let v1 = string("*REDACTED*");
    let v2 = object(vec![(text("unicodeName"), v1)]);
    assert(v2@->Object_0 =~= seq![("unicodeName"@, JsonV::String("*REDACTED*"@))]);
    v2
}

/// The stand-in for redacted `ipAddresses`.
pub fn make_ip_addresses() -> (r: Json)
    ensures
        r@ == JsonV::Object(seq![("ipAddresses"@, JsonV::Array(seq![JsonV::Object(seq![("v4"@, JsonV::Array(seq![JsonV::String("*REDACTED*"@)])), ("v6"@, JsonV::Array(seq![JsonV::String("*REDACTED*"@)]))])]))]),
{
    let v1 = string("*REDACTED*");
    let v2 = array(vec![v1]);
    assert(v2@->Array_0 =~= seq![JsonV::String("*REDACTED*"@)]);
    let v3 = string("*REDACTED*");
    let v4 = array(vec![v3]);
    assert(v4@->Array_0 =~= seq![JsonV::String("*REDACTED*"@)]);
    let v5 = object(vec![(text("v4"), v2), (text("v6"), v4)]);
    assert(v5@->Object_0 =~= seq![("v4"@, JsonV::Array(seq![JsonV::String("*REDACTED*"@)])), ("v6"@, JsonV::Array(seq![JsonV::String("*REDACTED*"@)]))]);
    let v6 = array(vec![v5]);
    assert(v6@->Array_0 =~= seq![JsonV::Object(seq![("v4"@, JsonV::Array(seq![JsonV::String("*REDACTED*"@)])), ("v6"@, JsonV::Array(seq![JsonV::String("*REDACTED*"@)]))])]);
    let v7 = object(vec![(text("ipAddresses"), v6)]);
    assert(v7@->Object_0 =~= seq![("ipAddresses"@, JsonV::Array(seq![JsonV::Object(seq![("v4"@, JsonV::Array(seq![JsonV::String("*REDACTED*"@)])), ("v6"@, JsonV::Array(seq![JsonV::String("*REDACTED*"@)]))])]))]);
    v7
}

/// The stand-in for a redacted `secureDNS`.
#[allow(non_snake_case)]
pub fn makes_secureDNS() -> (r: Json)
    ensures
        r@ == JsonV::Object(seq![("secureDNS"@, JsonV::Object(seq![("zoneSigned"@, JsonV::Bool(true)), ("delegationSigned"@, JsonV::Bool(true)), ("maxSigLife"@, JsonV::Null), ("dsData"@, JsonV::Array(seq![JsonV::Object(seq![("keyTag"@, JsonV::Null), ("algorithm"@, JsonV::Null), ("digest"@, JsonV::String("*REDACTED*"@)), ("digestType"@, JsonV::Null)])])), ("keyData"@, JsonV::Array(seq![JsonV::Object(seq![("flags"@, JsonV::Null), ("protocol"@, JsonV::Null), ("algorithm"@, JsonV::Null), ("publicKey"@, JsonV::String("*REDACTED*"@))])]))]))]),
{
    let v1 = Json::Bool(true);
    let v2 = Json::Bool(true);
    let v3 = Json::Null;
    let v4 = Json::Null;
    let v5 = Json::Null;
    let v6 = string("*REDACTED*");
    let v7 = Json::Null;
    let v8 = object(vec![(text("keyTag"), v4), (text("algorithm"), v5), (text("digest"), v6), (text("digestType"), v7)]);
    assert(v8@->Object_0 =~= seq![("keyTag"@, JsonV::Null), ("algorithm"@, JsonV::Null), ("digest"@, JsonV::String("*REDACTED*"@)), ("digestType"@, JsonV::Null)]);
    let v9 = array(vec![v8]);
    assert(v9@->Array_0 =~= seq![JsonV::Object(seq![("keyTag"@, JsonV::Null), ("algorithm"@, JsonV::Null), ("digest"@, JsonV::String("*REDACTED*"@)), ("digestType"@, JsonV::Null)])]);
    let v10 = Json::Null;
    let v11 = Json::Null;
    let v12 = Json::Null;
    let v13 = string("*REDACTED*");
    let v14 = object(vec![(text("flags"), v10), (text("protocol"), v11), (text("algorithm"), v12), (text("publicKey"), v13)]);
    assert(v14@->Object_0 =~= seq![("flags"@, JsonV::Null), ("protocol"@, JsonV::Null), ("algorithm"@, JsonV::Null), ("publicKey"@, JsonV::String("*REDACTED*"@))]);
    let v15 = array(vec![v14]);
    assert(v15@->Array_0 =~= seq![JsonV::Object(seq![("flags"@, JsonV::Null), ("protocol"@, JsonV::Null), ("algorithm"@, JsonV::Null), ("publicKey"@, JsonV::String("*REDACTED*"@))])]);
    let v16 = object(vec![(text("zoneSigned"), v1), (text("delegationSigned"), v2), (text("maxSigLife"), v3), (text("dsData"), v9), (text("keyData"), v15)]);
    assert(v16@->Object_0 =~= seq![("zoneSigned"@, JsonV::Bool(true)), ("delegationSigned"@, JsonV::Bool(true)), ("maxSigLife"@, JsonV::Null), ("dsData"@, JsonV::Array(seq![JsonV::Object(seq![("keyTag"@, JsonV::Null), ("algorithm"@, JsonV::Null), ("digest"@, JsonV::String("*REDACTED*"@)), ("digestType"@, JsonV::Null)])])), ("keyData"@, JsonV::Array(seq![JsonV::Object(seq![("flags"@, JsonV::Null), ("protocol"@, JsonV::Null), ("algorithm"@, JsonV::Null), ("publicKey"@, JsonV::String("*REDACTED*"@))])]))]);
    let v17 = object(vec![(text("secureDNS"), v16)]);
    assert(v17@->Object_0 =~= seq![("secureDNS"@, JsonV::Object(seq![("zoneSigned"@, JsonV::Bool(true)), ("delegationSigned"@, JsonV::Bool(true)), ("maxSigLife"@, JsonV::Null), ("dsData"@, JsonV::Array(seq![JsonV::Object(seq![("keyTag"@, JsonV::Null), ("algorithm"@, JsonV::Null), ("digest"@, JsonV::String("*REDACTED*"@)), ("digestType"@, JsonV::Null)])])), ("keyData"@, JsonV::Array(seq![JsonV::Object(seq![("flags"@, JsonV::Null), ("protocol"@, JsonV::Null), ("algorithm"@, JsonV::Null), ("publicKey"@, JsonV::String("*REDACTED*"@))])]))]))]);
    v17
}

/// The stand-in for redacted `entities`: none.
pub fn make_shadow_entities() -> (r: Json)
    ensures
        r@ == JsonV::Object(seq![("entities"@, JsonV::Array(seq![]))]),
{
    let v1 = array(vec![]);
    assert(v1@->Array_0 =~= seq![]);
    let v2 = object(vec![(text("entities"), v1)]);
    assert(v2@->Object_0 =~= seq![("entities"@, JsonV::Array(seq![]))]);
    v2
}

} // verus!
