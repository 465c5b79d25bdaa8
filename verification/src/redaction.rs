use vstd::prelude::*;
use crate::path_safety::{index_safe, is_index_safe};
use crate::json::{Json, JsonV, json_get, json_wf, object_get};
use crate::outside::{brackets_to_slashes, find_as_path, json_path_matches, regex_replace_all};
use crate::pointer::{json_pointer_get, pointer_lookup};
use crate::pointer_path::{convert_to_json_pointer_path, pointer_path_of};
use crate::text::{chars_of, string_of, trim_char, trim_end_chars, trim_start_chars};

verus! {

/// What was found at the end of one of a redaction's paths.
#[derive(Debug, PartialEq, Eq, Clone, Copy, Structural)]
pub enum ResultType {
    /// A string "NO_VALUE", or nothing at all where the path pointed.
    StringNoValue,
    /// An empty string.
    EmptyString,
    /// A string with a value.
    PartialString,
    /// An array.
    Array,
    /// An object.
    Object,
    /// The path matched nothing.
    Removed,
    /// A null.
    FoundNull,
    /// Neither a string, a null, an array nor an object.
    FoundNothing,
    /// The path found was not a string.
    FoundUnknown,
    /// The path search did not give an array of paths.
    FoundPathReturnedBadValue,
}

/// The kind of redaction, judged from the method claimed and what was found.
#[derive(Debug, PartialEq, Eq, Clone, Copy, Structural)]
pub enum RedactionType {
    EmptyValue,
    PartialValue,
    ReplacementValue,
    Removal,
    Unknown,
}

/// One entry of an RDAP `redacted` array, with what its path found.
#[derive(Debug)]
pub struct RedactedObject {
    /// The name's description (or type).
    pub name: Json,
    /// How many paths the JSONPath resolved to.
    pub path_index_count: i32,
    pub pre_path: Option<String>,
    pub post_path: Option<String>,
    /// The path given: the prePath, else the postPath.
    pub original_path: Option<String>,
    /// The paths found, one for each value that may be replaced.
    pub final_path: Vec<Option<String>>,
    /// Whether the values found are to be replaced.
    pub do_final_path_subsitution: bool,
    pub path_lang: Json,
    pub replacement_path: Option<String>,
    pub method: Json,
    /// The reason's description (or type).
    pub reason: Json,
    /// What each path found.
    pub result_type: Vec<Option<ResultType>>,
    pub redaction_type: Option<RedactionType>,
}

pub struct RedactedObjectV {
    pub name: JsonV,
    pub path_index_count: i32,
    pub pre_path: Option<Seq<char>>,
    pub post_path: Option<Seq<char>>,
    pub original_path: Option<Seq<char>>,
    pub final_path: Seq<Option<Seq<char>>>,
    pub do_final_path_subsitution: bool,
    pub path_lang: JsonV,
    pub replacement_path: Option<Seq<char>>,
    pub method: JsonV,
    pub reason: JsonV,
    pub result_type: Seq<Option<ResultType>>,
    pub redaction_type: Option<RedactionType>,
}

pub open spec fn opt_text(o: Option<String>) -> Option<Seq<char>> {
    match o {
        Some(s) => Some(s@),
        None => None,
    }
}

impl View for RedactedObject {
    type V = RedactedObjectV;

    open spec fn view(&self) -> RedactedObjectV {
        RedactedObjectV {
            name: self.name@,
            path_index_count: self.path_index_count,
            pre_path: opt_text(self.pre_path),
            post_path: opt_text(self.post_path),
            original_path: opt_text(self.original_path),
            final_path: self.final_path@.map_values(|o: Option<String>| opt_text(o)),
            do_final_path_subsitution: self.do_final_path_subsitution,
            path_lang: self.path_lang@,
            replacement_path: opt_text(self.replacement_path),
            method: self.method@,
            reason: self.reason@,
            result_type: self.result_type@,
            redaction_type: self.redaction_type,
        }
    }
}

/// The empty string, where a field is missing.
pub open spec fn empty_text() -> JsonV {
    JsonV::String(Seq::empty())
}

/// The string under `key`, if that is a string.
pub open spec fn str_field(item: JsonV, key: Seq<char>) -> Option<Seq<char>> {
    match json_get(item, key) {
        Some(JsonV::String(s)) => Some(s),
        _ => None,
    }
}

/// The `description` (else the `type`) of the object under `key`.
pub open spec fn described(item: JsonV, key: Seq<char>) -> Option<JsonV> {
    match json_get(item, key) {
        Some(JsonV::Object(entries)) => match object_get(entries, "description"@) {
            Some(v) => Some(v),
            None => object_get(entries, "type"@),
        },
        _ => None,
    }
}

/// A redaction entry as read from its fields, before its path is looked up.
pub open spec fn initial_object(item: JsonV) -> RedactedObjectV {
    let pre = str_field(item, "prePath"@);
    let post = str_field(item, "postPath"@);
    RedactedObjectV {
        name: match described(item, "name"@) {
            Some(v) => v,
            None => empty_text(),
        },
        path_index_count: 0,
        pre_path: pre,
        post_path: post,
        original_path: if pre is Some {
            pre
        } else {
            post
        },
        final_path: Seq::empty(),
        do_final_path_subsitution: false,
        path_lang: match json_get(item, "pathLang"@) {
            Some(v) => v,
            None => empty_text(),
        },
        replacement_path: str_field(item, "replacementPath"@),
        method: match json_get(item, "method"@) {
            Some(v) => v,
            None => empty_text(),
        },
        reason: match described(item, "reason"@) {
            Some(v) => v,
            None => empty_text(),
        },
        result_type: Seq::empty(),
        redaction_type: None,
    }
}

/// Whether the object's original path, stripped of `"`, can be searched:
/// it holds no brackets on which jsonpath-rust panics (see `index_safe`).
pub open spec fn path_searchable(o: RedactedObjectV) -> bool {
    o.original_path matches Some(p) ==> index_safe(trim_char(p, '"'))
}

/// Whether a `redacted` entry can be read: it is an object, and its path can
/// be searched.
pub open spec fn readable_entry(item: JsonV) -> bool {
    item is Object && path_searchable(initial_object(item))
}

/// What the value found at a path (`None`: nothing there) is taken to be.
pub open spec fn classify(found: Option<JsonV>) -> ResultType {
    match found {
        None => ResultType::StringNoValue,
        Some(JsonV::String(s)) => if s == "NO_VALUE"@ {
            ResultType::StringNoValue
        } else if s.len() == 0 {
            ResultType::EmptyString
        } else {
            ResultType::PartialString
        },
        Some(JsonV::Null) => ResultType::FoundNull,
        Some(JsonV::Array(_)) => ResultType::Array,
        Some(JsonV::Object(_)) => ResultType::Object,
        _ => ResultType::FoundNothing,
    }
}

/// What one found path gives: the value at its pointer, or `FoundUnknown`
/// where the path is not a string.
pub open spec fn found_path_result(doc: JsonV, p: JsonV) -> Option<ResultType> {
    match p {
        JsonV::String(s) => Some(classify(json_pointer_get(doc, pointer_path_of(s)))),
        _ => Some(ResultType::FoundUnknown),
    }
}

pub open spec fn found_path_results(doc: JsonV, paths: Seq<JsonV>) -> Seq<Option<ResultType>> {
    paths.map_values(|p: JsonV| found_path_result(doc, p))
}

/// The found paths that are strings, in order.
pub open spec fn found_final_paths(paths: Seq<JsonV>) -> Seq<Option<Seq<char>>>
    decreases paths.len(),
{
    if paths.len() == 0 {
        Seq::empty()
    } else {
        let rest = found_final_paths(paths.drop_last());
        match paths.last() {
            JsonV::String(s) => rest.push(Some(s)),
            _ => rest,
        }
    }
}

/// `o` after its original path was searched in `doc`.
pub open spec fn after_json_path(doc: JsonV, o: RedactedObjectV) -> RedactedObjectV {
    match o.original_path {
        None => o,
        Some(p) => match json_path_matches(doc, trim_char(p, '"')) {
            None => o,
            Some(JsonV::Array(paths)) => if paths.len() == 0 {
                RedactedObjectV { result_type: o.result_type.push(Some(ResultType::Removed)), ..o }
            } else {
                RedactedObjectV {
                    path_index_count: #[verifier::truncate] (paths.len() as i32),
                    final_path: o.final_path + found_final_paths(paths),
                    result_type: o.result_type + found_path_results(doc, paths),
                    ..o
                }
            },
            Some(_) => RedactedObjectV {
                result_type: o.result_type.push(Some(ResultType::FoundPathReturnedBadValue)),
                ..o
            },
        },
    }
}

} // verus!

verus! {

/// A copy of an optional string.
fn copy_opt_text(o: &Option<String>) -> (r: Option<String>)
    ensures
        opt_text(r) == opt_text(*o),
{
    match o {
        Some(s) => Some(s.clone()),
        None => None,
    }
}

impl Clone for RedactedObject {
    /// A copy with the same model.
    fn clone(&self) -> (r: RedactedObject)
        ensures
            r@ == self@,
    {
        let mut final_path: Vec<Option<String>> = Vec::new();
        let mut i: usize = 0;
        while i < self.final_path.len()
            invariant
                0 <= i <= self.final_path.len(),
                final_path.len() == i,
                forall|k: int|
                    0 <= k < i ==> #[trigger] opt_text(final_path@[k]) == opt_text(
                        self.final_path@[k],
                    ),
            decreases self.final_path.len() - i,
        {
            final_path.push(copy_opt_text(&self.final_path[i]));
            i += 1;
        }
        let mut result_type: Vec<Option<ResultType>> = Vec::new();
        let mut j: usize = 0;
        while j < self.result_type.len()
            invariant
                0 <= j <= self.result_type.len(),
                result_type@ == self.result_type@.take(j as int),
            decreases self.result_type.len() - j,
        {
            result_type.push(self.result_type[j]);
            j += 1;
            assert(result_type@ =~= self.result_type@.take(j as int));
        }
        assert(self.result_type@.take(self.result_type.len() as int) =~= self.result_type@);
        let r = RedactedObject {
            name: self.name.deep_copy(),
            path_index_count: self.path_index_count,
            pre_path: copy_opt_text(&self.pre_path),
            post_path: copy_opt_text(&self.post_path),
            original_path: copy_opt_text(&self.original_path),
            final_path,
            do_final_path_subsitution: self.do_final_path_subsitution,
            path_lang: self.path_lang.deep_copy(),
            replacement_path: copy_opt_text(&self.replacement_path),
            method: self.method.deep_copy(),
            reason: self.reason.deep_copy(),
            result_type,
            redaction_type: self.redaction_type,
        };
        assert(r@.final_path =~= self@.final_path);
        r
    }
}

/// `s` as an owned string.
fn text(s: &str) -> (r: String)
    ensures
        r@ == s@,
{
    String::from_str(s)
}

/// What the value at a path (`None`: nothing there) is taken to be.
pub fn classify_found(found: &Option<Json>) -> (r: ResultType)
    ensures
        r == classify(
            match found {
                Some(v) => Some(v@),
                None => None,
            },
        ),
{
    match found {
        None => ResultType::StringNoValue,
        Some(Json::String(s)) => {
            if *s == text("NO_VALUE") {
                ResultType::StringNoValue
            } else if s.unicode_len() == 0 {
                ResultType::EmptyString
            } else {
                ResultType::PartialString
            }
        },
        Some(Json::Null) => ResultType::FoundNull,
        Some(Json::Array(_)) => ResultType::Array,
        Some(Json::Object(_)) => ResultType::Object,
        Some(_) => ResultType::FoundNothing,
    }
}

/// `s` without the `"` characters at either end.
fn trim_quotes(s: &str) -> (r: String)
    ensures
        r@ == trim_char(s@, '"'),
{
    let cs = chars_of(s);
    let front = trim_start_chars(&cs, '"');
    let both = trim_end_chars(&front, '"');
    string_of(&both)
}

/// Searches the item's original path (its prePath, else its postPath) in the
/// document `u` and records, for each path found, the path and what is there
/// (nothing found: `Removed`). Returns a copy of the updated item.
pub fn set_result_type_from_json_path(u: Json, item: &mut RedactedObject) -> (r: RedactedObject)
    requires
        json_wf(u@),
        path_searchable(old(item)@),
    ensures
        final(item)@ == after_json_path(u@, old(item)@),
        r@ == final(item)@,
{
    if let Some(path) = &item.original_path {
        let path = trim_quotes(path.as_str());
        let found = find_as_path(&u.to_value(), path.as_str());
        if let Some(found) = found {
            let matches = Json::from_value(found);
            proof {
                crate::json::lemma_view_items(matches);
            }
            if let Json::Array(paths) = matches {
                let ghost pv = matches@->Array_0;
                if paths.len() == 0 {
                    item.result_type.push(Some(ResultType::Removed));
                } else {
                    let len = paths.len();
                    item.path_index_count = #[verifier::truncate] (len as i32);
                    let ghost fp0 = item@.final_path;
                    let ghost rt0 = item@.result_type;
                    let mut i: usize = 0;
                    while i < len
                        invariant
                            len == paths.len(),
                            0 <= i <= len,
                            pv.len() == len,
                            forall|k: int| 0 <= k < len ==> #[trigger] pv[k] == paths@[k]@,
                            json_wf(u@),
                            item@.final_path == fp0 + found_final_paths(pv.take(i as int)),
                            item@.result_type == rt0 + found_path_results(
                                u@,
                                pv.take(i as int),
                            ),
                            item@.path_index_count == #[verifier::truncate] (len as i32),
                            item@.original_path == old(item)@.original_path,
                            item@.name == old(item)@.name,
                            item@.pre_path == old(item)@.pre_path,
                            item@.post_path == old(item)@.post_path,
                            item@.do_final_path_subsitution == old(
                                item,
                            )@.do_final_path_subsitution,
                            item@.path_lang == old(item)@.path_lang,
                            item@.replacement_path == old(item)@.replacement_path,
                            item@.method == old(item)@.method,
                            item@.reason == old(item)@.reason,
                            item@.redaction_type == old(item)@.redaction_type,
                        decreases len - i,
                    {
                        assert(pv.take(i + 1).drop_last() =~= pv.take(i as int));
                        assert(pv.take(i + 1).last() == pv[i as int]);
                        let ghost fp_before = item@.final_path;
                        if let Json::String(found_path) = &paths[i] {
                            item.final_path.push(Some(found_path.clone()));
                            assert(item@.final_path =~= fp_before.push(Some(found_path@)));
                            let pointer = convert_to_json_pointer_path(found_path.as_str());
                            let value_at_path = pointer_lookup(&u, pointer.as_str());
                            let kind = classify_found(&value_at_path);
                            item.result_type.push(Some(kind));
                        } else {
                            item.result_type.push(Some(ResultType::FoundUnknown));
                            assert(item@.final_path =~= fp_before);
                        }
                        i += 1;
                        assert(item@.final_path =~= fp0 + found_final_paths(pv.take(i as int)));
                        assert(item@.result_type =~= rt0 + found_path_results(
                            u@,
                            pv.take(i as int),
                        ));
                    }
                    assert(pv.take(len as int) =~= pv);
                }
            } else {
                item.result_type.push(Some(ResultType::FoundPathReturnedBadValue));
            }
        }
    }
    proof {
        assert(final(item)@.final_path =~= after_json_path(u@, old(item)@).final_path);
        assert(final(item)@.result_type =~= after_json_path(u@, old(item)@).result_type);
    }
    item.clone()
}

} // verus!

verus! {

/// Whether a found value is some kind of string.
pub open spec fn string_like(r: Option<ResultType>) -> bool {
    r == Some(ResultType::StringNoValue) || r == Some(ResultType::EmptyString) || r == Some(
        ResultType::PartialString,
    )
}

/// Whether every result is `want`.
pub open spec fn all_are(rs: Seq<Option<ResultType>>, want: ResultType) -> bool {
    forall|i: int| 0 <= i < rs.len() ==> rs[i] == Some(want)
}

pub open spec fn all_string_like(rs: Seq<Option<ResultType>>) -> bool {
    forall|i: int| 0 <= i < rs.len() ==> string_like(#[trigger] rs[i])
}

/// A string that is present and not empty.
pub open spec fn nonempty_text(o: Option<Seq<char>>) -> bool {
    o matches Some(s) && s.len() > 0
}

/// The redaction type: the method claimed, held against what was found.
pub open spec fn redaction_type_of(o: RedactedObjectV) -> RedactionType {
    let rs = o.result_type;
    let has_target = nonempty_text(o.pre_path) || nonempty_text(o.post_path);
    match o.method {
        JsonV::String(m) => if m == "emptyValue"@ {
            if rs.len() > 0 && all_string_like(rs) {
                RedactionType::EmptyValue
            } else {
                RedactionType::Unknown
            }
        } else if m == "partialValue"@ {
            if rs.len() > 0 && all_string_like(rs) {
                RedactionType::PartialValue
            } else {
                RedactionType::Unknown
            }
        } else if m == "replacementValue"@ {
            if rs.len() > 0 && all_are(rs, ResultType::PartialString) {
                if nonempty_text(o.replacement_path) && has_target {
                    RedactionType::ReplacementValue
                } else if o.replacement_path is None && has_target {
                    RedactionType::PartialValue
                } else {
                    RedactionType::Unknown
                }
            } else {
                RedactionType::Unknown
            }
        } else if m == "removal"@ {
            if rs.len() > 0 && all_are(rs, ResultType::Removed) {
                RedactionType::Removal
            } else {
                RedactionType::Unknown
            }
        } else {
            RedactionType::Unknown
        },
        _ => RedactionType::Unknown,
    }
}

/// Whether values found for this type are replaced.
pub open spec fn substitutes(t: RedactionType) -> bool {
    t == RedactionType::EmptyValue || t == RedactionType::PartialValue || t
        == RedactionType::ReplacementValue
}

/// The redaction entry `item` read against the document `doc`.
pub open spec fn redacted_object_of(doc: JsonV, item: JsonV) -> RedactedObjectV {
    let o = after_json_path(doc, initial_object(item));
    let t = redaction_type_of(o);
    RedactedObjectV { redaction_type: Some(t), do_final_path_subsitution: substitutes(t), ..o }
}

/// The string under `key`, if that is a string.
fn str_field_of(item: &Json, key: &str) -> (r: Option<String>)
    ensures
        opt_text(r) == str_field(item@, key@),
{
    match item.get(&text(key)) {
        Some(Json::String(s)) => Some(s.clone()),
        _ => None,
    }
}

/// A copy of the value under `key`, or the empty string.
fn field_or_empty(item: &Json, key: &str) -> (r: Json)
    ensures
        r@ == match json_get(item@, key@) {
            Some(v) => v,
            None => empty_text(),
        },
{
    match item.get(&text(key)) {
        Some(v) => v.deep_copy(),
        None => Json::String(String::new()),
    }
}

/// A copy of the `description` (else the `type`) of the object under `key`,
/// or the empty string.
fn described_or_empty(item: &Json, key: &str) -> (r: Json)
    ensures
        r@ == match described(item@, key@) {
            Some(v) => v,
            None => empty_text(),
        },
{
    match item.get(&text(key)) {
        Some(inner) => {
            proof {
                crate::json::lemma_view_items(*inner);
            }
            match inner {
                Json::Object(_) => match inner.get(&text("description")) {
                    Some(v) => v.deep_copy(),
                    None => match inner.get(&text("type")) {
                        Some(v) => v.deep_copy(),
                        None => Json::String(String::new()),
                    },
                },
                _ => Json::String(String::new()),
            }
        },
        None => Json::String(String::new()),
    }
}

/// Whether the string is present and not empty.
fn is_nonempty_text(o: &Option<String>) -> (r: bool)
    ensures
        r == nonempty_text(opt_text(*o)),
{
    match o {
        Some(s) => s.unicode_len() > 0,
        None => false,
    }
}

/// Whether every result is some kind of string.
fn results_string_like(rs: &Vec<Option<ResultType>>) -> (r: bool)
    ensures
        r == all_string_like(rs@),
{
    let mut i: usize = 0;
    while i < rs.len()
        invariant
            0 <= i <= rs.len(),
            forall|k: int| 0 <= k < i ==> string_like(#[trigger] rs@[k]),
        decreases rs.len() - i,
    {
        let ok = match rs[i] {
            Some(ResultType::StringNoValue) | Some(ResultType::EmptyString) | Some(
                ResultType::PartialString,
            ) => true,
            _ => false,
        };
        if !ok {
            return false;
        }
        i += 1;
    }
    true
}

/// Whether every result is `want`.
fn results_all(rs: &Vec<Option<ResultType>>, want: ResultType) -> (r: bool)
    ensures
        r == all_are(rs@, want),
{
    let mut i: usize = 0;
    while i < rs.len()
        invariant
            0 <= i <= rs.len(),
            forall|k: int| 0 <= k < i ==> rs@[k] == Some(want),
        decreases rs.len() - i,
    {
        if rs[i] != Some(want) {
            return false;
        }
        i += 1;
    }
    true
}

/// The redaction type: the method claimed, held against what was found.
pub fn redaction_type_for(o: &RedactedObject) -> (r: RedactionType)
    ensures
        r == redaction_type_of(o@),
{
    let has_target = is_nonempty_text(&o.pre_path) || is_nonempty_text(&o.post_path);
    match &o.method {
        Json::String(m) => {
            if *m == text("emptyValue") {
                if o.result_type.len() > 0 && results_string_like(&o.result_type) {
                    RedactionType::EmptyValue
                } else {
                    RedactionType::Unknown
                }
            } else if *m == text("partialValue") {
                if o.result_type.len() > 0 && results_string_like(&o.result_type) {
                    RedactionType::PartialValue
                } else {
                    RedactionType::Unknown
                }
            } else if *m == text("replacementValue") {
                if o.result_type.len() > 0 && results_all(
                    &o.result_type,
                    ResultType::PartialString,
                ) {
                    if is_nonempty_text(&o.replacement_path) && has_target {
                        RedactionType::ReplacementValue
                    } else if o.replacement_path.is_none() && has_target {
                        RedactionType::PartialValue
                    } else {
                        RedactionType::Unknown
                    }
                } else {
                    RedactionType::Unknown
                }
            } else if *m == text("removal") {
                if o.result_type.len() > 0 && results_all(&o.result_type, ResultType::Removed) {
                    RedactionType::Removal
                } else {
                    RedactionType::Unknown
                }
            } else {
                RedactionType::Unknown
            }
        },
        _ => RedactionType::Unknown,
    }
}

/// Reads each entry of an RDAP `redacted` array: its fields, what its path
/// finds in the document, and the redaction type that follows.
pub fn parse_redacted_array(rdap_json_response: &Json, redacted_array: &Vec<Json>) -> (r: Vec<
    RedactedObject,
>)
    requires
        json_wf(rdap_json_response@),
        forall|i: int|
            0 <= i < redacted_array.len() ==> readable_entry((#[trigger] redacted_array@[i])@),
    ensures
        r.len() == redacted_array.len(),
        forall|i: int|
            0 <= i < r.len() ==> (#[trigger] r@[i])@ == redacted_object_of(
                rdap_json_response@,
                redacted_array@[i]@,
            ),
{
    let mut result: Vec<RedactedObject> = Vec::new();
    let mut i: usize = 0;
    while i < redacted_array.len()
        invariant
            0 <= i <= redacted_array.len(),
            json_wf(rdap_json_response@),
            forall|k: int|
                0 <= k < redacted_array.len() ==> readable_entry(
                    (#[trigger] redacted_array@[k])@,
                ),
            result.len() == i,
            forall|k: int|
                0 <= k < i ==> (#[trigger] result@[k])@ == redacted_object_of(
                    rdap_json_response@,
                    redacted_array@[k]@,
                ),
        decreases redacted_array.len() - i,
    {
        let item = &redacted_array[i];
        let pre_path = str_field_of(item, "prePath");
        let post_path = str_field_of(item, "postPath");
        let original_path = match &pre_path {
            Some(p) => Some(p.clone()),
            None => match &post_path {
                Some(p) => Some(p.clone()),
                None => None,
            },
        };
        let mut redacted_object = RedactedObject {
            name: described_or_empty(item, "name"),
            path_index_count: 0,
            pre_path,
            post_path,
            original_path,
            final_path: Vec::new(),
            do_final_path_subsitution: false,
            path_lang: field_or_empty(item, "pathLang"),
            replacement_path: str_field_of(item, "replacementPath"),
            method: field_or_empty(item, "method"),
            reason: described_or_empty(item, "reason"),
            result_type: Vec::new(),
            redaction_type: None,
        };
        assert(redacted_object@.final_path =~= initial_object(redacted_array@[i as int]@).final_path);
        assert(redacted_object@.result_type =~= initial_object(redacted_array@[i as int]@).result_type);
        assert(redacted_object@.original_path == initial_object(redacted_array@[i as int]@).original_path);
        assert(redacted_object@.name == initial_object(redacted_array@[i as int]@).name);
        assert(redacted_object@.path_lang == initial_object(redacted_array@[i as int]@).path_lang);
        assert(redacted_object@ == initial_object(redacted_array@[i as int]@));
        redacted_object = set_result_type_from_json_path(
            rdap_json_response.deep_copy(),
            &mut redacted_object,
        );
        let kind = redaction_type_for(&redacted_object);
        redacted_object.redaction_type = Some(kind);
        redacted_object.do_final_path_subsitution = match kind {
            RedactionType::EmptyValue | RedactionType::PartialValue
            | RedactionType::ReplacementValue => true,
            _ => false,
        };
        result.push(redacted_object);
        i += 1;
    }
    result
}

/// Whether a `redacted` entry can be read (`readable_entry`).
pub fn is_readable_entry(item: &Json) -> (r: bool)
    ensures
        r == readable_entry(item@),
{
    proof {
        crate::json::lemma_view_items(*item);
    }
    match item {
        Json::Object(_) => {},
        _ => {
            return false;
        },
    }
    let pre_path = str_field_of(item, "prePath");
    let post_path = str_field_of(item, "postPath");
    let original = match &pre_path {
        Some(p) => Some(p),
        None => match &post_path {
            Some(p) => Some(p),
            None => None,
        },
    };
    match original {
        Some(p) => is_index_safe(trim_quotes(p.as_str()).as_str()),
        None => true,
    }
}

} // verus!

verus! {

/// The first of the found paths that is a string.
pub open spec fn first_text(paths: Seq<JsonV>) -> Option<Seq<char>>
    decreases paths.len(),
{
    if paths.len() == 0 {
        None
    } else {
        match paths[0] {
            JsonV::String(s) => Some(s),
            _ => first_text(paths.drop_first()),
        }
    }
}

/// Whether the first path that `path` finds in `u` leads to a string (or to
/// nothing, which counts as the string "NO_VALUE"), once the path is turned
/// into a pointer and each `.[` and `]` left in it into `/`. `false` where the
/// path does not parse or finds nothing.
pub open spec fn valid_json_path(u: JsonV, path: Seq<char>) -> bool {
    match json_path_matches(u, path) {
        Some(JsonV::Array(paths)) => match first_text(paths) {
            Some(p) => match json_pointer_get(u, brackets_to_slashes(pointer_path_of(p))) {
                Some(v) => v is String,
                None => true,
            },
            None => false,
        },
        _ => false,
    }
}

/// Whether the value at the first path that `path` finds in `u` is a string:
/// only strings can be shown as redacted.
pub fn check_valid_json_path(u: Json, path: &str) -> (r: bool)
    requires
        json_wf(u@),
        index_safe(path@),
    ensures
        r == valid_json_path(u@, path@),
{
    let found = find_as_path(&u.to_value(), path);
    match found {
        None => false,
        Some(found) => {
            let matches = Json::from_value(found);
            proof {
                crate::json::lemma_view_items(matches);
            }
            if let Json::Array(paths) = matches {
                let ghost pv = matches@->Array_0;
                let mut i: usize = 0;
                assert(pv.skip(0) =~= pv);
                while i < paths.len()
                    invariant
                        0 <= i <= paths.len(),
                        pv.len() == paths.len(),
                        forall|k: int| 0 <= k < paths.len() ==> #[trigger] pv[k] == paths@[k]@,
                        json_wf(u@),
                        first_text(pv) == first_text(pv.skip(i as int)),
                        valid_json_path(u@, path@) == match first_text(pv) {
                            Some(p) => match json_pointer_get(
                                u@,
                                brackets_to_slashes(pointer_path_of(p)),
                            ) {
                                Some(v) => v is String,
                                None => true,
                            },
                            None => false,
                        },
                    decreases paths.len() - i,
                {
                    assert(pv.skip(i as int)[0] == pv[i as int]);
                    if let Json::String(found_path) = &paths[i] {
                        let json_pointer = convert_to_json_pointer_path(found_path.as_str());
                        let pointer = regex_replace_all("\\.\\[|\\]", json_pointer.as_str(), "/");
                        return match pointer_lookup(&u, pointer.as_str()) {
                            Some(Json::String(_)) => true,
                            Some(_) => false,
                            None => true,
                        };
                    }
                    assert(pv.skip(i as int).drop_first() =~= pv.skip(i + 1));
                    i += 1;
                }
                false
            } else {
                false
            }
        },
    }
}

} // verus!
