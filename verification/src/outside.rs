use vstd::prelude::*;
use crate::bridge::{value_parts, value_string, value_view, ValueParts};
use crate::json::{Json, JsonV, json_wf};
use crate::path_safety::{index_safe, parse_steps, single_steps_path, steps_get, steps_set};
use crate::text::replace_all;

verus! {

/// What jsonpath-rust's `find_as_path` gives for the JSONPath `path` over
/// `doc`: `None` where `path` does not parse.
pub uninterp spec fn json_path_matches(doc: JsonV, path: Seq<char>) -> Option<JsonV>;

/// jsonpath-rust: `JsonPathInst::from_str(path)`, then
/// `JsonPathFinder::new(doc, path).find_as_path()`. The result is named by
/// `json_path_matches`; `find_as_path` builds an array of path strings. The
/// path must be `index_safe`: jsonpath-rust panics on a single index past
/// `i64` (path/mod.rs), on a union number that `as_u64` refuses and on a
/// slice step of 0 (path/index.rs). Left unsaid: which values are found and how
/// their paths are written, which rest on jsonpath-rust's parser and
/// evaluator as a whole.
#[verifier::external_body]
pub(crate) fn find_as_path(doc: &serde_json::Value, path: &str) -> (r: Option<serde_json::Value>)
    requires
        index_safe(path@),
    ensures
        match r {
            Some(v) => json_path_matches(value_view(*doc), path@) == Some(value_view(v)),
            None => json_path_matches(value_view(*doc), path@) is None,
        },
        r matches Some(v) ==> value_view(v) is Array && forall|i: int|
            0 <= i < value_view(v)->Array_0.len() ==> (#[trigger] value_view(v)->Array_0[i]) is String,
{
    match <jsonpath_rust::JsonPathInst as std::str::FromStr>::from_str(path) {
        Ok(inst) => Some(
            jsonpath_rust::JsonPathFinder::new(Box::new(doc.clone()), Box::new(inst)).find_as_path(),
        ),
        Err(_) => None,
    }
}

/// What a matched value is replaced by.
pub enum Replacement {
    /// This value, whatever was there.
    Fixed(Json),
    /// A string is starred (`*text*`, or `*REDACTED*` when empty); any other
    /// value gives way to this one.
    Redact(Json),
}

pub enum ReplacementV {
    Fixed(JsonV),
    Redact(JsonV),
}

impl View for Replacement {
    type V = ReplacementV;

    open spec fn view(&self) -> ReplacementV {
        match self {
            Replacement::Fixed(v) => ReplacementV::Fixed(v@),
            Replacement::Redact(v) => ReplacementV::Redact(v@),
        }
    }
}

pub open spec fn replacement_wf(rep: ReplacementV) -> bool {
    match rep {
        ReplacementV::Fixed(v) => json_wf(v),
        ReplacementV::Redact(v) => json_wf(v),
    }
}

/// The value that takes the place of `x`.
pub open spec fn replacement_value(rep: ReplacementV, x: JsonV) -> JsonV {
    match rep {
        ReplacementV::Fixed(v) => v,
        ReplacementV::Redact(fallback) => match x {
            JsonV::String(s) => if s.len() == 0 {
                JsonV::String("*REDACTED*"@)
            } else {
                JsonV::String("*"@ + s + "*"@)
            },
            _ => fallback,
        },
    }
}

/// The value that takes the place of `x` (always `Some`: nothing is removed).
pub fn replacement_for(rep: &Replacement, x: serde_json::Value) -> (r: Option<serde_json::Value>)
    requires
        replacement_wf(rep@),
    ensures
        r matches Some(v) && value_view(v) == replacement_value(rep@, value_view(x)),
{
    match rep {
        Replacement::Fixed(v) => Some(v.to_value()),
        Replacement::Redact(fallback) => match value_parts(x) {
            ValueParts::String(s) => {
                if s.unicode_len() == 0 {
                    Some(value_string(String::from_str("*REDACTED*")))
                } else {
                    let mut starred = String::from_str("*");
                    starred.append(s.as_str());
                    starred.append("*");
                    Some(value_string(starred))
                }
            },
            _ => Some(fallback.to_value()),
        },
    }
}

/// Where `path` reads as `.['key']` and `[index]` steps, at least one, that
/// lead to a value in `doc`: `doc` with that value replaced as `rep` says,
/// all else as it was.
pub open spec fn replaced_in_place(doc: JsonV, path: Seq<char>, rep: ReplacementV) -> Option<
    JsonV,
> {
    match parse_steps(path) {
        Some(steps) => match steps_get(doc, steps) {
            Some(old) => if steps.len() > 0 {
                Some(steps_set(doc, steps, replacement_value(rep, old)))
            } else {
                None
            },
            None => None,
        },
        None => None,
    }
}

/// What jsonpath_lib's `replace_with` gives for `doc`, the JSONPath `path` and
/// a replacement function made from `rep`: `None` where it fails.
pub uninterp spec fn json_path_replaced(doc: JsonV, path: Seq<char>, rep: ReplacementV) -> Option<
    JsonV,
>;

/// jsonpath_lib: `replace_with(doc, path, f)`, where `f` hands each selected
/// value to `replacement_for`. The result is named by `json_path_replaced`;
/// an error becomes `None`. The path must be a `single_steps_path`: on other
/// paths jsonpath_lib can panic (a node replaced before one inside it, or a
/// filter form it does not implement). Where the path's steps (at least one)
/// lead to a value, jsonpath_lib's tokenizer and parser read each `.['key']`
/// as a key and each `[digits]` as an index, its selector takes that one
/// value, `compute_paths` finds the keys and indexes to it, and
/// `replace_value` puts the replacement for the old value in its place:
/// the result is the document with that value replaced and all else as it
/// was. Left unsaid: what other paths (one step that leads nowhere, or `$`
/// alone) give.
#[verifier::external_body]
pub(crate) fn replace_with(doc: serde_json::Value, path: &str, rep: &Replacement) -> (r: Option<
    serde_json::Value,
>)
    requires
        replacement_wf(rep@),
        single_steps_path(path@),
    ensures
        match r {
            Some(v) => json_path_replaced(value_view(doc), path@, rep@) == Some(value_view(v)),
            None => json_path_replaced(value_view(doc), path@, rep@) is None,
        },
        r matches Some(v) ==> (replaced_in_place(value_view(doc), path@, rep@) matches Some(d)
            ==> value_view(v) == d),
        replaced_in_place(value_view(doc), path@, rep@) is Some ==> r is Some,
{
    jsonpath_lib::replace_with(doc, path, &mut |x| replacement_for(rep, x)).ok()
}

/// `t` with each `.[` and then each `]` turned into `/`.
pub open spec fn brackets_to_slashes(t: Seq<char>) -> Seq<char> {
    replace_all(replace_all(t, ".["@, "/"@), "]"@, "/"@)
}

/// regex: `Regex::new(pattern)`, then `replace_all(text, rep)`, for the
/// pattern `\.\[|\]` and the replacement `/`. The pattern compiles; its
/// matches, taken left to right without overlap, are the occurrences of `.[`
/// and of `]`, which share no character, and `/` holds no `$` to expand: so
/// each `.[` and each `]` becomes `/`.
#[verifier::external_body]
pub(crate) fn regex_replace_all(pattern: &str, text: &str, rep: &str) -> (r: String)
    requires
        pattern@ == "\\.\\[|\\]"@,
        rep@ == "/"@,
    ensures
        r@ == brackets_to_slashes(text@),
{
    match regex::Regex::new(pattern) {
        Ok(re) => re.replace_all(text, rep).to_string(),
        Err(_) => String::new(),
    }
}

/// What `serde_json::from_str::<Value>` reads from `text`: `None` where
/// `text` is not JSON.
pub uninterp spec fn json_text_parsed(text: Seq<char>) -> Option<JsonV>;

/// serde_json: `from_str::<Value>(text)`; the result is named by
/// `json_text_parsed`, an error becomes `None`.
#[verifier::external_body]
pub(crate) fn parse_json_text(text: &str) -> (r: Option<serde_json::Value>)
    ensures
        match r {
            Some(v) => json_text_parsed(text@) == Some(value_view(v)),
            None => json_text_parsed(text@) is None,
        },
{
    serde_json::from_str::<serde_json::Value>(text).ok()
}

/// What `serde_json::to_string_pretty` writes for a document.
pub uninterp spec fn json_pretty_text(doc: JsonV) -> Seq<char>;

/// serde_json: `to_string_pretty(v)`; the result is named by
/// `json_pretty_text`. For a `Value` it cannot fail: its map keys are strings
/// and writing into memory does not fail.
#[verifier::external_body]
pub(crate) fn pretty_json_text(v: &serde_json::Value) -> (r: String)
    ensures
        r@ == json_pretty_text(value_view(*v)),
{
    match serde_json::to_string_pretty(v) {
        Ok(s) => s,
        Err(_) => String::new(),
    }
}

} // verus!

verus! {

/// One value that jsonpath-rust's `find_slice` gives.
pub enum SliceItem {
    /// A value of the document.
    Slice(serde_json::Value),
    /// A value the path computed.
    NewValue(serde_json::Value),
    /// Nothing matched.
    NoValue,
}

pub enum SliceV {
    Slice(JsonV),
    NewValue(JsonV),
    NoValue,
}

pub open spec fn slice_view(x: SliceItem) -> SliceV {
    match x {
        SliceItem::Slice(v) => SliceV::Slice(value_view(v)),
        SliceItem::NewValue(v) => SliceV::NewValue(value_view(v)),
        SliceItem::NoValue => SliceV::NoValue,
    }
}

/// What jsonpath-rust's `find_slice` gives for the JSONPath `path` over `doc`:
/// `None` where `path` does not parse.
pub uninterp spec fn json_path_slices(doc: JsonV, path: Seq<char>) -> Option<Seq<SliceV>>;

/// jsonpath-rust: `JsonPathInst::from_str(path)`, then
/// `JsonPathFinder::new(doc, path).find_slice()`, each value found copied out.
/// The result is named by `json_path_slices`. The path must be `index_safe`,
/// as for `find_as_path`.
#[verifier::external_body]
pub(crate) fn find_slice(doc: &serde_json::Value, path: &str) -> (r: Option<Vec<SliceItem>>)
    requires
        index_safe(path@),
    ensures
        match r {
            Some(items) => json_path_slices(value_view(*doc), path@) == Some(
                items@.map_values(|x: SliceItem| slice_view(x)),
            ),
            None => json_path_slices(value_view(*doc), path@) is None,
        },
{
    match <jsonpath_rust::JsonPathInst as std::str::FromStr>::from_str(path) {
        Ok(inst) => {
            let finder = jsonpath_rust::JsonPathFinder::new(Box::new(doc.clone()), Box::new(inst));
            let items = finder.find_slice().into_iter().map(|v| match v {
                jsonpath_rust::JsonPathValue::Slice(found, _) => SliceItem::Slice(found.clone()),
                jsonpath_rust::JsonPathValue::NewValue(made) => SliceItem::NewValue(made),
                jsonpath_rust::JsonPathValue::NoValue => SliceItem::NoValue,
            }).collect();
            Some(items)
        },
        Err(_) => None,
    }
}

} // verus!
