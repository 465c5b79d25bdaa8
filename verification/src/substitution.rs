use vstd::prelude::*;
use crate::json::{Json, JsonV, json_get, json_wf};
use crate::outside::{
    json_path_replaced, json_pretty_text, json_text_parsed, parse_json_text, pretty_json_text,
    replace_with, replaced_in_place, Replacement, ReplacementV,
};
use crate::path_safety::{is_single_steps_path, parse_steps};
use crate::pointer::{json_pointer_get, pointer_lookup};
use crate::pointer_path::{convert_to_json_pointer_path, pointer_path_of};
use crate::redaction::{
    is_readable_entry, parse_redacted_array, readable_entry, redacted_object_of, RedactedObject,
    RedactedObjectV, RedactionType,
};

verus! {

/// `doc` with the JSONPath `path` replaced as `rep` says. Where the path
/// reads as `.['key']` and `[index]` steps that lead to a value, that value
/// gives way to its replacement and all else stays as it was; unchanged where
/// the path is not of that form (it is not handed on); otherwise what
/// jsonpath_lib's `replace_with` gives, unchanged where it fails.
pub open spec fn replaced_or_same(doc: JsonV, path: Seq<char>, rep: ReplacementV) -> JsonV {
    if parse_steps(path) is None {
        doc
    } else {
        match replaced_in_place(doc, path, rep) {
            Some(d) => d,
            None => replaced_by_name(doc, path, rep),
        }
    }
}

/// What jsonpath_lib's `replace_with` gives; `doc` where it fails.
pub open spec fn replaced_by_name(doc: JsonV, path: Seq<char>, rep: ReplacementV) -> JsonV {
    match json_path_replaced(doc, path, rep) {
        Some(d) => d,
        None => doc,
    }
}

/// `doc` after the `k`-th found path of `o` is dealt with: a replacement
/// value copies what its replacementPath points at; an empty or partial value
/// is starred in place; anything missing leaves `doc` as it is.
pub open spec fn apply_at(doc: JsonV, o: RedactedObjectV, k: int) -> JsonV {
    match o.final_path[k] {
        None => doc,
        Some(fp) => match o.redaction_type {
            Some(RedactionType::ReplacementValue) => match o.replacement_path {
                None => doc,
                Some(rp) => match json_pointer_get(doc, pointer_path_of(rp)) {
                    None => doc,
                    Some(v) => replaced_or_same(doc, fp, ReplacementV::Fixed(v)),
                },
            },
            Some(RedactionType::EmptyValue) | Some(RedactionType::PartialValue) => match json_pointer_get(
                doc,
                pointer_path_of(fp),
            ) {
                None => doc,
                Some(v) => replaced_or_same(doc, fp, ReplacementV::Redact(v)),
            },
            _ => doc,
        },
    }
}

/// How many of the found paths are dealt with: the count recorded, bounded
/// by the paths and results held.
pub open spec fn substitution_count(o: RedactedObjectV) -> nat {
    let count = (#[verifier::truncate] (o.path_index_count as usize)) as nat;
    let a = if count <= o.final_path.len() {
        count
    } else {
        o.final_path.len()
    };
    if a <= o.result_type.len() {
        a
    } else {
        o.result_type.len()
    }
}

/// `doc` after the first `n` found paths of `o` are dealt with.
pub open spec fn apply_paths(doc: JsonV, o: RedactedObjectV, n: nat) -> JsonV
    decreases n,
{
    if n == 0 {
        doc
    } else {
        apply_at(apply_paths(doc, o, (n - 1) as nat), o, n - 1)
    }
}

/// `doc` after one redaction entry is carried out.
pub open spec fn apply_object(doc: JsonV, o: RedactedObjectV) -> JsonV {
    if o.do_final_path_subsitution && o.final_path.len() > 0 {
        apply_paths(doc, o, substitution_count(o))
    } else {
        doc
    }
}

/// `doc` after the redaction entries are carried out in turn.
pub open spec fn apply_all(doc: JsonV, os: Seq<RedactedObjectV>) -> JsonV
    decreases os.len(),
{
    if os.len() == 0 {
        doc
    } else {
        apply_object(apply_all(doc, os.drop_last()), os.last())
    }
}

/// The redaction entries of the array `items`, read against `doc`.
pub open spec fn redactions_of(doc: JsonV, items: Seq<JsonV>) -> Seq<RedactedObjectV> {
    items.map_values(|item: JsonV| redacted_object_of(doc, item))
}

/// Replaces, at `path`, as `rep` says.
fn replace_in(doc: &mut Json, path: &String, rep: &Replacement)
    requires
        json_wf(old(doc)@),
        crate::outside::replacement_wf(rep@),
    ensures
        json_wf(final(doc)@),
        final(doc)@ == replaced_or_same(old(doc)@, path@, rep@),
{
    if !is_single_steps_path(path.as_str()) {
        return;
    }
    match replace_with(doc.to_value(), path.as_str(), rep) {
        Some(v) => {
            *doc = Json::from_value(v);
        },
        None => {},
    }
}

/// Carries out the `k`-th found path of `o` on `doc`.
fn apply_path_at(doc: &mut Json, o: &RedactedObject, k: usize)
    requires
        json_wf(old(doc)@),
        k < o.final_path.len(),
    ensures
        json_wf(final(doc)@),
        final(doc)@ == apply_at(old(doc)@, o@, k as int),
{
    match &o.final_path[k] {
        None => {},
        Some(final_path) => {
            match o.redaction_type {
                Some(RedactionType::ReplacementValue) => {
                    match &o.replacement_path {
                        None => {},
                        Some(replacement_path) => {
                            let pointer = convert_to_json_pointer_path(replacement_path.as_str());
                            match pointer_lookup(doc, pointer.as_str()) {
                                None => {},
                                Some(value) => {
                                    let rep = Replacement::Fixed(value);
                                    replace_in(doc, final_path, &rep);
                                },
                            }
                        },
                    }
                },
                Some(RedactionType::EmptyValue) | Some(RedactionType::PartialValue) => {
                    let pointer = convert_to_json_pointer_path(final_path.as_str());
                    match pointer_lookup(doc, pointer.as_str()) {
                        None => {},
                        Some(value) => {
                            let rep = Replacement::Redact(value);
                            replace_in(doc, final_path, &rep);
                        },
                    }
                },
                _ => {},
            }
        },
    }
}

/// Carries out one redaction entry on `doc`.
fn apply_redacted_object(doc: &mut Json, o: &RedactedObject)
    requires
        json_wf(old(doc)@),
    ensures
        json_wf(final(doc)@),
        final(doc)@ == apply_object(old(doc)@, o@),
{
    if o.do_final_path_subsitution && o.final_path.len() > 0 {
        let count = #[verifier::truncate] (o.path_index_count as usize);
        let mut n = count;
        if o.final_path.len() < n {
            n = o.final_path.len();
        }
        if o.result_type.len() < n {
            n = o.result_type.len();
        }
        assert(n == substitution_count(o@));
        let ghost start = doc@;
        let mut k: usize = 0;
        while k < n
            invariant
                0 <= k <= n,
                n <= o.final_path.len(),
                json_wf(doc@),
                doc@ == apply_paths(start, o@, k as nat),
            decreases n - k,
        {
            apply_path_at(doc, o, k);
            k += 1;
        }
    }
}

/// Carries out, on the RDAP response, the redactions its `redacted` array
/// describes: values redacted by empty or partial value are starred, values
/// redacted by replacement take the value the replacementPath points at.
pub fn parse_redacted_json(
    rdap_json_response: &mut Json,
    redacted_array_option: Option<&Vec<Json>>,
)
    requires
        json_wf(old(rdap_json_response)@),
        redacted_array_option matches Some(items) ==> forall|i: int|
            0 <= i < items.len() ==> readable_entry((#[trigger] items@[i])@),
    ensures
        json_wf(final(rdap_json_response)@),
        final(rdap_json_response)@ == match redacted_array_option {
            None => old(rdap_json_response)@,
            Some(items) => apply_all(
                old(rdap_json_response)@,
                redactions_of(
                    old(rdap_json_response)@,
                    items@.map_values(|j: Json| j@),
                ),
            ),
        },
{
    if let Some(redacted_array) = redacted_array_option {
        let redactions = parse_redacted_array(rdap_json_response, redacted_array);
        let ghost start = rdap_json_response@;
        let ghost os = redactions_of(start, redacted_array@.map_values(|j: Json| j@));
        assert(redactions@.map_values(|o: RedactedObject| o@) =~= os);
        let mut i: usize = 0;
        while i < redactions.len()
            invariant
                0 <= i <= redactions.len(),
                os.len() == redactions.len(),
                forall|k: int| 0 <= k < redactions.len() ==> #[trigger] os[k] == redactions@[k]@,
                json_wf(rdap_json_response@),
                rdap_json_response@ == apply_all(start, os.take(i as int)),
            decreases redactions.len() - i,
        {
            assert(os.take(i + 1).drop_last() =~= os.take(i as int));
            apply_redacted_object(rdap_json_response, &redactions[i]);
            i += 1;
        }
        assert(os.take(redactions.len() as int) =~= os);
    }
}

/// The RDAP response after its redactions are carried out.
pub open spec fn redacted_document(doc: JsonV) -> JsonV {
    match json_get(doc, "redacted"@) {
        Some(JsonV::Array(items)) => apply_all(doc, redactions_of(doc, items)),
        _ => doc,
    }
}

/// Whether every entry of the response's `redacted` array (if it has one)
/// can be read: it is an object, as redaction entries must be, and its path
/// holds no brackets on which jsonpath-rust panics.
pub open spec fn entries_are_readable(doc: JsonV) -> bool {
    match json_get(doc, "redacted"@) {
        Some(JsonV::Array(items)) => forall|i: int|
            0 <= i < items.len() ==> readable_entry(#[trigger] items[i]),
        _ => true,
    }
}

/// Carries out the redactions that an RDAP response lists in its `redacted`
/// array, if it has one.
pub fn process_redacted_json(rdap_json_response: &mut Json)
    requires
        json_wf(old(rdap_json_response)@),
        entries_are_readable(old(rdap_json_response)@),
    ensures
        json_wf(final(rdap_json_response)@),
        final(rdap_json_response)@ == redacted_document(old(rdap_json_response)@),
{
    let key = String::from_str("redacted");
    let redacted_array_option = match rdap_json_response.get(&key) {
        Some(found) => {
            proof {
                crate::json::lemma_view_items(*found);
            }
            match found {
                Json::Array(items) => Some(copy_items(items)),
                _ => None,
            }
        },
        None => None,
    };
    proof {
        if let Some(items) = &redacted_array_option {
            let found = json_get(rdap_json_response@, "redacted"@)->Some_0->Array_0;
            assert(items@.map_values(|j: Json| j@) =~= found);
            assert forall|i: int| 0 <= i < items.len() implies readable_entry((#[trigger] items@[i])@) by {
                assert(found[i] == items@[i]@);
            }
        }
    }
    match &redacted_array_option {
        Some(items) => parse_redacted_json(rdap_json_response, Some(items)),
        None => parse_redacted_json(rdap_json_response, None),
    }
}

/// Copies of the items.
fn copy_items(items: &Vec<Json>) -> (r: Vec<Json>)
    ensures
        r.len() == items.len(),
        forall|k: int| 0 <= k < items.len() ==> (#[trigger] r@[k])@ == items@[k]@,
{
    let mut out: Vec<Json> = Vec::new();
    let mut i: usize = 0;
    while i < items.len()
        invariant
            0 <= i <= items.len(),
            out.len() == i,
            forall|k: int| 0 <= k < i ==> (#[trigger] out@[k])@ == items@[k]@,
        decreases items.len() - i,
    {
        out.push(items[i].deep_copy());
        i += 1;
    }
    out
}

/// The text of an RDAP response with its redactions carried out, printed
/// as `serde_json::to_string_pretty` prints. `None` where the text is not
/// JSON or a `redacted` entry cannot be read.
pub open spec fn processed_text(contents: Seq<char>) -> Option<Seq<char>> {
    match json_text_parsed(contents) {
        None => None,
        Some(doc) => if entries_are_readable(doc) {
            Some(json_pretty_text(redacted_document(doc)))
        } else {
            None
        },
    }
}

/// Reads an RDAP response from JSON text, carries out its redactions and
/// prints the result. `None` where the text is not JSON or a `redacted`
/// entry cannot be read (not an object, or a path on which jsonpath-rust
/// panics): there the redaction cannot proceed.
pub fn process_redacted_text(contents: &str) -> (r: Option<String>)
    ensures
        match r {
            Some(s) => processed_text(contents@) == Some(s@),
            None => processed_text(contents@) is None,
        },
{
    match parse_json_text(contents) {
        None => None,
        Some(value) => {
            let mut rdap_json_response = Json::from_value(value);
            if !redacted_entries_are_readable(&rdap_json_response) {
                return None;
            }
            process_redacted_json(&mut rdap_json_response);
            Some(pretty_json_text(&rdap_json_response.to_value()))
        },
    }
}

/// Whether every entry of the response's `redacted` array is an object.
fn redacted_entries_are_readable(doc: &Json) -> (r: bool)
    ensures
        r == entries_are_readable(doc@),
{
    let key = String::from_str("redacted");
    match doc.get(&key) {
        Some(found) => {
            proof {
                crate::json::lemma_view_items(*found);
            }
            match found {
                Json::Array(items) => {
                    let mut i: usize = 0;
                    while i < items.len()
                        invariant
                            0 <= i <= items.len(),
                            found@ is Array,
                            found@->Array_0.len() == items.len(),
                            forall|k: int|
                                0 <= k < items.len() ==> #[trigger] found@->Array_0[k]
                                    == items@[k]@,
                            forall|k: int| 0 <= k < i ==> readable_entry((#[trigger] items@[k])@),
                            json_get(doc@, "redacted"@) == Some(found@),
                        decreases items.len() - i,
                    {
                        if !is_readable_entry(&items[i]) {
                            assert(!readable_entry(found@->Array_0[i as int]));
                            return false;
                        }
                        i += 1;
                    }
                    true
                },
                _ => true,
            }
        },
        None => true,
    }
}

} // verus!
