use vstd::prelude::*;
use crate::json::{json_get, JsonV};
use crate::outside::{
    brackets_to_slashes, json_path_matches, json_path_slices, json_text_parsed, SliceV,
};
use crate::path_report::{
    kp_members, kp_paths, member_path, path_checks, redaction_path_pairs, slice_status,
    status_count,
};
use crate::path_safety::index_safe;
use crate::pointer::json_pointer_get;
use crate::pointer_path::pointer_path_of;
use crate::redaction::{
    after_json_path, all_are, all_string_like, classify, first_text, redacted_object_of, string_like, redaction_type_of, valid_json_path, RedactedObjectV,
    RedactionType, ResultType,
};
use crate::substitution::{apply_all, apply_object, processed_text, redactions_of};
use crate::text::{trim_char, trim_end_char, trim_start_char};

verus! {

/// Carrying out a `redacted` array carries out every entry in turn: no
/// entries leave the response as it is, and one more entry is carried out on
/// what the entries before it gave. Each entry is read against the response
/// as it was before any entry was carried out.
pub proof fn every_entry_is_carried_out_in_turn(
    doc: JsonV,
    os: Seq<RedactedObjectV>,
    o: RedactedObjectV,
    start: JsonV,
    items: Seq<JsonV>,
    item: JsonV,
)
    ensures
        apply_all(doc, Seq::empty()) == doc,
        apply_all(doc, os.push(o)) == apply_object(apply_all(doc, os), o),
        apply_all(doc, seq![o]) == apply_object(doc, o),
        redactions_of(start, items.push(item)) == redactions_of(start, items).push(
            redacted_object_of(start, item),
        ),
{
    assert(os.push(o).drop_last() =~= os);
    assert(seq![o].drop_last() =~= Seq::<RedactedObjectV>::empty());
    assert(redactions_of(start, items.push(item)) =~= redactions_of(start, items).push(
        redacted_object_of(start, item),
    ));
}

/// Two entries carried out one after the other: the result is the second
/// entry carried out on what the first gave.
pub proof fn two_entries_are_both_carried_out(
    doc: JsonV,
    o1: RedactedObjectV,
    o2: RedactedObjectV,
)
    ensures
        apply_all(doc, seq![o1, o2]) == apply_object(apply_object(doc, o1), o2),
{
    assert(seq![o1, o2].drop_last() =~= seq![o1]);
    assert(seq![o1].drop_last() =~= Seq::<RedactedObjectV>::empty());
    assert(apply_all(doc, Seq::<RedactedObjectV>::empty()) == doc);
    assert(apply_all(doc, seq![o1]) == apply_object(doc, o1));
}

/// A string that is given and not empty.
pub open spec fn non_empty(o: Option<Seq<char>>) -> bool {
    match o {
        Some(s) => s.len() > 0,
        None => false,
    }
}

/// Every result is `Some` of the given kind.
pub open spec fn results_all_of(rs: Seq<Option<ResultType>>, a: ResultType, b: ResultType, c: ResultType) -> bool {
    forall|i: int| 0 <= i < rs.len() ==> rs[i] == Some(a) || rs[i] == Some(b) || rs[i] == Some(c)
}

/// How an entry is judged from its method and what its path found:
/// `emptyValue` and `partialValue` where every value found is a string of
/// some kind; `replacementValue` where every value found is a non-empty
/// string, with a non-empty replacementPath and a non-empty prePath or
/// postPath (with no replacementPath it is a partial value); `removal` where
/// every path found nothing; any other method, `Unknown`.
pub proof fn redaction_type_judgement(o: RedactedObjectV)
    ensures
        o.method == JsonV::String("emptyValue"@) && o.result_type.len() > 0 && results_all_of(
            o.result_type,
            ResultType::StringNoValue,
            ResultType::EmptyString,
            ResultType::PartialString,
        ) ==> redaction_type_of(o) == RedactionType::EmptyValue,
        o.method == JsonV::String("partialValue"@) && o.result_type.len() > 0 && results_all_of(
            o.result_type,
            ResultType::StringNoValue,
            ResultType::EmptyString,
            ResultType::PartialString,
        ) ==> redaction_type_of(o) == RedactionType::PartialValue,
        o.method == JsonV::String("replacementValue"@) && o.result_type.len() > 0
            && results_all_of(
            o.result_type,
            ResultType::PartialString,
            ResultType::PartialString,
            ResultType::PartialString,
        ) && (non_empty(o.pre_path) || non_empty(o.post_path)) ==> (non_empty(o.replacement_path)
            ==> redaction_type_of(o) == RedactionType::ReplacementValue) && (o.replacement_path
            is None ==> redaction_type_of(o) == RedactionType::PartialValue),
        o.method == JsonV::String("removal"@) && o.result_type.len() > 0 && results_all_of(
            o.result_type,
            ResultType::Removed,
            ResultType::Removed,
            ResultType::Removed,
        ) ==> redaction_type_of(o) == RedactionType::Removal,
        o.result_type.len() == 0 ==> redaction_type_of(o) == RedactionType::Unknown,
        !(o.method == JsonV::String("emptyValue"@) || o.method == JsonV::String("partialValue"@)
            || o.method == JsonV::String("replacementValue"@) || o.method == JsonV::String(
            "removal"@,
        )) ==> redaction_type_of(o) == RedactionType::Unknown,
{
    reveal_strlit("emptyValue");
    reveal_strlit("partialValue");
    reveal_strlit("replacementValue");
    reveal_strlit("removal");
    let rs = o.result_type;
    if results_all_of(rs, ResultType::StringNoValue, ResultType::EmptyString, ResultType::PartialString) {
        assert forall|i: int| 0 <= i < rs.len() implies string_like(#[trigger] rs[i]) by {}
        assert(all_string_like(rs));
    }
    if results_all_of(rs, ResultType::PartialString, ResultType::PartialString, ResultType::PartialString) {
        assert forall|i: int| 0 <= i < rs.len() implies #[trigger] rs[i] == Some(ResultType::PartialString) by {}
        assert(all_are(rs, ResultType::PartialString));
    }
    if results_all_of(rs, ResultType::Removed, ResultType::Removed, ResultType::Removed) {
        assert forall|i: int| 0 <= i < rs.len() implies #[trigger] rs[i] == Some(ResultType::Removed) by {}
        assert(all_are(rs, ResultType::Removed));
    }
    assert("emptyValue"@[0] == 'e' && "partialValue"@[0] == 'p' && "replacementValue"@[0] == 'r'
        && "removal"@[0] == 'r');
    assert("replacementValue"@.len() == 16 && "removal"@.len() == 7);
}

/// Every path given under `prePath` or `postPath` in the listing is kept:
/// it is among the paths checked.
pub proof fn every_redaction_path_is_kept(es: Seq<(Seq<char>, JsonV, Seq<char>)>, i: int)
    requires
        0 <= i < es.len(),
        es[i].0 == "prePath"@ || es[i].0 == "postPath"@,
        es[i].1 is String,
    ensures
        exists|j: int|
            0 <= j < redaction_path_pairs(es).len() && redaction_path_pairs(es)[j].1
                == es[i].1->String_0,
    decreases es.len(),
{
    let prev = redaction_path_pairs(es.drop_last());
    let e = es.last();
    let seen = prev.map_values(|p: (Seq<char>, Seq<char>)| p.1);
    let r = redaction_path_pairs(es);
    assert(r == prev || r == prev.push((e.0, e.1->String_0)));
    if i < es.len() - 1 {
        assert(es.drop_last()[i] == es[i]);
        every_redaction_path_is_kept(es.drop_last(), i);
        let j = choose|j: int| 0 <= j < prev.len() && prev[j].1 == es[i].1->String_0;
        assert(r[j] == prev[j]);
    } else {
        if r == prev {
            assert(seen.contains(e.1->String_0));
            let j = choose|j: int| 0 <= j < seen.len() && seen[j] == e.1->String_0;
            assert(prev[j].1 == seen[j]);
        } else {
            assert(r[r.len() - 1] == (e.0, e.1->String_0));
        }
    }
}

proof fn lemma_first_text(paths: Seq<JsonV>, i: int)
    requires
        0 <= i < paths.len(),
        paths[i] is String,
        forall|j: int| 0 <= j < i ==> !(#[trigger] paths[j] is String),
    ensures
        first_text(paths) == Some(paths[i]->String_0),
    decreases i,
{
    if i > 0 {
        assert(!(paths[0] is String));
        assert forall|j: int| 0 <= j < i - 1 implies !(#[trigger] paths.drop_first()[j] is String) by {
            assert(paths.drop_first()[j] == paths[j + 1]);
        }
        lemma_first_text(paths.drop_first(), i - 1);
    }
}

proof fn lemma_no_text(paths: Seq<JsonV>)
    requires
        forall|j: int| 0 <= j < paths.len() ==> !(#[trigger] paths[j] is String),
    ensures
        first_text(paths) is None,
    decreases paths.len(),
{
    if paths.len() > 0 {
        assert(!(paths[0] is String));
        assert forall|j: int| 0 <= j < paths.len() - 1 implies !(
        #[trigger] paths.drop_first()[j] is String) by {
            assert(paths.drop_first()[j] == paths[j + 1]);
        }
        lemma_no_text(paths.drop_first());
    }
}

/// A JSONPath is judged valid by the first path it finds alone: where that
/// path's pointer leads to a value, exactly when the value is a string (an
/// object, an array, a number is not); where it leads nowhere, valid.
pub proof fn validity_follows_first_found_value(
    u: JsonV,
    path: Seq<char>,
    paths: Seq<JsonV>,
    i: int,
)
    requires
        json_path_matches(u, path) == Some(JsonV::Array(paths)),
        0 <= i < paths.len(),
        paths[i] is String,
        forall|j: int| 0 <= j < i ==> !(#[trigger] paths[j] is String),
    ensures
        match json_pointer_get(u, brackets_to_slashes(pointer_path_of(paths[i]->String_0))) {
            Some(v) => valid_json_path(u, path) == (v is String),
            None => valid_json_path(u, path),
        },
{
    lemma_first_text(paths, i);
}

/// A JSONPath that does not parse, or finds no path, is not valid.
pub proof fn nothing_found_is_not_valid(u: JsonV, path: Seq<char>)
    requires
        !(json_path_matches(u, path) matches Some(JsonV::Array(paths)) && exists|j: int|
            0 <= j < paths.len() && #[trigger] paths[j] is String),
    ensures
        !valid_json_path(u, path),
{
    if let Some(JsonV::Array(paths)) = json_path_matches(u, path) {
        lemma_no_text(paths);
    }
}

/// The path an entry gives: its prePath if that is a string, else its
/// postPath if that is a string.
pub open spec fn given_path(item: JsonV) -> Option<Seq<char>> {
    match json_get(item, "prePath"@) {
        Some(JsonV::String(p)) => Some(p),
        _ => match json_get(item, "postPath"@) {
            Some(JsonV::String(q)) => Some(q),
            _ => None,
        },
    }
}

/// A response read from JSON text is refused only where an entry of its
/// `redacted` array is not an object, or the path it gives (stripped of
/// `"`) holds brackets on which jsonpath-rust panics; any other path, filters
/// among them, is carried out.
pub proof fn response_refused_only_for_unreadable_entries(contents: Seq<char>, doc: JsonV)
    requires
        json_text_parsed(contents) == Some(doc),
    ensures
        processed_text(contents) is Some <==> match json_get(doc, "redacted"@) {
            Some(JsonV::Array(items)) => forall|i: int|
                0 <= i < items.len() ==> (#[trigger] items[i]) is Object && (given_path(
                    items[i],
                ) matches Some(p) ==> index_safe(trim_char(p, '"'))),
            _ => true,
        },
{
}

} // verus!

verus! {

/// Entry `i` gives the path `path` under the key `key` (`prePath` or
/// `postPath`), and no entry before it gives that path under either key.
pub open spec fn first_giver(
    es: Seq<(Seq<char>, JsonV, Seq<char>)>,
    i: int,
    key: Seq<char>,
    path: Seq<char>,
) -> bool {
    &&& 0 <= i < es.len()
    &&& key == "prePath"@ || key == "postPath"@
    &&& es[i].0 == key
    &&& es[i].1 == JsonV::String(path)
    &&& forall|m: int|
        0 <= m < i && (es[m].0 == "prePath"@ || es[m].0 == "postPath"@) ==> es[m].1
            != JsonV::String(path)
}

/// Each kept path comes, with its key, from the first entry under
/// `prePath` or `postPath` that gives it.
pub proof fn kept_paths_come_from_their_first_entry(
    es: Seq<(Seq<char>, JsonV, Seq<char>)>,
    j: int,
)
    requires
        0 <= j < redaction_path_pairs(es).len(),
        forall|i: int|
            0 <= i < es.len() && ((#[trigger] es[i]).0 == "prePath"@ || es[i].0 == "postPath"@)
                ==> es[i].1 is String,
    ensures
        exists|i: int|
            #[trigger] first_giver(
                es,
                i,
                redaction_path_pairs(es)[j].0,
                redaction_path_pairs(es)[j].1,
            ),
    decreases es.len(),
{
    let prev = redaction_path_pairs(es.drop_last());
    let e = es.last();
    let r = redaction_path_pairs(es);
    let seen = prev.map_values(|p: (Seq<char>, Seq<char>)| p.1);
    let d = es.drop_last();
    if j < prev.len() {
        assert(r[j] == prev[j]);
        assert forall|i: int|
            0 <= i < d.len() && ((#[trigger] d[i]).0 == "prePath"@ || d[i].0 == "postPath"@)
                implies d[i].1 is String by {
            assert(d[i] == es[i]);
        }
        kept_paths_come_from_their_first_entry(d, j);
        let i = choose|i: int| #[trigger] first_giver(d, i, prev[j].0, prev[j].1);
        assert forall|m: int|
            0 <= m < i && (es[m].0 == "prePath"@ || es[m].0 == "postPath"@) implies es[m].1
            != JsonV::String(r[j].1) by {
            assert(es[m] == d[m]);
        }
        assert(es[i] == d[i]);
        assert(first_giver(es, i, r[j].0, r[j].1));
    } else {
        let i = es.len() - 1;
        assert(r != prev);
        assert(es[i] == e);
        assert(r[j] == (e.0, e.1->String_0));
        assert(!seen.contains(e.1->String_0));
        assert forall|m: int|
            0 <= m < i && (es[m].0 == "prePath"@ || es[m].0 == "postPath"@) implies es[m].1
            != JsonV::String(r[j].1) by {
            if es[m].1 == JsonV::String(r[j].1) {
                assert(d[m] == es[m]);
                every_redaction_path_is_kept(d, m);
                let k = choose|k: int| 0 <= k < prev.len() && prev[k].1 == es[m].1->String_0;
                assert(seen[k] == prev[k].1);
            }
        }
        assert(first_giver(es, i, r[j].0, r[j].1));
    }
}

/// The return code of a value the path search found: by what the value is,
/// a string by its text.
pub proof fn return_codes_follow_the_value(x: SliceV)
    ensures
        x matches SliceV::Slice(JsonV::String(s)) ==> slice_status(x) == if s == "NO_VALUE"@ {
            "Empty1"@
        } else if s.len() == 0 {
            "Empty2"@
        } else {
            "Replaced1"@
        },
        x matches SliceV::Slice(JsonV::Array(_)) ==> slice_status(x) == "Replaced2"@,
        x matches SliceV::Slice(JsonV::Object(_)) ==> slice_status(x) == "Replaced3"@,
        x matches SliceV::Slice(JsonV::Null) ==> slice_status(x) == "Removed2"@,
        x matches SliceV::Slice(JsonV::Bool(_)) ==> slice_status(x) == "Removed3"@,
        x matches SliceV::Slice(JsonV::Number(_)) ==> slice_status(x) == "Removed3"@,
        x is NewValue ==> slice_status(x) == "Removed3"@,
        x is NoValue ==> slice_status(x) == "Removed1"@,
{
}

} // verus!

verus! {

/// Checking one more key and path adds, after the checks before it, one
/// check for each value the path search gives, with its return code, the key
/// and the path, in the order found.
pub proof fn checks_follow_keys_and_paths_in_turn(
    doc: JsonV,
    kps: Seq<(Seq<char>, Seq<char>)>,
    key: Seq<char>,
    path: Seq<char>,
    found: Seq<SliceV>,
)
    requires
        json_path_slices(doc, path) == Some(found),
    ensures
        path_checks(doc, Seq::empty()).len() == 0,
        path_checks(doc, kps.push((key, path))).len() == path_checks(doc, kps).len() + found.len(),
        forall|i: int|
            0 <= i < path_checks(doc, kps).len() ==> #[trigger] path_checks(
                doc,
                kps.push((key, path)),
            )[i] == path_checks(doc, kps)[i],
        forall|i: int|
            0 <= i < found.len() ==> path_checks(doc, kps.push((key, path)))[path_checks(
                doc,
                kps,
            ).len() + i] == (slice_status(#[trigger] found[i]), key, path),
{
    assert(kps.push((key, path)).drop_last() =~= kps);
}

/// Counting a status: no results count nothing, and one more result counts
/// one more exactly when it has that status.
pub proof fn statuses_are_counted_one_by_one(
    r: Seq<(Seq<char>, Seq<char>, Seq<char>)>,
    t: (Seq<char>, Seq<char>, Seq<char>),
    status: Seq<char>,
)
    ensures
        status_count(Seq::empty(), status) == 0,
        status_count(r.push(t), status) == status_count(r, status) + if t.0 == status {
            1nat
        } else {
            0nat
        },
        status_count(r, status) <= r.len(),
    decreases r.len(),
{
    assert(r.push(t).drop_last() =~= r);
    if r.len() > 0 {
        statuses_are_counted_one_by_one(r.drop_last(), r.last(), status);
    }
}

/// What a value found at a redaction path is taken to be: nothing there or
/// the string `NO_VALUE` is a string with no value, then an empty string, a
/// string with a value, null, an array, an object; a number or a bool falls
/// through.
pub proof fn found_values_are_classified(found: Option<JsonV>)
    ensures
        found is None ==> classify(found) == ResultType::StringNoValue,
        found matches Some(JsonV::String(s)) ==> classify(found) == if s == "NO_VALUE"@ {
            ResultType::StringNoValue
        } else if s.len() == 0 {
            ResultType::EmptyString
        } else {
            ResultType::PartialString
        },
        found == Some(JsonV::Null) ==> classify(found) == ResultType::FoundNull,
        found matches Some(JsonV::Array(_)) ==> classify(found) == ResultType::Array,
        found matches Some(JsonV::Object(_)) ==> classify(found) == ResultType::Object,
        found matches Some(JsonV::Bool(_)) ==> classify(found) == ResultType::FoundNothing,
        found matches Some(JsonV::Number(_)) ==> classify(found) == ResultType::FoundNothing,
{
}

/// The listing of an object's members starts with its first member: its
/// key, its value, and the path `$.key` (or the given path, `.` and the key).
pub proof fn listing_starts_with_the_first_member(
    es: Seq<(Seq<char>, JsonV)>,
    cur: Seq<char>,
)
    requires
        es.len() > 0,
    ensures
        kp_paths(JsonV::Object(es), cur).len() > 0,
        kp_paths(JsonV::Object(es), cur)[0] == (
            es[0].0,
            es[0].1,
            if cur.len() == 0 {
                seq!['$', '.'] + es[0].0
            } else {
                cur + seq!['.'] + es[0].0
            },
        ),
{
    reveal_strlit("$.");
    reveal_strlit(".");
    lemma_members_prefix(es, cur, es.len());
}

proof fn lemma_members_prefix(es: Seq<(Seq<char>, JsonV)>, cur: Seq<char>, n: nat)
    requires
        0 < n <= es.len(),
    ensures
        kp_members(es, cur, n).len() > 0,
        kp_members(es, cur, n)[0] == (es[0].0, es[0].1, member_path(cur, es[0].0)),
    decreases n,
{
    if n > 1 {
        lemma_members_prefix(es, cur, (n - 1) as nat);
    } else {
        assert(kp_members(es, cur, 0) =~= Seq::empty());
    }
}

} // verus!

verus! {

/// A path wrapped in double quotes is searched as the path inside them:
/// the entry records the same results as with the bare path.
pub proof fn quoted_path_gives_the_same_results(
    doc: JsonV,
    o: RedactedObjectV,
    q: Seq<char>,
)
    requires
        q.len() > 0,
        q[0] != '"',
        q.last() != '"',
    ensures
        ({
            let a = after_json_path(
                doc,
                RedactedObjectV { original_path: Some(seq!['"'] + q + seq!['"']), ..o },
            );
            let b = after_json_path(doc, RedactedObjectV { original_path: Some(q), ..o });
            a.result_type == b.result_type && a.final_path == b.final_path && a.path_index_count
                == b.path_index_count
        }),
{
    let w = seq!['"'] + q + seq!['"'];
    assert(w.drop_first() =~= q + seq!['"']);
    assert(trim_start_char(w.drop_first(), '"') == q + seq!['"']);
    assert(trim_start_char(w, '"') == q + seq!['"']);
    assert((q + seq!['"']).drop_last() =~= q);
    assert((q + seq!['"']).last() == '"');
    assert(trim_end_char(q, '"') == q);
    assert(trim_end_char(q + seq!['"'], '"') == q);
    assert(trim_start_char(q, '"') == q);
    assert(trim_char(w, '"') == q);
    assert(trim_char(q, '"') == q);
}

} // verus!
