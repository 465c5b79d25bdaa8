use vstd::prelude::*;
use crate::json::{json_get, object_get, JsonV};
use crate::outside::{
    json_path_matches, json_path_slices, json_pretty_text, json_text_parsed, replacement_value,
    ReplacementV,
};
use crate::outside::SliceV;
use crate::path_report::{
    is_redaction_key, item_path, kp_paths, kp_members, kp_items, member_path, path_checks,
    redaction_path_pairs, slice_status, status_count,
};
use crate::redaction::{
    after_json_path, all_are, all_string_like, classify, found_final_paths, found_path_results,
    initial_object, nonempty_text, redacted_object_of, substitutes, RedactedObjectV,
    RedactionType, ResultType,
};
use crate::path_safety::{key_position, parse_steps, steps_get, steps_set};
use crate::pointer::json_pointer_get;
use crate::pointer_path::{pointer_path_of, PathStep};
use crate::substitution::{
    apply_at, apply_object, entries_are_readable, processed_text, redacted_document, substitution_count,
};
use crate::text::trim_char;

verus! {

/// Every entry read from a `redacted` array gets a redaction type, and its
/// found values are to be replaced exactly when that type is an empty,
/// partial or replacement value.
pub proof fn substitution_follows_redaction_type(doc: JsonV, item: JsonV)
    ensures
        redacted_object_of(doc, item).redaction_type is Some,
        redacted_object_of(doc, item).do_final_path_subsitution == substitutes(
            redacted_object_of(doc, item).redaction_type->Some_0,
        ),
{
}

/// The method an entry claims is not taken on trust: each redaction type
/// other than `Unknown` is given only where the method names it and what was
/// found at the path agrees with it.
pub proof fn redaction_type_is_checked(doc: JsonV, item: JsonV)
    ensures
        ({
            let o = redacted_object_of(doc, item);
            let rs = o.result_type;
            let t = o.redaction_type->Some_0;
            &&& t == RedactionType::EmptyValue ==> o.method == JsonV::String("emptyValue"@)
                && rs.len() > 0 && all_string_like(rs)
            &&& t == RedactionType::PartialValue ==> (o.method == JsonV::String(
                "partialValue"@,
            ) && rs.len() > 0 && all_string_like(rs)) || (o.method == JsonV::String(
                "replacementValue"@,
            ) && rs.len() > 0 && all_are(rs, ResultType::PartialString)
                && o.replacement_path is None)
            &&& t == RedactionType::ReplacementValue ==> o.method == JsonV::String(
                "replacementValue"@,
            ) && rs.len() > 0 && all_are(rs, ResultType::PartialString) && nonempty_text(
                o.replacement_path,
            )
            &&& t == RedactionType::Removal ==> o.method == JsonV::String("removal"@) && rs.len()
                > 0 && all_are(rs, ResultType::Removed)
        }),
{
}

/// An entry judged a removal (or of unknown type) changes nothing in the
/// document it is carried out on.
pub proof fn unsubstituted_entry_changes_nothing(doc: JsonV, item: JsonV, target: JsonV)
    requires
        !substitutes(redacted_object_of(doc, item).redaction_type->Some_0),
    ensures
        apply_object(target, redacted_object_of(doc, item)) == target,
{
}

/// A path that matches nothing is recorded as a removal, with no path to
/// replace; such an entry leaves the document as it is.
pub proof fn nothing_found_is_removal(doc: JsonV, item: JsonV, target: JsonV)
    requires
        initial_object(item).original_path is Some,
        json_path_matches(
            doc,
            trim_char(initial_object(item).original_path->Some_0, '"'),
        ) == Some(JsonV::Array(Seq::empty())),
    ensures
        redacted_object_of(doc, item).result_type == seq![Some(ResultType::Removed)],
        redacted_object_of(doc, item).final_path.len() == 0,
        redacted_object_of(doc, item).path_index_count == 0,
        apply_object(target, redacted_object_of(doc, item)) == target,
{
    assert(Seq::<Option<ResultType>>::empty().push(Some(ResultType::Removed)) =~= seq![
        Some(ResultType::Removed),
    ]);
}

/// Where every path found is a string, each is recorded in order with what
/// is there: the paths kept and the results line up one for one.
pub proof fn found_paths_line_up(doc: JsonV, paths: Seq<JsonV>)
    requires
        forall|i: int| 0 <= i < paths.len() ==> (#[trigger] paths[i]) is String,
    ensures
        found_final_paths(paths).len() == paths.len(),
        found_path_results(doc, paths).len() == paths.len(),
        forall|i: int|
            0 <= i < paths.len() ==> #[trigger] found_final_paths(paths)[i] == Some(
                paths[i]->String_0,
            ),
    decreases paths.len(),
{
    if paths.len() > 0 {
        let rest = paths.drop_last();
        found_paths_line_up(doc, rest);
        assert forall|i: int| 0 <= i < paths.len() implies #[trigger] found_final_paths(
            paths,
        )[i] == Some(paths[i]->String_0) by {
            if i < paths.len() - 1 {
                assert(found_final_paths(rest)[i] == Some(rest[i]->String_0));
            }
        }
    }
}

/// Where the paths found (all strings, as jsonpath-rust writes them) are not
/// more than `i32` counts, carrying out the entry deals with every one of
/// them.
pub proof fn every_found_path_is_dealt_with(doc: JsonV, item: JsonV, paths: Seq<JsonV>)
    requires
        initial_object(item).original_path is Some,
        json_path_matches(doc, trim_char(initial_object(item).original_path->Some_0, '"'))
            == Some(JsonV::Array(paths)),
        0 < paths.len() <= i32::MAX,
        forall|i: int| 0 <= i < paths.len() ==> (#[trigger] paths[i]) is String,
    ensures
        redacted_object_of(doc, item).final_path.len() == paths.len(),
        substitution_count(redacted_object_of(doc, item)) == paths.len(),
{
    found_paths_line_up(doc, paths);
    let o = after_json_path(doc, initial_object(item));
    assert(o.final_path =~= found_final_paths(paths));
    assert(o.result_type =~= found_path_results(doc, paths));
    assert((#[verifier::truncate] (paths.len() as i32)) == paths.len());
}

/// A response with no `redacted` array comes out as it went in.
pub proof fn response_without_redactions_is_unchanged(doc: JsonV)
    requires
        !(json_get(doc, "redacted"@) matches Some(JsonV::Array(_))),
    ensures
        redacted_document(doc) == doc,
{
}

/// Starring a string keeps its text between stars (an empty one becomes
/// `*REDACTED*`); any other value is left as it was, so a number redacted by
/// empty or partial value keeps its value.
pub proof fn starring_touches_only_strings(x: JsonV)
    ensures
        x is String ==> replacement_value(ReplacementV::Redact(x), x) == if x->String_0.len()
            == 0 {
            JsonV::String("*REDACTED*"@)
        } else {
            JsonV::String("*"@ + x->String_0 + "*"@)
        },
        !(x is String) ==> replacement_value(ReplacementV::Redact(x), x) == x,
{
}

} // verus!

verus! {

/// The return codes that the checks of redaction paths are documented to give.
pub open spec fn documented_codes() -> Seq<Seq<char>> {
    seq![
        "Removed1"@, "Removed2"@, "Removed3"@, "Removed4"@, "Removed5"@, "Empty1"@, "Empty2"@,
        "Replaced1"@, "Replaced2"@, "Replaced3"@,
    ]
}

/// How many of the results carry each of the codes in `codes`, added up.
pub open spec fn codes_count(r: Seq<(Seq<char>, Seq<char>, Seq<char>)>, codes: Seq<Seq<char>>) -> nat
    decreases codes.len(),
{
    if codes.len() == 0 {
        0
    } else {
        codes_count(r, codes.drop_last()) + status_count(r, codes.last())
    }
}

/// Every check of a redaction path reports one of the documented return
/// codes: counted code by code, the checks add up to all of them.
pub proof fn every_check_has_a_code(doc: JsonV, kps: Seq<(Seq<char>, Seq<char>)>)
    ensures
        forall|i: int|
            0 <= i < path_checks(doc, kps).len() ==> documented_codes().contains(
                (#[trigger] path_checks(doc, kps)[i]).0,
            ),
        codes_count(path_checks(doc, kps), documented_codes()) == path_checks(doc, kps).len(),
{
    lemma_checks_have_codes(doc, kps);
    lemma_codes_add_up(path_checks(doc, kps));
}

proof fn lemma_slice_code(x: SliceV)
    ensures
        documented_codes().contains(slice_status(x)),
{
    let c = documented_codes();
    match x {
        SliceV::Slice(v) => match classify(Some(v)) {
            ResultType::StringNoValue => assert(c[5] == slice_status(x)),
            ResultType::EmptyString => assert(c[6] == slice_status(x)),
            ResultType::PartialString => assert(c[7] == slice_status(x)),
            ResultType::Array => assert(c[8] == slice_status(x)),
            ResultType::Object => assert(c[9] == slice_status(x)),
            ResultType::Removed => assert(c[0] == slice_status(x)),
            ResultType::FoundNull => assert(c[1] == slice_status(x)),
            ResultType::FoundNothing => assert(c[2] == slice_status(x)),
            ResultType::FoundUnknown => assert(c[3] == slice_status(x)),
            ResultType::FoundPathReturnedBadValue => assert(c[4] == slice_status(x)),
        },
        SliceV::NewValue(_) => assert(c[2] == slice_status(x)),
        SliceV::NoValue => assert(c[0] == slice_status(x)),
    }
}

proof fn lemma_checks_have_codes(doc: JsonV, kps: Seq<(Seq<char>, Seq<char>)>)
    ensures
        forall|i: int|
            0 <= i < path_checks(doc, kps).len() ==> documented_codes().contains(
                (#[trigger] path_checks(doc, kps)[i]).0,
            ),
    decreases kps.len(),
{
    if kps.len() > 0 {
        let (key, path) = kps.last();
        let prev = path_checks(doc, kps.drop_last());
        let found = json_path_slices(doc, path)->Some_0;
        lemma_checks_have_codes(doc, kps.drop_last());
        assert forall|i: int|
            0 <= i < path_checks(doc, kps).len() implies documented_codes().contains(
            (#[trigger] path_checks(doc, kps)[i]).0,
        ) by {
            if i >= prev.len() {
                let x = found[i - prev.len()];
                assert(path_checks(doc, kps)[i] == (slice_status(x), key, path));
                lemma_slice_code(x);
            } else {
                assert(path_checks(doc, kps)[i] == prev[i]);
            }
        }
    }
}

/// Counting codes that are pairwise different: a result whose code is one of
/// them adds one to the total, any other result adds nothing.
proof fn lemma_codes_count_step(
    r: Seq<(Seq<char>, Seq<char>, Seq<char>)>,
    codes: Seq<Seq<char>>,
)
    requires
        r.len() > 0,
        forall|a: int, b: int| 0 <= a < b < codes.len() ==> codes[a] != codes[b],
    ensures
        codes_count(r, codes) == codes_count(r.drop_last(), codes) + if codes.contains(
            r.last().0,
        ) {
            1nat
        } else {
            0nat
        },
    decreases codes.len(),
{
    if codes.len() > 0 {
        let rest = codes.drop_last();
        assert forall|a: int, b: int| 0 <= a < b < rest.len() implies rest[a] != rest[b] by {
            assert(rest[a] == codes[a] && rest[b] == codes[b]);
        }
        lemma_codes_count_step(r, rest);
        if codes.last() == r.last().0 {
            assert(codes.contains(r.last().0));
            if rest.contains(r.last().0) {
                let k = choose|k: int| 0 <= k < rest.len() && rest[k] == r.last().0;
                assert(codes[k] == codes[codes.len() - 1]);
            }
        } else {
            if codes.contains(r.last().0) {
                let k = choose|k: int| 0 <= k < codes.len() && codes[k] == r.last().0;
                assert(rest[k] == r.last().0);
            }
            if rest.contains(r.last().0) {
                let k = choose|k: int| 0 <= k < rest.len() && rest[k] == r.last().0;
                assert(codes[k] == r.last().0);
            }
        }
    }
}

proof fn lemma_codes_add_up(r: Seq<(Seq<char>, Seq<char>, Seq<char>)>)
    requires
        forall|i: int| 0 <= i < r.len() ==> documented_codes().contains((#[trigger] r[i]).0),
    ensures
        codes_count(r, documented_codes()) == r.len(),
    decreases r.len(),
{
    if r.len() == 0 {
        lemma_codes_empty(r, documented_codes());
    } else {
        lemma_codes_distinct();
        assert(documented_codes().contains(r[r.len() - 1].0));
        lemma_codes_count_step(r, documented_codes());
        lemma_codes_add_up(r.drop_last());
    }
}

proof fn lemma_codes_empty(r: Seq<(Seq<char>, Seq<char>, Seq<char>)>, codes: Seq<Seq<char>>)
    requires
        r.len() == 0,
    ensures
        codes_count(r, codes) == 0,
    decreases codes.len(),
{
    if codes.len() > 0 {
        lemma_codes_empty(r, codes.drop_last());
    }
}

proof fn lemma_codes_distinct()
    ensures
        forall|a: int, b: int|
            0 <= a < b < documented_codes().len() ==> documented_codes()[a]
                != documented_codes()[b],
{
    reveal_strlit("Removed1");
    reveal_strlit("Removed2");
    reveal_strlit("Removed3");
    reveal_strlit("Removed4");
    reveal_strlit("Removed5");
    reveal_strlit("Empty1");
    reveal_strlit("Empty2");
    reveal_strlit("Replaced1");
    reveal_strlit("Replaced2");
    reveal_strlit("Replaced3");
    let c = documented_codes();
    assert forall|a: int, b: int| 0 <= a < b < c.len() implies c[a] != c[b] by {
        if c[a] == c[b] {
            assert(c[a][c[a].len() - 1] == c[b][c[b].len() - 1]);
            assert(c[a][0] == c[b][0]);
        }
    }
}

/// The paths taken from `prePath` and `postPath` entries are each kept once,
/// and each comes with the key it was found under, `prePath` or `postPath`.
pub proof fn redaction_paths_kept_once(es: Seq<(Seq<char>, JsonV, Seq<char>)>)
    ensures
        forall|i: int, j: int|
            0 <= i < j < redaction_path_pairs(es).len() ==> (#[trigger] redaction_path_pairs(
                es,
            )[i]).1 != (#[trigger] redaction_path_pairs(es)[j]).1,
        forall|i: int|
            0 <= i < redaction_path_pairs(es).len() ==> is_redaction_key(
                (#[trigger] redaction_path_pairs(es)[i]).0,
            ),
    decreases es.len(),
{
    if es.len() > 0 {
        let prev = redaction_path_pairs(es.drop_last());
        let e = es.last();
        redaction_paths_kept_once(es.drop_last());
        let seen = prev.map_values(|p: (Seq<char>, Seq<char>)| p.1);
        if is_redaction_key(e.0) && !seen.contains(e.1->String_0) {
            assert forall|i: int| 0 <= i < prev.len() implies prev[i].1 != e.1->String_0 by {
                assert(seen[i] == prev[i].1);
            }
        }
    }
}

} // verus!

verus! {

/// A response read from JSON text whose `redacted` entries can be read comes
/// out as the pretty text of the redacted document; with no `redacted` array,
/// as the pretty text of the response itself.
pub proof fn processed_text_is_printed_redaction(contents: Seq<char>, doc: JsonV)
    requires
        json_text_parsed(contents) == Some(doc),
        entries_are_readable(doc),
    ensures
        processed_text(contents) == Some(json_pretty_text(redacted_document(doc))),
        !(json_get(doc, "redacted"@) matches Some(JsonV::Array(_))) ==> processed_text(contents)
            == Some(json_pretty_text(doc)),
{
}

} // verus!

verus! {

/// How many object members there are in `v`, at any depth.
pub open spec fn member_count(v: JsonV) -> nat
    decreases v, 0nat,
{
    match v {
        JsonV::Object(entries) => members_count(entries, entries.len()),
        JsonV::Array(items) => items_count(items, items.len()),
        _ => 0,
    }
}

/// How many object members the first `n` members of an object hold,
/// themselves included.
pub open spec fn members_count(entries: Seq<(Seq<char>, JsonV)>, n: nat) -> nat
    decreases entries, n,
{
    if n == 0 || n > entries.len() {
        0
    } else {
        proof {
            broadcast use vstd::seq::axiom_seq_index_decreases;

            assert(decreases_to!(entries => entries[n - 1]));
        }
        members_count(entries, (n - 1) as nat) + 1 + member_count(entries[n - 1].1)
    }
}

/// How many object members the first `n` items of an array hold.
pub open spec fn items_count(items: Seq<JsonV>, n: nat) -> nat
    decreases items, n,
{
    if n == 0 || n > items.len() {
        0
    } else {
        proof {
            broadcast use vstd::seq::axiom_seq_index_decreases;

        }
        items_count(items, (n - 1) as nat) + member_count(items[n - 1])
    }
}

/// Listing the members below a value gives one entry for each object member
/// in it, at any depth, wherever the listing's path starts.
pub proof fn one_entry_per_member(v: JsonV, cur: Seq<char>)
    ensures
        kp_paths(v, cur).len() == member_count(v),
    decreases v, 0nat,
{
    match v {
        JsonV::Object(entries) => lemma_members_listed(entries, cur, entries.len()),
        JsonV::Array(items) => lemma_items_listed(items, cur, items.len()),
        _ => {},
    }
}

proof fn lemma_members_listed(entries: Seq<(Seq<char>, JsonV)>, cur: Seq<char>, n: nat)
    ensures
        kp_members(entries, cur, n).len() == members_count(entries, n),
    decreases entries, n,
{
    if n > 0 && n <= entries.len() {
        broadcast use vstd::seq::axiom_seq_index_decreases;

        assert(decreases_to!(entries => entries[n - 1]));
        lemma_members_listed(entries, cur, (n - 1) as nat);
        one_entry_per_member(entries[n - 1].1, member_path(cur, entries[n - 1].0));
    }
}

proof fn lemma_items_listed(items: Seq<JsonV>, cur: Seq<char>, n: nat)
    ensures
        kp_items(items, cur, n).len() == items_count(items, n),
    decreases items, n,
{
    if n > 0 && n <= items.len() {
        broadcast use vstd::seq::axiom_seq_index_decreases;

        lemma_items_listed(items, cur, (n - 1) as nat);
        one_entry_per_member(items[n - 1], item_path(cur, (n - 1) as nat));
    }
}

} // verus!

verus! {

/// A redaction by empty or partial value deals with a found path that reads
/// as `.['key']` and `[index]` steps (as jsonpath-rust writes them), where
/// those steps and the path's pointer lead to a value: that value alone is
/// replaced, a string by its starred text (an empty one by `*REDACTED*`).
pub proof fn empty_or_partial_value_stars_in_place(
    doc: JsonV,
    o: RedactedObjectV,
    k: int,
    steps: Seq<PathStep>,
)
    requires
        0 <= k < o.final_path.len(),
        o.final_path[k] matches Some(fp) && parse_steps(fp) == Some(steps),
        steps.len() > 0,
        steps_get(doc, steps) is Some,
        json_pointer_get(doc, pointer_path_of(o.final_path[k]->Some_0)) is Some,
        o.redaction_type == Some(RedactionType::EmptyValue) || o.redaction_type == Some(
            RedactionType::PartialValue,
        ),
    ensures
        apply_at(doc, o, k) == steps_set(
            doc,
            steps,
            replacement_value(
                ReplacementV::Redact(
                    json_pointer_get(doc, pointer_path_of(o.final_path[k]->Some_0))->Some_0,
                ),
                steps_get(doc, steps)->Some_0,
            ),
        ),
        steps_get(doc, steps) matches Some(JsonV::String(s)) ==> apply_at(doc, o, k) == steps_set(
            doc,
            steps,
            if s.len() == 0 {
                JsonV::String("*REDACTED*"@)
            } else {
                JsonV::String("*"@ + s + "*"@)
            },
        ),
{
}

/// A redaction by replacement value deals with a found path that reads as
/// `.['key']` and `[index]` steps leading to a value, where its
/// replacementPath points at a value: that found value alone is replaced by
/// the one the replacementPath points at.
pub proof fn replacement_value_copies_in_place(
    doc: JsonV,
    o: RedactedObjectV,
    k: int,
    steps: Seq<PathStep>,
)
    requires
        0 <= k < o.final_path.len(),
        o.final_path[k] matches Some(fp) && parse_steps(fp) == Some(steps),
        steps.len() > 0,
        steps_get(doc, steps) is Some,
        o.redaction_type == Some(RedactionType::ReplacementValue),
        o.replacement_path matches Some(rp) && json_pointer_get(doc, pointer_path_of(rp)) is Some,
    ensures
        apply_at(doc, o, k) == steps_set(
            doc,
            steps,
            json_pointer_get(doc, pointer_path_of(o.replacement_path->Some_0))->Some_0,
        ),
{
}

} // verus!

verus! {

/// Whether two step sequences part ways: at some step they differ, after
/// the same steps before it.
pub open spec fn steps_diverge(a: Seq<PathStep>, b: Seq<PathStep>) -> bool
    decreases a.len(),
{
    a.len() > 0 && b.len() > 0 && (a[0] != b[0] || steps_diverge(a.drop_first(), b.drop_first()))
}

proof fn lemma_key_position(es: Seq<(Seq<char>, JsonV)>, k: Seq<char>)
    ensures
        0 <= key_position(es, k) <= es.len(),
        key_position(es, k) < es.len() ==> es[key_position(es, k)].0 == k && object_get(es, k)
            == Some(es[key_position(es, k)].1),
        key_position(es, k) == es.len() ==> object_get(es, k) is None,
    decreases es.len(),
{
    if es.len() > 0 && es[0].0 != k {
        lemma_key_position(es.drop_first(), k);
    }
}

proof fn lemma_get_after_update(
    es: Seq<(Seq<char>, JsonV)>,
    k: Seq<char>,
    w: JsonV,
    k2: Seq<char>,
)
    requires
        key_position(es, k) < es.len(),
    ensures
        object_get(es.update(key_position(es, k), (k, w)), k2) == if k2 == k {
            Some(w)
        } else {
            object_get(es, k2)
        },
    decreases es.len(),
{
    lemma_key_position(es, k);
    let p = key_position(es, k);
    let u = es.update(p, (k, w));
    if p == 0 {
        assert(u.drop_first() =~= es.drop_first());
    } else {
        lemma_key_position(es.drop_first(), k);
        assert(u.drop_first() =~= es.drop_first().update(p - 1, (k, w)));
        assert(u[0] == es[0]);
        if es[0].0 != k2 {
            lemma_get_after_update(es.drop_first(), k, w, k2);
        }
    }
}

/// Replacing the value that some steps lead to gives that value at those
/// steps and leaves the value at any steps that part ways with them as it was.
pub proof fn replacing_in_place_changes_only_that_value(
    doc: JsonV,
    steps: Seq<PathStep>,
    v: JsonV,
    other: Seq<PathStep>,
)
    requires
        steps_get(doc, steps) is Some,
    ensures
        steps_get(steps_set(doc, steps, v), steps) == Some(v),
        steps_diverge(steps, other) ==> steps_get(steps_set(doc, steps, v), other) == steps_get(
            doc,
            other,
        ),
    decreases steps.len(),
{
    if steps.len() > 0 {
        let rest = steps.drop_first();
        match (steps[0], doc) {
            (PathStep::Key(k), JsonV::Object(es)) => {
                lemma_key_position(es, k);
                let p = key_position(es, k);
                let child = es[p].1;
                replacing_in_place_changes_only_that_value(child, rest, v, other.drop_first());
                let w = steps_set(child, rest, v);
                lemma_get_after_update(es, k, w, k);
                if other.len() > 0 {
                    match other[0] {
                        PathStep::Key(k2) => {
                            lemma_get_after_update(es, k, w, k2);
                        },
                        _ => {},
                    }
                }
            },
            (PathStep::Index(i), JsonV::Array(items)) => {
                replacing_in_place_changes_only_that_value(
                    items[i as int],
                    rest,
                    v,
                    other.drop_first(),
                );
            },
            _ => {},
        }
    }
}

} // verus!
