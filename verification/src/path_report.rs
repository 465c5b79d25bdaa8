use vstd::prelude::*;
use crate::json::{Json, JsonV, json_wf, lemma_view_items};
use crate::outside::{
    find_slice, json_path_slices, json_text_parsed, parse_json_text, SliceItem, SliceV,
};
use crate::pointer_path::{decimal_text, digit_char};
use crate::path_safety::{index_safe, is_index_safe};
use crate::redaction::{classify, classify_found, ResultType};
use crate::text::push_char;

verus! {

/// The character of the digit `d`.
fn digit(d: usize) -> (c: char)
    requires
        d < 10,
    ensures
        c == digit_char(d as nat),
{
    if d == 0 {
        '0'
    } else if d == 1 {
        '1'
    } else if d == 2 {
        '2'
    } else if d == 3 {
        '3'
    } else if d == 4 {
        '4'
    } else if d == 5 {
        '5'
    } else if d == 6 {
        '6'
    } else if d == 7 {
        '7'
    } else if d == 8 {
        '8'
    } else {
        '9'
    }
}

/// `n` written in decimal.
pub fn decimal_string(n: usize) -> (r: String)
    ensures
        r@ == decimal_text(n as nat),
    decreases n,
{
    if n < 10 {
        let mut s = String::new();
        push_char(&mut s, digit(n));
        assert(s@ =~= seq![digit_char(n as nat)]);
        s
    } else {
        let mut s = decimal_string(n / 10);
        push_char(&mut s, digit(n % 10));
        s
    }
}

/// The path of an object's member `key` under the path `cur`.
pub open spec fn member_path(cur: Seq<char>, key: Seq<char>) -> Seq<char> {
    if cur.len() == 0 {
        "$."@ + key
    } else {
        cur + "."@ + key
    }
}

/// The path of an array's item `i` under the path `cur`.
pub open spec fn item_path(cur: Seq<char>, i: nat) -> Seq<char> {
    cur + "["@ + decimal_text(i) + "]"@
}

/// Every member below `obj` (whose path is `cur`), with its key, its value and
/// its path, each member followed by those below it; array items give the
/// members below them but no entry of their own.
pub open spec fn kp_paths(obj: JsonV, cur: Seq<char>) -> Seq<(Seq<char>, JsonV, Seq<char>)>
    decreases obj, 0nat,
{
    match obj {
        JsonV::Object(entries) => kp_members(entries, cur, entries.len()),
        JsonV::Array(items) => kp_items(items, cur, items.len()),
        _ => Seq::empty(),
    }
}

/// The entries of the first `n` members of an object.
pub open spec fn kp_members(entries: Seq<(Seq<char>, JsonV)>, cur: Seq<char>, n: nat) -> Seq<
    (Seq<char>, JsonV, Seq<char>),
>
    decreases entries, n,
{
    if n == 0 || n > entries.len() {
        Seq::empty()
    } else {
        let e = entries[n - 1];
        let p = member_path(cur, e.0);
        proof {
            broadcast use vstd::seq::axiom_seq_index_decreases;

            assert(decreases_to!(entries => entries[n - 1]));
        }
        kp_members(entries, cur, (n - 1) as nat) + seq![(e.0, e.1, p)] + kp_paths(e.1, p)
    }
}

/// The entries below the first `n` items of an array.
pub open spec fn kp_items(items: Seq<JsonV>, cur: Seq<char>, n: nat) -> Seq<
    (Seq<char>, JsonV, Seq<char>),
>
    decreases items, n,
{
    if n == 0 || n > items.len() {
        Seq::empty()
    } else {
        proof {
            broadcast use vstd::seq::axiom_seq_index_decreases;

        }
        kp_items(items, cur, (n - 1) as nat) + kp_paths(
            items[n - 1],
            item_path(cur, (n - 1) as nat),
        )
    }
}

pub open spec fn entry_view(t: (String, Json, String)) -> (Seq<char>, JsonV, Seq<char>) {
    (t.0@, t.1@, t.2@)
}

pub open spec fn entries_view(ts: Seq<(String, Json, String)>) -> Seq<
    (Seq<char>, JsonV, Seq<char>),
> {
    ts.map_values(|t: (String, Json, String)| entry_view(t))
}

/// `a` followed by `b`.
fn concat(a: &String, b: &str) -> (r: String)
    ensures
        r@ == a@ + b@,
{
    let mut s = a.clone();
    s.append(b);
    s
}

/// Every member below `obj`, with its key, its value and its path (`$.key`,
/// then `.key` and `[index]` steps), each member followed by those below it.
#[verifier::loop_isolation(false)]
pub fn get_kp_json_paths_for_object(obj: &Json, current_path: String) -> (r: Vec<
    (String, Json, String),
>)
    ensures
        entries_view(r@) == kp_paths(obj@, current_path@),
    decreases obj,
{
    proof {
        lemma_view_items(*obj);
    }
    match obj {
        Json::Object(entries) => {
            let ghost ev = obj@->Object_0;
            let mut paths: Vec<(String, Json, String)> = Vec::new();
            let mut i: usize = 0;
            while i < entries.len()
                invariant
                    0 <= i <= entries.len(),
                    entries_view(paths@) == kp_members(ev, current_path@, i as nat),
                decreases entries.len() - i,
            {
                let key = &entries[i].0;
                let value = &entries[i].1;
                let new_path = if current_path.unicode_len() == 0 {
                    concat(&String::from_str("$."), key.as_str())
                } else {
                    let with_dot = concat(&current_path, ".");
                    concat(&with_dot, key.as_str())
                };
                assert(new_path@ == member_path(current_path@, ev[i as int].0));
                let ghost before = entries_view(paths@);
                paths.push((key.clone(), value.deep_copy(), new_path.clone()));
                assert(entries_view(paths@) =~= before + seq![(ev[i as int].0, ev[i as int].1, new_path@)]);
                proof {
                    broadcast use vstd::std_specs::vec::axiom_vec_index_decreases;

                    assert(decreases_to!(*obj => entries@[i as int].1));
                }
                let mut below = get_kp_json_paths_for_object(value, new_path);
                let ghost mid = paths@;
                paths.append(&mut below);
                assert(entries_view(paths@) =~= entries_view(mid) + kp_paths(ev[i as int].1, member_path(current_path@, ev[i as int].0)));
                i += 1;
            }
            paths
        },
        Json::Array(items) => {
            let ghost iv = obj@->Array_0;
            let mut paths: Vec<(String, Json, String)> = Vec::new();
            let mut i: usize = 0;
            while i < items.len()
                invariant
                    0 <= i <= items.len(),
                    entries_view(paths@) == kp_items(iv, current_path@, i as nat),
                decreases items.len() - i,
            {
                let open = concat(&current_path, "[");
                let with_index = concat(&open, decimal_string(i).as_str());
                let new_path = concat(&with_index, "]");
                assert(new_path@ =~= item_path(current_path@, i as nat));
                proof {
                    broadcast use vstd::std_specs::vec::axiom_vec_index_decreases;

                    assert(decreases_to!(*obj => items@[i as int]));
                }
                let mut below = get_kp_json_paths_for_object(&items[i], new_path);
                let ghost mid = paths@;
                paths.append(&mut below);
                assert(entries_view(paths@) =~= entries_view(mid) + kp_paths(iv[i as int], item_path(current_path@, i as nat)));
                i += 1;
            }
            paths
        },
        _ => {
            let paths: Vec<(String, Json, String)> = Vec::new();
            assert(entries_view(paths@) =~= Seq::empty());
            paths
        },
    }
}

} // verus!

verus! {

/// The documented return code for what was found at a redaction path.
pub open spec fn result_code(r: ResultType) -> Seq<char> {
    match r {
        ResultType::StringNoValue => "Empty1"@,
        ResultType::EmptyString => "Empty2"@,
        ResultType::PartialString => "Replaced1"@,
        ResultType::Array => "Replaced2"@,
        ResultType::Object => "Replaced3"@,
        ResultType::Removed => "Removed1"@,
        ResultType::FoundNull => "Removed2"@,
        ResultType::FoundNothing => "Removed3"@,
        ResultType::FoundUnknown => "Removed4"@,
        ResultType::FoundPathReturnedBadValue => "Removed5"@,
    }
}

/// The return code of one value the path search gave: a value of the
/// document is coded by what it is (`Empty2` for an empty string,
/// `Replaced1` for another string, `Removed2` for null, ...); nothing found
/// is `Removed1`; a value the path computed falls through to `Removed3`.
pub open spec fn slice_status(x: SliceV) -> Seq<char> {
    match x {
        SliceV::Slice(v) => result_code(classify(Some(v))),
        SliceV::NewValue(_) => "Removed3"@,
        SliceV::NoValue => "Removed1"@,
    }
}

/// Whether every path can be searched (it holds no brackets on which
/// jsonpath-rust panics) and parses.
pub open spec fn paths_parse(doc: JsonV, kps: Seq<(Seq<char>, Seq<char>)>) -> bool {
    forall|i: int|
        0 <= i < kps.len() ==> index_safe((#[trigger] kps[i]).1) && json_path_slices(
            doc,
            kps[i].1,
        ) is Some
}

/// For each key and path in turn, a status for each value the path search
/// gives, with the key and the path.
pub open spec fn path_checks(doc: JsonV, kps: Seq<(Seq<char>, Seq<char>)>) -> Seq<
    (Seq<char>, Seq<char>, Seq<char>),
>
    decreases kps.len(),
{
    if kps.len() == 0 {
        Seq::empty()
    } else {
        let (key, path) = kps.last();
        path_checks(doc, kps.drop_last()) + json_path_slices(doc, path)->Some_0.map_values(
            |x: SliceV| (slice_status(x), key, path),
        )
    }
}

pub open spec fn pair_view(p: (String, String)) -> (Seq<char>, Seq<char>) {
    (p.0@, p.1@)
}

pub open spec fn status_view(t: (&'static str, String, String)) -> (Seq<char>, Seq<char>, Seq<char>) {
    (t.0@, t.1@, t.2@)
}

/// The return code of `r`.
fn code_of(r: ResultType) -> (c: &'static str)
    ensures
        c@ == result_code(r),
{
    proof {
        reveal_strlit("Empty1");
        reveal_strlit("Empty2");
        reveal_strlit("Replaced1");
        reveal_strlit("Replaced2");
        reveal_strlit("Replaced3");
        reveal_strlit("Removed1");
        reveal_strlit("Removed2");
        reveal_strlit("Removed3");
        reveal_strlit("Removed4");
        reveal_strlit("Removed5");
    }
    match r {
        ResultType::StringNoValue => "Empty1",
        ResultType::EmptyString => "Empty2",
        ResultType::PartialString => "Replaced1",
        ResultType::Array => "Replaced2",
        ResultType::Object => "Replaced3",
        ResultType::Removed => "Removed1",
        ResultType::FoundNull => "Removed2",
        ResultType::FoundNothing => "Removed3",
        ResultType::FoundUnknown => "Removed4",
        ResultType::FoundPathReturnedBadValue => "Removed5",
    }
}

/// The return code of one value the path search gave.
fn status_of(x: &SliceItem) -> (r: &'static str)
    ensures
        r@ == slice_status(crate::outside::slice_view(*x)),
{
    proof {
        reveal_strlit("Removed1");
        reveal_strlit("Removed3");
    }
    match x {
        SliceItem::Slice(v) => {
            let j = Json::from_value(crate::bridge::clone_value(v));
            code_of(classify_found(&Some(j)))
        },
        SliceItem::NewValue(_) => "Removed3",
        SliceItem::NoValue => "Removed1",
    }
}

/// For each key and path: a return code (`Empty2`, `Replaced1`, `Removed1`,
/// ...) for each value the path search gives over `u`, with the key and the
/// path.
pub fn check_json_paths(u: Json, keys_and_paths: Vec<(String, String)>) -> (r: Vec<
    (&'static str, String, String),
>)
    requires
        json_wf(u@),
        paths_parse(u@, keys_and_paths@.map_values(|p: (String, String)| pair_view(p))),
    ensures
        r@.map_values(|t: (&'static str, String, String)| status_view(t)) == path_checks(
            u@,
            keys_and_paths@.map_values(|p: (String, String)| pair_view(p)),
        ),
{
    let ghost kps = keys_and_paths@.map_values(|p: (String, String)| pair_view(p));
    let value = u.to_value();
    let mut results: Vec<(&'static str, String, String)> = Vec::new();
    let mut i: usize = 0;
    while i < keys_and_paths.len()
        invariant
            0 <= i <= keys_and_paths.len(),
            kps == keys_and_paths@.map_values(|p: (String, String)| pair_view(p)),
            crate::bridge::value_view(value) == u@,
            paths_parse(u@, kps),
            results@.map_values(|t: (&'static str, String, String)| status_view(t))
                == path_checks(u@, kps.take(i as int)),
        decreases keys_and_paths.len() - i,
    {
        let key = &keys_and_paths[i].0;
        let path = &keys_and_paths[i].1;
        assert(kps[i as int] == (key@, path@));
        let found = find_slice(&value, path.as_str());
        let items = match found {
            Some(items) => items,
            None => {
                assert(json_path_slices(u@, kps[i as int].1) is Some);
                Vec::new()
            },
        };
        let ghost sv = items@.map_values(|x: SliceItem| crate::outside::slice_view(x));
        let ghost before = results@.map_values(
            |t: (&'static str, String, String)| status_view(t),
        );
        let mut k: usize = 0;
        while k < items.len()
            invariant
                0 <= k <= items.len(),
                sv == items@.map_values(|x: SliceItem| crate::outside::slice_view(x)),
                results@.map_values(|t: (&'static str, String, String)| status_view(t)) == before
                    + sv.take(k as int).map_values(|x: SliceV| (slice_status(x), key@, path@)),
            decreases items.len() - k,
        {
            let status = status_of(&items[k]);
            let ghost prev = results@.map_values(|t: (&'static str, String, String)| status_view(t));
            results.push((status, key.clone(), path.clone()));
            assert(sv[k as int] == crate::outside::slice_view(items@[k as int]));
            assert(results@.map_values(|t: (&'static str, String, String)| status_view(t)) =~= prev.push((status@, key@, path@)));
            assert(sv.take(k + 1) =~= sv.take(k as int).push(sv[k as int]));
            assert(sv.take(k + 1).map_values(|x: SliceV| (slice_status(x), key@, path@)) =~= sv.take(k as int).map_values(|x: SliceV| (slice_status(x), key@, path@)).push((slice_status(sv[k as int]), key@, path@)));
            k += 1;
            assert(results@.map_values(|t: (&'static str, String, String)| status_view(t))
                =~= before + sv.take(k as int).map_values(
                |x: SliceV| (slice_status(x), key@, path@),
            ));
        }
        assert(sv.take(items.len() as int) =~= sv);
        assert(kps.take(i + 1).drop_last() =~= kps.take(i as int));
        assert(kps.take(i + 1).last() == kps[i as int]);
        i += 1;
    }
    assert(kps.take(keys_and_paths.len() as int) =~= kps);
    results
}

/// `check_json_paths`, where every path can be searched and parses; `None`
/// where one cannot.
pub fn try_check_json_paths(u: Json, keys_and_paths: Vec<(String, String)>) -> (r: Option<
    Vec<(&'static str, String, String)>,
>)
    requires
        json_wf(u@),
    ensures
        match r {
            Some(results) => paths_parse(
                u@,
                keys_and_paths@.map_values(|p: (String, String)| pair_view(p)),
            ) && results@.map_values(|t: (&'static str, String, String)| status_view(t))
                == path_checks(
                u@,
                keys_and_paths@.map_values(|p: (String, String)| pair_view(p)),
            ),
            None => !paths_parse(
                u@,
                keys_and_paths@.map_values(|p: (String, String)| pair_view(p)),
            ),
        },
{
    let ghost kps = keys_and_paths@.map_values(|p: (String, String)| pair_view(p));
    let value = u.to_value();
    let mut i: usize = 0;
    while i < keys_and_paths.len()
        invariant
            0 <= i <= keys_and_paths.len(),
            kps == keys_and_paths@.map_values(|p: (String, String)| pair_view(p)),
            crate::bridge::value_view(value) == u@,
            forall|k: int|
                0 <= k < i ==> index_safe((#[trigger] kps[k]).1) && json_path_slices(
                    u@,
                    kps[k].1,
                ) is Some,
        decreases keys_and_paths.len() - i,
    {
        assert(kps[i as int].1 == keys_and_paths@[i as int].1@);
        if !is_index_safe(keys_and_paths[i].1.as_str()) {
            return None;
        }
        if find_slice(&value, keys_and_paths[i].1.as_str()).is_none() {
            return None;
        }
        i += 1;
    }
    Some(check_json_paths(u, keys_and_paths))
}

/// How many of the results have the status `status`.
pub open spec fn status_count(results: Seq<(Seq<char>, Seq<char>, Seq<char>)>, status: Seq<char>) -> nat
    decreases results.len(),
{
    if results.len() == 0 {
        0
    } else {
        status_count(results.drop_last(), status) + if results.last().0 == status {
            1nat
        } else {
            0nat
        }
    }
}

/// How many of the results have the status `status`.
pub fn count_status(results: &Vec<(&'static str, String, String)>, status: &str) -> (r: usize)
    ensures
        r == status_count(
            results@.map_values(|t: (&'static str, String, String)| status_view(t)),
            status@,
        ),
{
    let ghost rv = results@.map_values(|t: (&'static str, String, String)| status_view(t));
    let wanted = String::from_str(status);
    let mut count: usize = 0;
    let mut i: usize = 0;
    while i < results.len()
        invariant
            0 <= i <= results.len(),
            rv == results@.map_values(|t: (&'static str, String, String)| status_view(t)),
            wanted@ == status@,
            count == status_count(rv.take(i as int), status@),
            count <= i,
        decreases results.len() - i,
    {
        assert(rv.take(i + 1).drop_last() =~= rv.take(i as int));
        if String::from_str(results[i].0) == wanted {
            count += 1;
        }
        i += 1;
    }
    assert(rv.take(results.len() as int) =~= rv);
    count
}

} // verus!

verus! {

/// A key under which a redaction gives its path.
pub open spec fn is_redaction_key(k: Seq<char>) -> bool {
    k == "prePath"@ || k == "postPath"@
}

/// Whether every value under a redaction key is a string.
pub open spec fn redaction_values_are_text(es: Seq<(Seq<char>, JsonV, Seq<char>)>) -> bool {
    forall|i: int| 0 <= i < es.len() && is_redaction_key((#[trigger] es[i]).0) ==> es[i].1 is String
}

/// The paths given under redaction keys, each path kept once (its first time),
/// with the key it came under.
pub open spec fn redaction_path_pairs(es: Seq<(Seq<char>, JsonV, Seq<char>)>) -> Seq<
    (Seq<char>, Seq<char>),
>
    decreases es.len(),
{
    if es.len() == 0 {
        Seq::empty()
    } else {
        let prev = redaction_path_pairs(es.drop_last());
        let e = es.last();
        if is_redaction_key(e.0) && !prev.map_values(|p: (Seq<char>, Seq<char>)| p.1).contains(
            e.1->String_0,
        ) {
            prev.push((e.0, e.1->String_0))
        } else {
            prev
        }
    }
}

/// Whether `key` is `prePath` or `postPath`.
fn redaction_key(key: &String) -> (r: bool)
    ensures
        r == is_redaction_key(key@),
{
    *key == String::from_str("prePath") || *key == String::from_str("postPath")
}

/// Whether every value under a redaction key is a string.
pub fn redaction_values_text(entries: &Vec<(String, Json, String)>) -> (r: bool)
    ensures
        r == redaction_values_are_text(entries_view(entries@)),
{
    let ghost ev = entries_view(entries@);
    let mut i: usize = 0;
    while i < entries.len()
        invariant
            0 <= i <= entries.len(),
            ev == entries_view(entries@),
            forall|k: int| 0 <= k < i && is_redaction_key((#[trigger] ev[k]).0) ==> ev[k].1 is String,
        decreases entries.len() - i,
    {
        proof {
            lemma_view_items(entries@[i as int].1);
        }
        assert(ev[i as int] == entry_view(entries@[i as int]));
        if redaction_key(&entries[i].0) {
            match &entries[i].1 {
                Json::String(_) => {},
                _ => {
                    return false;
                },
            }
        }
        i += 1;
    }
    true
}

/// Whether `text` is one of the second members of `pairs`.
fn holds_path(pairs: &Vec<(String, String)>, text: &String) -> (r: bool)
    ensures
        r == pairs@.map_values(|p: (String, String)| pair_view(p)).map_values(
            |p: (Seq<char>, Seq<char>)| p.1,
        ).contains(text@),
{
    let ghost vs = pairs@.map_values(|p: (String, String)| pair_view(p)).map_values(
        |p: (Seq<char>, Seq<char>)| p.1,
    );
    let mut i: usize = 0;
    while i < pairs.len()
        invariant
            0 <= i <= pairs.len(),
            vs == pairs@.map_values(|p: (String, String)| pair_view(p)).map_values(
                |p: (Seq<char>, Seq<char>)| p.1,
            ),
            forall|k: int| 0 <= k < i ==> vs[k] != text@,
        decreases pairs.len() - i,
    {
        assert(vs[i as int] == pairs@[i as int].1@);
        if pairs[i].1 == *text {
            return true;
        }
        i += 1;
    }
    false
}

/// The paths given under `prePath` and `postPath`, each kept once (its first
/// time), with the key it came under.
pub fn unique_redaction_paths(entries: &Vec<(String, Json, String)>) -> (r: Vec<(String, String)>)
    requires
        redaction_values_are_text(entries_view(entries@)),
    ensures
        r@.map_values(|p: (String, String)| pair_view(p)) == redaction_path_pairs(
            entries_view(entries@),
        ),
{
    let ghost ev = entries_view(entries@);
    let mut out: Vec<(String, String)> = Vec::new();
    let mut i: usize = 0;
    while i < entries.len()
        invariant
            0 <= i <= entries.len(),
            ev == entries_view(entries@),
            redaction_values_are_text(ev),
            out@.map_values(|p: (String, String)| pair_view(p)) == redaction_path_pairs(
                ev.take(i as int),
            ),
        decreases entries.len() - i,
    {
        assert(ev.take(i + 1).drop_last() =~= ev.take(i as int));
        assert(ev.take(i + 1).last() == ev[i as int]);
        assert(ev[i as int] == entry_view(entries@[i as int]));
        proof {
            lemma_view_items(entries@[i as int].1);
        }
        if redaction_key(&entries[i].0) {
            match &entries[i].1 {
                Json::String(text) => {
                    if !holds_path(&out, text) {
                        let ghost before = out@.map_values(|p: (String, String)| pair_view(p));
                        out.push((entries[i].0.clone(), text.clone()));
                        assert(out@.map_values(|p: (String, String)| pair_view(p)) =~= before.push(
                            (entries@[i as int].0@, text@),
                        ));
                    }
                },
                _ => {},
            }
        }
        i += 1;
    }
    assert(ev.take(entries.len() as int) =~= ev);
    out
}

} // verus!

verus! {

/// For the JSON text of an RDAP response: the return codes of what each path
/// its redactions give under `prePath` and `postPath` (each path once) finds
/// in it. `None` where the text is not JSON, a `prePath` or `postPath` is not
/// a string, or a path cannot be searched or does not parse.
pub open spec fn redaction_paths_checked(contents: Seq<char>) -> Option<
    Seq<(Seq<char>, Seq<char>, Seq<char>)>,
> {
    match json_text_parsed(contents) {
        None => None,
        Some(doc) => {
            let es = kp_paths(doc, Seq::empty());
            if !redaction_values_are_text(es) {
                None
            } else {
                let kps = redaction_path_pairs(es);
                if paths_parse(doc, kps) {
                    Some(path_checks(doc, kps))
                } else {
                    None
                }
            }
        },
    }
}

/// Reads an RDAP response from JSON text and checks each path that its
/// redactions give under `prePath` and `postPath`, each path once, against
/// the response: the return code of each value found, with its key and path.
pub fn check_redaction_paths_text(contents: &str) -> (r: Option<
    Vec<(&'static str, String, String)>,
>)
    ensures
        match r {
            Some(results) => redaction_paths_checked(contents@) == Some(
                results@.map_values(|t: (&'static str, String, String)| status_view(t)),
            ),
            None => redaction_paths_checked(contents@) is None,
        },
{
    match parse_json_text(contents) {
        None => None,
        Some(value) => {
            let u = Json::from_value(value);
            let root = String::new();
            assert(root@ =~= Seq::<char>::empty());
            let paths = get_kp_json_paths_for_object(&u, root);
            if !redaction_values_text(&paths) {
                return None;
            }
            let keys_and_paths = unique_redaction_paths(&paths);
            try_check_json_paths(u, keys_and_paths)
        },
    }
}

} // verus!
