use vstd::prelude::*;
use crate::bridge::{value_pointer, value_view};
use crate::json::{Json, JsonV, json_wf, object_get};
use crate::text::replace_all;

verus! {

/// The pieces of `s` between the separators `sep`, as `str::split` gives them.
pub open spec fn split_char(s: Seq<char>, sep: char) -> Seq<Seq<char>>
    decreases s.len(),
{
    if s.len() == 0 {
        seq![Seq::empty()]
    } else {
        let rest = split_char(s.drop_first(), sep);
        if s[0] == sep {
            seq![Seq::empty()] + rest
        } else {
            rest.update(0, seq![s[0]] + rest[0])
        }
    }
}

/// A pointer token with its escapes undone: `~1` is `/`, then `~0` is `~`.
pub open spec fn unescape_token(t: Seq<char>) -> Seq<char> {
    replace_all(replace_all(t, seq!['~', '1'], seq!['/']), seq!['~', '0'], seq!['~'])
}

pub open spec fn is_digit(c: char) -> bool {
    '0' <= c <= '9'
}

/// The number written in decimal by the digits `t`.
pub open spec fn decimal_value(t: Seq<char>) -> nat
    decreases t.len(),
{
    if t.len() == 0 {
        0
    } else {
        decimal_value(t.drop_last()) * 10 + ((t.last() as nat) - ('0' as nat)) as nat
    }
}

/// The array index a pointer token names: digits without a sign or a
/// leading zero, small enough for `usize`.
pub open spec fn array_index(t: Seq<char>) -> Option<nat> {
    if t.len() > 0 && t[0] == '+' {
        None
    } else if t.len() > 1 && t[0] == '0' {
        None
    } else if t.len() > 0 && (forall|i: int| 0 <= i < t.len() ==> is_digit(#[trigger] t[i]))
        && decimal_value(t) <= usize::MAX {
        Some(decimal_value(t))
    } else {
        None
    }
}

/// One step of a pointer: an object's member or an array's item.
pub open spec fn pointer_step(target: JsonV, token: Seq<char>) -> Option<JsonV> {
    match target {
        JsonV::Object(entries) => object_get(entries, token),
        JsonV::Array(items) => match array_index(token) {
            Some(i) => if i < items.len() {
                Some(items[i as int])
            } else {
                None
            },
            None => None,
        },
        _ => None,
    }
}

/// The value reached from `target` by the tokens in turn.
pub open spec fn pointer_walk(target: JsonV, tokens: Seq<Seq<char>>) -> Option<JsonV>
    decreases tokens.len(),
{
    if tokens.len() == 0 {
        Some(target)
    } else {
        match pointer_step(target, tokens[0]) {
            Some(next) => pointer_walk(next, tokens.drop_first()),
            None => None,
        }
    }
}

/// The value that the JSON pointer `ptr` names in `doc`, as
/// `serde_json::Value::pointer` finds it.
pub open spec fn json_pointer_get(doc: JsonV, ptr: Seq<char>) -> Option<JsonV> {
    if ptr.len() == 0 {
        Some(doc)
    } else if ptr[0] != '/' {
        None
    } else {
        pointer_walk(
            doc,
            split_char(ptr, '/').drop_first().map_values(|t: Seq<char>| unescape_token(t)),
        )
    }
}

/// A copy of the value that the JSON pointer `ptr` names in `doc`.
pub fn pointer_lookup(doc: &Json, ptr: &str) -> (r: Option<Json>)
    requires
        json_wf(doc@),
    ensures
        match r {
            Some(v) => json_pointer_get(doc@, ptr@) == Some(v@) && json_wf(v@),
            None => json_pointer_get(doc@, ptr@) is None,
        },
{
    let value = doc.to_value();
    match value_pointer(&value, ptr) {
        Some(found) => Some(Json::from_value(found)),
        None => None,
    }
}

} // verus!
