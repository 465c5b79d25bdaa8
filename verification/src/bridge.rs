use vstd::prelude::*;
use crate::json::{Json, JsonV, json_wf, keys_distinct, lemma_view_items};

verus! {

#[verifier::external_type_specification]
#[verifier::external_body]
pub struct ExValue(serde_json::Value);

/// What a `serde_json::Value` holds, as a document model. Objects keep the
/// order of their entries: the crate is built with `preserve_order`.
pub uninterp spec fn value_view(v: serde_json::Value) -> JsonV;

/// The parts of a `serde_json::Value`, one variant for each of its variants.
pub enum ValueParts {
    Null,
    Bool(bool),
    Number(serde_json::Number),
    String(String),
    Array(Vec<serde_json::Value>),
    Object(Vec<(String, serde_json::Value)>),
}

/// `Clone` of `serde_json::Number`: a derived clone, so the copy is the same number.
pub assume_specification[ <serde_json::Number as core::clone::Clone>::clone ](
    n: &serde_json::Number,
) -> (r: serde_json::Number)
    ensures
        r == *n,
;

/// `serde_json::Value::Null`.
#[verifier::external_body]
pub(crate) fn value_null() -> (r: serde_json::Value)
    ensures
        value_view(r) == JsonV::Null,
{
    serde_json::Value::Null
}

/// `serde_json::Value::Bool`.
#[verifier::external_body]
pub(crate) fn value_bool(b: bool) -> (r: serde_json::Value)
    ensures
        value_view(r) == JsonV::Bool(b),
{
    serde_json::Value::Bool(b)
}

/// `serde_json::Value::Number`.
#[verifier::external_body]
pub(crate) fn value_number(n: serde_json::Number) -> (r: serde_json::Value)
    ensures
        value_view(r) == JsonV::Number(n),
{
    serde_json::Value::Number(n)
}

/// `serde_json::Value::String`.
#[verifier::external_body]
pub(crate) fn value_string(s: String) -> (r: serde_json::Value)
    ensures
        value_view(r) == JsonV::String(s@),
{
    serde_json::Value::String(s)
}

/// `serde_json::Value::Array`.
#[verifier::external_body]
pub(crate) fn value_array(items: Vec<serde_json::Value>) -> (r: serde_json::Value)
    ensures
        value_view(r) == JsonV::Array(items@.map_values(|x: serde_json::Value| value_view(x))),
{
    serde_json::Value::Array(items)
}

/// `serde_json::Value::Object` of the map collected from `entries`; with
/// distinct keys the map holds each entry once, in the given order.
#[verifier::external_body]
pub(crate) fn value_object(entries: Vec<(String, serde_json::Value)>) -> (r: serde_json::Value)
    requires
        forall|i: int, j: int|
            0 <= i < j < entries.len() ==> entries@[i].0@ != entries@[j].0@,
    ensures
        value_view(r) == JsonV::Object(
            entries@.map_values(|e: (String, serde_json::Value)| (e.0@, value_view(e.1))),
        ),
{
    serde_json::Value::Object(entries.into_iter().collect())
}

/// Splits a `serde_json::Value` into its variant and fields; an object's map
/// is handed out as its entries in order, whose keys a map holds once each.
#[verifier::external_body]
pub(crate) fn value_parts(v: serde_json::Value) -> (r: ValueParts)
    ensures
        match r {
            ValueParts::Null => value_view(v) == JsonV::Null,
            ValueParts::Bool(b) => value_view(v) == JsonV::Bool(b),
            ValueParts::Number(n) => value_view(v) == JsonV::Number(n),
            ValueParts::String(s) => value_view(v) == JsonV::String(s@),
            ValueParts::Array(items) => value_view(v) == JsonV::Array(
                items@.map_values(|x: serde_json::Value| value_view(x)),
            ),
            ValueParts::Object(entries) => {
                &&& value_view(v) == JsonV::Object(
                    entries@.map_values(|e: (String, serde_json::Value)| (e.0@, value_view(e.1))),
                )
                &&& forall|i: int, j: int|
                    0 <= i < j < entries.len() ==> entries@[i].0@ != entries@[j].0@
            },
        },
{
    match v {
        serde_json::Value::Null => ValueParts::Null,
        serde_json::Value::Bool(b) => ValueParts::Bool(b),
        serde_json::Value::Number(n) => ValueParts::Number(n),
        serde_json::Value::String(s) => ValueParts::String(s),
        serde_json::Value::Array(items) => ValueParts::Array(items),
        serde_json::Value::Object(map) => ValueParts::Object(map.into_iter().collect()),
    }
}

} // verus!

verus! {

impl Json {
    /// The `serde_json::Value` holding the same document.
    #[verifier::loop_isolation(false)]
    pub fn to_value(&self) -> (r: serde_json::Value)
        requires
            json_wf(self@),
        ensures
            value_view(r) == self@,
        decreases self,
    {
        proof {
            lemma_view_items(*self);
        }
        match self {
            Json::Null => value_null(),
            Json::Bool(b) => value_bool(*b),
            Json::Number(n) => value_number(n.clone()),
            Json::String(s) => value_string(s.clone()),
            Json::Array(items) => {
                let mut out: Vec<serde_json::Value> = Vec::new();
                let mut i: usize = 0;
                while i < items.len()
                    invariant
                        0 <= i <= items.len(),
                        out.len() == i,
                        self@ is Array,
                        self@->Array_0.len() == items.len(),
                        forall|k: int|
                            0 <= k < items.len() ==> #[trigger] self@->Array_0[k] == items@[k]@,
                        json_wf(self@),
                        forall|k: int| 0 <= k < i ==> #[trigger] value_view(out@[k]) == items@[k]@,
                    decreases items.len() - i,
                {
                    proof {
                        broadcast use vstd::std_specs::vec::axiom_vec_index_decreases;

                        assert(decreases_to!(*self => items@[i as int]));
                        assert(json_wf(self@->Array_0[i as int]));
                    }
                    let v = items[i].to_value();
                    out.push(v);
                    i += 1;
                }
                let ghost vs = out@;
                let r = value_array(out);
                assert(vs.map_values(|x: serde_json::Value| value_view(x)) =~= self@->Array_0);
                r
            },
            Json::Object(entries) => {
                let mut out: Vec<(String, serde_json::Value)> = Vec::new();
                let mut i: usize = 0;
                while i < entries.len()
                    invariant
                        0 <= i <= entries.len(),
                        out.len() == i,
                        self@ is Object,
                        self@->Object_0.len() == entries.len(),
                        forall|k: int|
                            0 <= k < entries.len() ==> #[trigger] self@->Object_0[k] == (
                                entries@[k].0@,
                                entries@[k].1@,
                            ),
                        json_wf(self@),
                        forall|k: int|
                            #![trigger out@[k]]
                            0 <= k < i ==> out@[k].0@ == entries@[k].0@ && value_view(out@[k].1)
                                == entries@[k].1@,
                    decreases entries.len() - i,
                {
                    proof {
                        broadcast use vstd::std_specs::vec::axiom_vec_index_decreases;

                        assert(decreases_to!(*self => entries@[i as int].1));
                        assert(self@->Object_0[i as int].1 == entries@[i as int].1@);
                        assert(json_wf(self@->Object_0[i as int].1));
                    }
                    let v = entries[i].1.to_value();
                    out.push((entries[i].0.clone(), v));
                    i += 1;
                }
                let ghost es = out@;
                proof {
                    assert forall|a: int, b: int| 0 <= a < b < out.len() implies out@[a].0@
                        != out@[b].0@ by {
                        assert(self@->Object_0[a].0 == out@[a].0@);
                        assert(self@->Object_0[b].0 == out@[b].0@);
                    }
                }
                let r = value_object(out);
                assert(es.map_values(
                    |e: (String, serde_json::Value)| (e.0@, value_view(e.1)),
                ) =~= self@->Object_0);
                r
            },
        }
    }
}

} // verus!

verus! {

impl Json {
    /// The document that a `serde_json::Value` holds.
    pub fn from_value(v: serde_json::Value) -> (r: Json)
        ensures
            r@ == value_view(v),
            json_wf(r@),
        decreases value_view(v),
    {
        let ghost m = value_view(v);
        match value_parts(v) {
            ValueParts::Null => Json::Null,
            ValueParts::Bool(b) => Json::Bool(b),
            ValueParts::Number(n) => Json::Number(n),
            ValueParts::String(s) => Json::String(s),
            ValueParts::Array(items) => {
                let ghost orig = items@;
                let ghost n = orig.len();
                let ghost sv = orig.map_values(|x: serde_json::Value| value_view(x));
                let mut rest = items;
                let mut rev: Vec<Json> = Vec::new();
                while rest.len() > 0
                    invariant
                        m == JsonV::Array(sv),
                        m == value_view(v),
                        sv.len() == n,
                        orig.len() == n,
                        forall|k: int| 0 <= k < n ==> #[trigger] sv[k] == value_view(orig[k]),
                        rest@ == orig.take(rest.len() as int),
                        rest.len() + rev.len() == n,
                        forall|k: int|
                            0 <= k < rev.len() ==> #[trigger] rev@[k]@ == sv[n - 1 - k]
                                && json_wf(rev@[k]@),
                    decreases rest.len(),
                {
                    let ghost j = rest.len() - 1;
                    assert(rest@[j] == orig[j]);
                    let x = rest.pop().unwrap();
                    proof {
                        assert(x == orig[j]);
                        broadcast use vstd::seq::axiom_seq_index_decreases;

                        assert(m->Array_0 == sv);
                        assert(decreases_to!(m => m->Array_0));
                        assert(decreases_to!(m => sv[j]));
                        assert(value_view(x) == sv[j]);
                        assert(rest@ =~= orig.take(rest.len() as int));
                    }
                    let jx = Json::from_value(x);
                    rev.push(jx);
                }
                let mut out: Vec<Json> = Vec::new();
                while rev.len() > 0
                    invariant
                        rev.len() + out.len() == n,
                        forall|k: int|
                            0 <= k < rev.len() ==> #[trigger] rev@[k]@ == sv[n - 1 - k]
                                && json_wf(rev@[k]@),
                        forall|k: int|
                            0 <= k < out.len() ==> #[trigger] out@[k]@ == sv[k] && json_wf(
                                out@[k]@,
                            ),
                    decreases rev.len(),
                {
                    let y = rev.pop().unwrap();
                    out.push(y);
                }
                let r = Json::Array(out);
                proof {
                    lemma_view_items(r);
                    assert(r@->Array_0 =~= sv);
                }
                r
            },
            ValueParts::Object(entries) => {
                let ghost orig = entries@;
                let ghost n = orig.len();
                let ghost sv = orig.map_values(
                    |e: (String, serde_json::Value)| (e.0@, value_view(e.1)),
                );
                let mut rest = entries;
                let mut rev: Vec<(String, Json)> = Vec::new();
                while rest.len() > 0
                    invariant
                        m == JsonV::Object(sv),
                        m == value_view(v),
                        sv.len() == n,
                        orig.len() == n,
                        forall|k: int|
                            0 <= k < n ==> #[trigger] sv[k] == (orig[k].0@, value_view(orig[k].1)),
                        keys_distinct(sv),
                        rest@ == orig.take(rest.len() as int),
                        rest.len() + rev.len() == n,
                        forall|k: int|
                            #![trigger rev@[k]]
                            0 <= k < rev.len() ==> (rev@[k].0@, rev@[k].1@) == sv[n - 1 - k]
                                && json_wf(rev@[k].1@),
                    decreases rest.len(),
                {
                    let ghost j = rest.len() - 1;
                    assert(rest@[j] == orig[j]);
                    let (key, x) = rest.pop().unwrap();
                    proof {
                        assert((key, x) == orig[j]);
                        broadcast use vstd::seq::axiom_seq_index_decreases;

                        assert(m->Object_0 == sv);
                        assert(decreases_to!(m => m->Object_0));
                        assert(decreases_to!(m => sv[j]));
                        assert(decreases_to!(sv[j] => sv[j].1));
                        assert(value_view(x) == sv[j].1);
                        assert(rest@ =~= orig.take(rest.len() as int));
                    }
                    let jx = Json::from_value(x);
                    rev.push((key, jx));
                }
                let mut out: Vec<(String, Json)> = Vec::new();
                while rev.len() > 0
                    invariant
                        rev.len() + out.len() == n,
                        forall|k: int|
                            #![trigger rev@[k]]
                            0 <= k < rev.len() ==> (rev@[k].0@, rev@[k].1@) == sv[n - 1 - k]
                                && json_wf(rev@[k].1@),
                        forall|k: int|
                            #![trigger out@[k]]
                            0 <= k < out.len() ==> (out@[k].0@, out@[k].1@) == sv[k] && json_wf(
                                out@[k].1@,
                            ),
                    decreases rev.len(),
                {
                    let y = rev.pop().unwrap();
                    out.push(y);
                }
                let r = Json::Object(out);
                proof {
                    lemma_view_items(r);
                    assert forall|k: int| 0 <= k < n implies #[trigger] r@->Object_0[k] == sv[k] by {
                        assert((out@[k].0@, out@[k].1@) == sv[k]);
                    }
                    assert(r@->Object_0 =~= sv);
                }
                r
            },
        }
    }
}

} // verus!

verus! {

/// `serde_json::Value::pointer`, the value found copied out (`Option::cloned`):
/// the value the pointer names, as `json_pointer_get` walks it.
#[verifier::external_body]
pub(crate) fn value_pointer(doc: &serde_json::Value, ptr: &str) -> (r: Option<serde_json::Value>)
    ensures
        match r {
            Some(v) => crate::pointer::json_pointer_get(value_view(*doc), ptr@) == Some(
                value_view(v),
            ),
            None => crate::pointer::json_pointer_get(value_view(*doc), ptr@) is None,
        },
{
    doc.pointer(ptr).cloned()
}

} // verus!

verus! {

/// `Clone` of `serde_json::Value`: a derived clone, so the copy holds the same document.
#[verifier::external_body]
pub(crate) fn clone_value(v: &serde_json::Value) -> (r: serde_json::Value)
    ensures
        value_view(r) == value_view(*v),
{
    v.clone()
}

} // verus!
