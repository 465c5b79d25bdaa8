use vstd::prelude::*;

verus! {

#[verifier::external_type_specification]
#[verifier::external_body]
pub struct ExNumber(serde_json::Number);

/// A JSON document held as plain values.
#[derive(Debug)]
pub enum Json {
    Null,
    Bool(bool),
    Number(serde_json::Number),
    String(String),
    Array(Vec<Json>),
    Object(Vec<(String, Json)>),
}

/// The mathematical model of a JSON document.
pub enum JsonV {
    Null,
    Bool(bool),
    Number(serde_json::Number),
    String(Seq<char>),
    Array(Seq<JsonV>),
    Object(Seq<(Seq<char>, JsonV)>),
}

impl View for Json {
    type V = JsonV;

    open spec fn view(&self) -> JsonV
        decreases self,
    {
        match self {
            Json::Null => JsonV::Null,
            Json::Bool(b) => JsonV::Bool(*b),
            Json::Number(n) => JsonV::Number(*n),
            Json::String(s) => JsonV::String(s@),
            Json::Array(items) => JsonV::Array(
                Seq::new(
                    items.len() as nat,
                    |i: int|
                        if 0 <= i < items.len() {
                            proof {
                                broadcast use vstd::std_specs::vec::axiom_vec_decreases_to_view, vstd::seq::axiom_seq_index_decreases;
                                assert(decreases_to!(*items => items@[i]));
                            }
                            items@[i].view()
                        } else {
                            JsonV::Null
                        },
                ),
            ),
            Json::Object(entries) => JsonV::Object(
                Seq::new(entries.len() as nat, |i: int| entries@[i].0@).zip_with(
                Seq::new(
                    entries.len() as nat,
                    |i: int|
                        if 0 <= i < entries.len() {
                            proof {
                                broadcast use vstd::std_specs::vec::axiom_vec_decreases_to_view, vstd::seq::axiom_seq_index_decreases;
                                assert(decreases_to!(*entries => entries@[i].1));
                            }
                            entries@[i].1.view()
                        } else {
                            JsonV::Null
                        },
                )),
            ),
        }
    }
}

} // verus!

verus! {

/// Object keys are pairwise distinct (a JSON object maps each key once).
pub open spec fn keys_distinct(entries: Seq<(Seq<char>, JsonV)>) -> bool {
    forall|i: int, j: int| 0 <= i < j < entries.len() ==> entries[i].0 != entries[j].0
}

/// Every object inside the document has distinct keys.
pub open spec fn json_wf(j: JsonV) -> bool
    decreases j,
{
    match j {
        JsonV::Array(items) => forall|i: int|
            #![trigger items[i]]
            0 <= i < items.len() ==> {
                proof {
                    broadcast use vstd::seq::axiom_seq_index_decreases;
                }
                json_wf(items[i])
            },
        JsonV::Object(entries) => keys_distinct(entries) && forall|i: int|
            #![trigger entries[i]]
            0 <= i < entries.len() ==> {
                proof {
                    broadcast use vstd::seq::axiom_seq_index_decreases;
                    assert(decreases_to!(entries => entries[i].1));
                }
                json_wf(entries[i].1)
            },
        _ => true,
    }
}

/// The value stored under `key` in an object's entries.
pub open spec fn object_get(entries: Seq<(Seq<char>, JsonV)>, key: Seq<char>) -> Option<JsonV>
    decreases entries.len(),
{
    if entries.len() == 0 {
        None
    } else if entries[0].0 == key {
        Some(entries[0].1)
    } else {
        object_get(entries.drop_first(), key)
    }
}

/// The value under `key` when `j` is an object (what `Value::get` gives).
pub open spec fn json_get(j: JsonV, key: Seq<char>) -> Option<JsonV> {
    match j {
        JsonV::Object(entries) => object_get(entries, key),
        _ => None,
    }
}

} // verus!

verus! {

impl Clone for Json {
    /// A copy with the same model.
    fn clone(&self) -> (r: Json)
        ensures
            r@ == self@,
    {
        self.deep_copy()
    }
}

impl Json {
    /// The value under `key` when `self` is an object, as `Value::get` does.
    pub fn get(&self, key: &String) -> (r: Option<&Json>)
        ensures
            match r {
                Some(v) => json_get(self@, key@) == Some(v@),
                None => json_get(self@, key@) is None,
            },
    {
        match self {
            Json::Object(entries) => {
                let ghost ev = self@->Object_0;
                assert(ev.skip(0) =~= ev);
                let mut i: usize = 0;
                while i < entries.len()
                    invariant
                        0 <= i <= entries.len(),
                        ev.len() == entries.len(),
                        forall|k: int|
                            0 <= k < entries.len() ==> #[trigger] ev[k] == (
                                entries@[k].0@,
                                entries@[k].1@,
                            ),
                        self@ == JsonV::Object(ev),
                        object_get(ev, key@) == object_get(ev.skip(i as int), key@),
                    decreases entries.len() - i,
                {
                    assert(ev.skip(i as int)[0] == ev[i as int]);
                    if entries[i].0 == *key {
                        return Some(&entries[i].1);
                    }
                    assert(ev.skip(i as int).drop_first() =~= ev.skip(i + 1));
                    i += 1;
                }
                None
            },
            _ => None,
        }
    }

    /// A copy of the document with the same model.
    #[verifier::loop_isolation(false)]
    pub fn deep_copy(&self) -> (r: Json)
        ensures
            r@ == self@,
        decreases self,
    {
        match self {
            Json::Null => Json::Null,
            Json::Bool(b) => Json::Bool(*b),
            Json::Number(n) => Json::Number(n.clone()),
            Json::String(s) => Json::String(s.clone()),
            Json::Array(items) => {
                let mut out: Vec<Json> = Vec::new();
                let mut i: usize = 0;
                while i < items.len()
                    invariant
                        0 <= i <= items.len(),
                        out.len() == i,
                        forall|k: int| 0 <= k < i ==> #[trigger] out@[k]@ == items@[k]@,
                    decreases items.len() - i,
                {
                    proof {
                        broadcast use vstd::std_specs::vec::axiom_vec_index_decreases;
                        assert(decreases_to!(*self => items@[i as int]));
                    }
                    let c = items[i].deep_copy();
                    out.push(c);
                    i += 1;
                }
                let r = Json::Array(out);
                assert(r@ == self@) by {
                    if let JsonV::Array(a) = r@ {
                        if let JsonV::Array(b) = self@ {
                            assert forall|k: int| 0 <= k < a.len() implies a[k] == b[k] by {
                                assert(out@[k]@ == items@[k]@);
                            }
                            assert(a =~= b);
                        }
                    }
                }
                r
            },
            Json::Object(entries) => {
                let mut out: Vec<(String, Json)> = Vec::new();
                let mut i: usize = 0;
                while i < entries.len()
                    invariant
                        0 <= i <= entries.len(),
                        out.len() == i,
                        forall|k: int|
                            #![trigger out@[k]]
                            0 <= k < i ==> out@[k].0 == entries@[k].0 && out@[k].1@
                                == entries@[k].1@,
                    decreases entries.len() - i,
                {
                    proof {
                        broadcast use vstd::std_specs::vec::axiom_vec_index_decreases;
                        assert(decreases_to!(*self => entries@[i as int].1));
                    }
                    let c = entries[i].1.deep_copy();
                    out.push((entries[i].0.clone(), c));
                    i += 1;
                }
                let r = Json::Object(out);
                assert(r@ == self@) by {
                    if let JsonV::Object(a) = r@ {
                        if let JsonV::Object(b) = self@ {
                            assert forall|k: int| 0 <= k < a.len() implies a[k] == b[k] by {
                                assert(out@[k].0 == entries@[k].0);
                            }
                            assert(a =~= b);
                        }
                    }
                }
                r
            },
        }
    }
}

} // verus!

verus! {

/// How the model of an array or object is made from its items.
pub proof fn lemma_view_items(j: Json)
    ensures
        j@ is Array <==> j is Array,
        j@ is Object <==> j is Object,
        j@ is String <==> j is String,
        j@ is Null <==> j is Null,
        j is Array ==> {
            &&& j@ is Array
            &&& j@->Array_0.len() == j->Array_0.len()
            &&& forall|k: int|
                0 <= k < j->Array_0.len() ==> #[trigger] j@->Array_0[k] == j->Array_0@[k]@
        },
        j is Object ==> {
            &&& j@ is Object
            &&& j@->Object_0.len() == j->Object_0.len()
            &&& forall|k: int|
                0 <= k < j->Object_0.len() ==> #[trigger] j@->Object_0[k] == (
                    j->Object_0@[k].0@,
                    j->Object_0@[k].1@,
                )
        },
{
    if let Json::Object(es) = j {
        assert(j@ is Object);
        assert(j@->Object_0.len() == es.len());
        assert forall|k: int| 0 <= k < es.len() implies #[trigger] j@->Object_0[k] == (es@[k].0@, es@[k].1@) by {
            assert(j@->Object_0[k].0 == es@[k].0@);
            assert(j@->Object_0[k].1 == es@[k].1@);
        }
    }
}

} // verus!
