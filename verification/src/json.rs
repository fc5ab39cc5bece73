//! The document value model: the canonical JSON value that the builders emit.
//!
//! An object is an ordered list of key/value pairs: field order is part of
//! the canonical form, so the model keeps it.

use vstd::prelude::*;
use crate::types::number::Number;

verus! {

broadcast use vstd::seq::group_seq_axioms, vstd::std_specs::vec::group_vec_axioms;

/// The mathematical model of a document value.
#[verifier::ext_equal]
pub enum JsonV {
    Bool(bool),
    Num(Number),
    Str(Seq<char>),
    Arr(Seq<JsonV>),
    Obj(Seq<(Seq<char>, JsonV)>),
}

/// A document value: the canonical JSON value a query serializes to.
#[derive(Debug)]
pub enum JsonValue {
    Bool(bool),
    Num(Number),
    Str(String),
    Arr(Vec<JsonValue>),
    Obj(Vec<(String, JsonValue)>),
}

/// The model of a document value.
pub open spec fn view_of(v: JsonValue) -> JsonV
    decreases v,
{
    match v {
        JsonValue::Bool(b) => JsonV::Bool(b),
        JsonValue::Num(n) => JsonV::Num(n),
        JsonValue::Str(s) => JsonV::Str(s@),
        JsonValue::Arr(items) => JsonV::Arr(views_of(items@)),
        JsonValue::Obj(fields) => JsonV::Obj(entries_of(fields@)),
    }
}

/// The models of an array's items, in order.
pub open spec fn views_of(s: Seq<JsonValue>) -> Seq<JsonV>
    decreases s,
{
    if s.len() == 0 {
        Seq::empty()
    } else {
        seq![view_of(s[0])] + views_of(s.drop_first())
    }
}

/// The models of an object's entries, in order.
pub open spec fn entries_of(s: Seq<(String, JsonValue)>) -> Seq<(Seq<char>, JsonV)>
    decreases s,
{
    if s.len() == 0 {
        Seq::empty()
    } else {
        seq![(s[0].0@, view_of(s[0].1))] + entries_of(s.drop_first())
    }
}

/// `views_of` maps the sequence pointwise.
pub proof fn lemma_views_of(s: Seq<JsonValue>)
    ensures
        views_of(s).len() == s.len(),
        forall|i: int| 0 <= i < s.len() ==> #[trigger] views_of(s)[i] == view_of(s[i]),
    decreases s,
{
    if s.len() > 0 {
        lemma_views_of(s.drop_first());
    }
}

/// `entries_of` maps the sequence pointwise.
pub proof fn lemma_entries_of(s: Seq<(String, JsonValue)>)
    ensures
        entries_of(s).len() == s.len(),
        forall|i: int|
            0 <= i < s.len() ==> #[trigger] entries_of(s)[i] == (s[i].0@, view_of(s[i].1)),
    decreases s,
{
    if s.len() > 0 {
        lemma_entries_of(s.drop_first());
    }
}

impl View for JsonValue {
    type V = JsonV;

    open spec fn view(&self) -> JsonV {
        view_of(*self)
    }
}

/// The models of an array grow at the right with the array.
pub proof fn lemma_views_of_snoc(s: Seq<JsonValue>, e: JsonValue)
    ensures
        views_of(s.push(e)) == views_of(s) + seq![view_of(e)],
    decreases s,
{
    if s.len() == 0 {
        assert(s.push(e).drop_first() =~= Seq::<JsonValue>::empty());
        assert(s.push(e)[0] == e);
        assert(views_of(Seq::<JsonValue>::empty()) =~= Seq::<JsonV>::empty());
        assert(views_of(s.push(e)) =~= views_of(s) + seq![view_of(e)]);
    } else {
        assert(s.push(e).drop_first() =~= s.drop_first().push(e));
        assert(s.push(e)[0] == s[0]);
        lemma_views_of_snoc(s.drop_first(), e);
        assert(views_of(s.push(e)) =~= views_of(s) + seq![view_of(e)]);
    }
}

/// The models of an object's entries grow at the right with the entries.
pub proof fn lemma_entries_of_snoc(s: Seq<(String, JsonValue)>, e: (String, JsonValue))
    ensures
        entries_of(s.push(e)) == entries_of(s) + seq![(e.0@, view_of(e.1))],
    decreases s,
{
    if s.len() == 0 {
        assert(s.push(e).drop_first() =~= Seq::<(String, JsonValue)>::empty());
        assert(s.push(e)[0] == e);
        assert(entries_of(Seq::<(String, JsonValue)>::empty()) =~= Seq::<
            (Seq<char>, JsonV),
        >::empty());
        assert(entries_of(s.push(e)) =~= entries_of(s) + seq![(e.0@, view_of(e.1))]);
    } else {
        assert(s.push(e).drop_first() =~= s.drop_first().push(e));
        assert(s.push(e)[0] == s[0]);
        lemma_entries_of_snoc(s.drop_first(), e);
        assert(entries_of(s.push(e)) =~= entries_of(s) + seq![(e.0@, view_of(e.1))]);
    }
}

/// Appends one entry to an object under construction, keeping the running
/// model in step.
pub fn push_entry(fields: &mut Vec<(String, JsonValue)>, key: &str, v: JsonValue)
    ensures
        entries_of(final(fields)@) == entries_of(old(fields)@) + seq![(key@, v@)],
{
    let ghost pre = fields@;
    let k = key.to_owned();
    fields.push((k, v));
    proof {
        assert(fields@ =~= pre.push(fields@[pre.len() as int]));
        lemma_entries_of_snoc(pre, fields@[pre.len() as int]);
        assert(entries_of(fields@) =~= entries_of(pre) + seq![(key@, v@)]);
    }
}

/// One object entry that is always present.
pub open spec fn req_entry(key: Seq<char>, v: JsonV) -> Seq<(Seq<char>, JsonV)> {
    seq![(key, v)]
}

/// The entries of an optional string field: present exactly when set.
pub open spec fn opt_str_entry(key: Seq<char>, v: Option<String>) -> Seq<(Seq<char>, JsonV)> {
    match v {
        Option::Some(s) => seq![(key, JsonV::Str(s@))],
        Option::None => seq![],
    }
}

/// The entries of an optional field whose set value renders as the given
/// wire string: present exactly when set.
pub open spec fn opt_wire_entry(key: Seq<char>, v: Option<Seq<char>>) -> Seq<(Seq<char>, JsonV)> {
    match v {
        Option::Some(w) => seq![(key, JsonV::Str(w))],
        Option::None => seq![],
    }
}

/// The entries of a defaulted value field: present exactly when `emit`
/// holds, that is when the value differs from its type's default.
pub open spec fn cond_entry(emit: bool, key: Seq<char>, v: JsonV) -> Seq<(Seq<char>, JsonV)> {
    if emit {
        seq![(key, v)]
    } else {
        seq![]
    }
}

/// Whether an object's entries hold the given key.
pub open spec fn has_key(fields: Seq<(Seq<char>, JsonV)>, key: Seq<char>) -> bool {
    exists|i: int| 0 <= i < fields.len() && #[trigger] fields[i].0 == key
}

/// A key occurs in a concatenation exactly when it occurs in one part.
pub proof fn lemma_has_key_concat(
    a: Seq<(Seq<char>, JsonV)>,
    b: Seq<(Seq<char>, JsonV)>,
    key: Seq<char>,
)
    ensures
        has_key(a + b, key) <==> has_key(a, key) || has_key(b, key),
{
    if has_key(a, key) {
        let i = choose|i: int| 0 <= i < a.len() && #[trigger] a[i].0 == key;
        assert((a + b)[i].0 == key);
    }
    if has_key(b, key) {
        let i = choose|i: int| 0 <= i < b.len() && #[trigger] b[i].0 == key;
        assert((a + b)[a.len() + i].0 == key);
    }
    if has_key(a + b, key) {
        let i = choose|i: int| 0 <= i < (a + b).len() && #[trigger] (a + b)[i].0 == key;
        if i < a.len() {
            assert(a[i].0 == key);
        } else {
            assert(b[i - a.len()].0 == key);
        }
    }
}

/// The omission rule itself: a defaulted value field's key is contributed
/// exactly when its value differs from the type's default, and nothing is
/// contributed otherwise.
pub proof fn lemma_cond_entry_omission(emit: bool, key: Seq<char>, v: JsonV)
    ensures
        has_key(cond_entry(emit, key, v), key) <==> emit,
        !emit ==> cond_entry(emit, key, v) == Seq::<(Seq<char>, JsonV)>::empty(),
{
    if emit {
        assert(cond_entry(emit, key, v)[0].0 == key);
    }
}

/// The value under the first occurrence of the given key.
pub open spec fn lookup(fields: Seq<(Seq<char>, JsonV)>, key: Seq<char>) -> JsonV
    decreases fields,
{
    if fields.len() == 0 {
        JsonV::Bool(false)
    } else if fields[0].0 == key {
        fields[0].1
    } else {
        lookup(fields.drop_first(), key)
    }
}

} // verus!
