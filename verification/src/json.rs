//! JSON values as the decoders read them, and lookups in an object's fields.

use vstd::prelude::*;

verus! {

/// The mathematical model of a JSON value. An integer literal is an `Int`;
/// any other number keeps its decimal text in `Real`.
pub enum JsonV {
    Null,
    Bool(bool),
    Int(int),
    Real(Seq<char>),
    Str(Seq<char>),
    Arr(Seq<JsonV>),
    Obj(Seq<(Seq<char>, JsonV)>),
}

/// One field of a JSON object: its name and its value.
#[derive(Debug, PartialEq)]
pub struct Member {
    pub name: String,
    pub value: Json,
}

/// A JSON value. An object keeps its fields in the order in which they were
/// put into it; a lookup by name finds the first.
#[derive(Debug, PartialEq)]
pub enum Json {
    Null,
    Bool(bool),
    Int(i128),
    Real(String),
    Str(String),
    Array(Vec<Json>),
    Object(Vec<Member>),
}

/// The model of a value, field by field and item by item.
pub open spec fn model_of(j: Json) -> JsonV
    decreases j,
{
    match j {
        Json::Null => JsonV::Null,
        Json::Bool(b) => JsonV::Bool(b),
        Json::Int(n) => JsonV::Int(n as int),
        Json::Real(s) => JsonV::Real(s@),
        Json::Str(s) => JsonV::Str(s@),
        Json::Array(items) => JsonV::Arr(
            Seq::new(
                items@.len(),
                |i: int|
                    if 0 <= i < items@.len() {
                        model_of(items@[i])
                    } else {
                        JsonV::Null
                    },
            ),
        ),
        Json::Object(fields) => JsonV::Obj(
            Seq::new(
                fields@.len(),
                |i: int|
                    if 0 <= i < fields@.len() {
                        (fields@[i].name@, model_of(fields@[i].value))
                    } else {
                        (Seq::<char>::empty(), JsonV::Null)
                    },
            ),
        ),
    }
}

impl View for Json {
    type V = JsonV;

    open spec fn view(&self) -> JsonV {
        model_of(*self)
    }
}

/// The model of an object's fields: name and value, in payload order.
pub type Fields = Seq<(Seq<char>, JsonV)>;

/// The model of a vector of values.
pub open spec fn items_view(items: Seq<Json>) -> Seq<JsonV> {
    Seq::new(items.len(), |i: int| items[i]@)
}

/// The model of an object's fields.
pub open spec fn pairs_view(fields: Seq<Member>) -> Seq<(Seq<char>, JsonV)> {
    Seq::new(fields.len(), |i: int| (fields[i].name@, fields[i].value@))
}

/// An array's model is the model of its items; an object's, that of its fields.
pub proof fn lemma_view_unfold(j: Json)
    ensures
        j matches Json::Array(items) ==> j@ == JsonV::Arr(items_view(items@)),
        j matches Json::Object(fields) ==> j@ == JsonV::Obj(pairs_view(fields@)),
{
    match j {
        Json::Array(items) => {
            assert(j@->Arr_0 =~= items_view(items@));
        },
        Json::Object(fields) => {
            assert(j@->Obj_0.len() == fields@.len());
            assert(j@->Obj_0 =~= pairs_view(fields@));
        },
        _ => {},
    }
}

/// The value of the first field named `key`, if there is one.
pub open spec fn lookup(fields: Seq<(Seq<char>, JsonV)>, key: Seq<char>) -> Option<JsonV>
    decreases fields.len(),
{
    if fields.len() == 0 {
        None
    } else {
        let before = lookup(fields.drop_last(), key);
        if before is Some {
            before
        } else if fields.last().0 == key {
            Some(fields.last().1)
        } else {
            None
        }
    }
}

/// The fields whose name `known` does not hold, in their order.
pub open spec fn without(
    fields: Seq<(Seq<char>, JsonV)>,
    known: spec_fn(Seq<char>) -> bool,
) -> Seq<(Seq<char>, JsonV)>
    decreases fields.len(),
{
    if fields.len() == 0 {
        Seq::empty()
    } else if known(fields.last().0) {
        without(fields.drop_last(), known)
    } else {
        without(fields.drop_last(), known).push(fields.last())
    }
}

/// No field of `fields` has a name that `known` holds.
pub open spec fn free_of(fields: Seq<(Seq<char>, JsonV)>, known: spec_fn(Seq<char>) -> bool) -> bool {
    forall|i: int| 0 <= i < fields.len() ==> !known(#[trigger] fields[i].0)
}

/// Adding a field at the end leaves an earlier field of the same name in
/// front of it.
pub broadcast proof fn lemma_lookup_push(
    fields: Seq<(Seq<char>, JsonV)>,
    field: (Seq<char>, JsonV),
    key: Seq<char>,
)
    ensures
        #[trigger] lookup(fields.push(field), key) == if lookup(fields, key) is Some {
            lookup(fields, key)
        } else if field.0 == key {
            Some(field.1)
        } else {
            None
        },
{
    assert(fields.push(field).drop_last() =~= fields);
}

/// Adding a field at the end adds it to what is left when its name is not
/// known.
pub broadcast proof fn lemma_without_push(
    fields: Seq<(Seq<char>, JsonV)>,
    field: (Seq<char>, JsonV),
    known: spec_fn(Seq<char>) -> bool,
)
    ensures
        #[trigger] without(fields.push(field), known) == if known(field.0) {
            without(fields, known)
        } else {
            without(fields, known).push(field)
        },
{
    assert(fields.push(field).drop_last() =~= fields);
}

/// A match in a prefix is the match in the whole.
pub proof fn lemma_lookup_prefix(fields: Seq<(Seq<char>, JsonV)>, n: int, key: Seq<char>)
    requires
        0 <= n <= fields.len(),
        lookup(fields.take(n), key) is Some,
    ensures
        lookup(fields, key) == lookup(fields.take(n), key),
    decreases fields.len(),
{
    if n == fields.len() {
        assert(fields.take(n) =~= fields);
    } else {
        assert(fields.drop_last().take(n) =~= fields.take(n));
        lemma_lookup_prefix(fields.drop_last(), n, key);
    }
}

/// In two runs of fields joined, the first run is searched first.
pub broadcast proof fn lemma_lookup_add(
    a: Seq<(Seq<char>, JsonV)>,
    b: Seq<(Seq<char>, JsonV)>,
    key: Seq<char>,
)
    ensures
        #[trigger] lookup(a + b, key) == if lookup(a, key) is Some {
            lookup(a, key)
        } else {
            lookup(b, key)
        },
    decreases b.len(),
{
    if b.len() == 0 {
        assert(a + b =~= a);
    } else {
        assert((a + b).drop_last() =~= a + b.drop_last());
        lemma_lookup_add(a, b.drop_last(), key);
    }
}

/// Fields that hold no known name have no value under a known name.
pub proof fn lemma_lookup_free(
    fields: Seq<(Seq<char>, JsonV)>,
    known: spec_fn(Seq<char>) -> bool,
    key: Seq<char>,
)
    requires
        free_of(fields, known),
        known(key),
    ensures
        lookup(fields, key) is None,
    decreases fields.len(),
{
    if fields.len() > 0 {
        lemma_lookup_free(fields.drop_last(), known, key);
    }
}

/// What is left after the known names are taken out holds none of them, and
/// keeps the first value of every other name.
pub proof fn lemma_without(
    fields: Seq<(Seq<char>, JsonV)>,
    known: spec_fn(Seq<char>) -> bool,
)
    ensures
        free_of(without(fields, known), known),
        forall|key: Seq<char>|
            !known(key) ==> #[trigger] lookup(without(fields, known), key) == lookup(fields, key),
        free_of(fields, known) ==> without(fields, known) == fields,
    decreases fields.len(),
{
    if fields.len() > 0 {
        let rest = fields.drop_last();
        lemma_without(rest, known);
        assert forall|key: Seq<char>| !known(key) implies #[trigger] lookup(
            without(fields, known),
            key,
        ) == lookup(fields, key) by {
            if !known(fields.last().0) {
                lemma_lookup_push(without(rest, known), fields.last(), key);
            }
        }
        if free_of(fields, known) {
            assert(rest.push(fields.last()) =~= fields);
        }
    } else {
        assert(without(fields, known) =~= fields);
    }
}

/// Taking the known names out of two runs joined is taking them out of each.
pub proof fn lemma_without_add(
    a: Seq<(Seq<char>, JsonV)>,
    b: Seq<(Seq<char>, JsonV)>,
    known: spec_fn(Seq<char>) -> bool,
)
    ensures
        without(a + b, known) == without(a, known) + without(b, known),
    decreases b.len(),
{
    if b.len() == 0 {
        assert(a + b =~= a);
        assert(without(a, known) + without(b, known) =~= without(a, known));
    } else {
        assert((a + b).drop_last() =~= a + b.drop_last());
        lemma_without_add(a, b.drop_last(), known);
        if !known(b.last().0) {
            assert((without(a, known) + without(b.drop_last(), known)).push(b.last()) =~= without(
                a,
                known,
            ) + without(b.drop_last(), known).push(b.last()));
        }
    }
}

/// The predicate that holds of the names listed in `names`.
pub open spec fn among(names: Seq<&'static str>) -> spec_fn(Seq<char>) -> bool {
    |key: Seq<char>| exists|i: int| 0 <= i < names.len() && (#[trigger] names[i])@ == key
}

/// Whether two strings hold the same characters.
pub fn same_text(a: &str, b: &str) -> (r: bool)
    ensures
        r == (a@ == b@),
{
    let x = a.to_owned();
    let y = b.to_owned();
    x == y
}

/// Whether `key` is one of `names`.
pub fn listed(names: &Vec<&'static str>, key: &str) -> (r: bool)
    ensures
        r == among(names@)(key@),
{
    let mut i: usize = 0;
    while i < names.len()
        invariant
            i <= names.len(),
            forall|k: int| 0 <= k < i ==> (#[trigger] names@[k])@ != key@,
        decreases names.len() - i,
    {
        if same_text(names[i], key) {
            return true;
        }
        i += 1;
    }
    false
}

impl Json {
    /// A copy of the value.
    pub fn dup(&self) -> (r: Json)
        ensures
            r@ == self@,
        decreases self,
    {
        match self {
            Json::Null => Json::Null,
            Json::Bool(b) => Json::Bool(*b),
            Json::Int(n) => Json::Int(*n),
            Json::Real(s) => Json::Real(s.clone()),
            Json::Str(s) => Json::Str(s.clone()),
            Json::Array(items) => {
                let out = dup_items(items);
                let r = Json::Array(out);
                proof {
                    lemma_view_unfold(r);
                    lemma_view_unfold(*self);
                }
                r
            },
            Json::Object(fields) => {
                let out = dup_fields(fields);
                let r = Json::Object(out);
                proof {
                    lemma_view_unfold(r);
                    lemma_view_unfold(*self);
                }
                r
            },
        }
    }
}

/// A copy of an array's items.
pub fn dup_items(items: &Vec<Json>) -> (out: Vec<Json>)
    ensures
        items_view(out@) == items_view(items@),
    decreases items,
{
    let mut out: Vec<Json> = Vec::new();
    let mut i: usize = 0;
    while i < items.len()
        invariant
            i <= items.len(),
            out@.len() == i,
            forall|k: int| 0 <= k < i ==> (#[trigger] out@[k])@ == items@[k]@,
        decreases items.len() - i,
    {
        out.push(items[i].dup());
        i += 1;
    }
    proof {
        assert(items_view(out@) =~= items_view(items@));
    }
    out
}

/// A copy of an object's fields.
pub fn dup_fields(fields: &Vec<Member>) -> (out: Vec<Member>)
    ensures
        pairs_view(out@) == pairs_view(fields@),
    decreases fields,
{
    let mut out: Vec<Member> = Vec::new();
    let mut i: usize = 0;
    while i < fields.len()
        invariant
            i <= fields.len(),
            out@.len() == i,
            forall|k: int|
                0 <= k < i ==> (#[trigger] out@[k]).name@ == fields@[k].name@ && out@[k].value@
                    == fields@[k].value@,
        decreases fields.len() - i,
    {
        out.push(Member { name: fields[i].name.clone(), value: fields[i].value.dup() });
        i += 1;
    }
    proof {
        assert(pairs_view(out@) =~= pairs_view(fields@));
    }
    out
}

/// The value of the first field named `key`, if there is one.
pub fn find<'a>(fields: &'a Vec<Member>, key: &str) -> (r: Option<&'a Json>)
    ensures
        match r {
            Some(j) => lookup(pairs_view(fields@), key@) == Some(j@),
            None => lookup(pairs_view(fields@), key@) is None,
        },
{
    let ghost all = pairs_view(fields@);
    let mut i: usize = 0;
    while i < fields.len()
        invariant
            i <= fields.len(),
            all == pairs_view(fields@),
            lookup(all.take(i as int), key@) is None,
        decreases fields.len() - i,
    {
        proof {
            assert(all.take(i + 1).drop_last() =~= all.take(i as int));
        }
        if same_text(fields[i].name.as_str(), key) {
            proof {
                lemma_lookup_prefix(all, i + 1, key@);
            }
            return Some(&fields[i].value);
        }
        i += 1;
    }
    proof {
        assert(all.take(i as int) =~= all);
    }
    None
}

/// Appends one field.
pub fn put(out: &mut Vec<Member>, key: &str, value: Json)
    ensures
        pairs_view(final(out)@) == pairs_view(old(out)@).push((key@, value@)),
{
    out.push(Member { name: key.to_owned(), value });
    proof {
        assert(pairs_view(out@) =~= pairs_view(old(out)@).push((key@, value@)));
    }
}

} // verus!
