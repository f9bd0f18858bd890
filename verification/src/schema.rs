//! What every entity record shares: the decoding contract, the readers of
//! single fields, and the handling of fields that a record does not know.

use vstd::prelude::*;
use crate::error::{DecodeError, JsonKind, lift};
use crate::json::{
    Fields, Json, JsonV, Member, among, find, items_view, lemma_lookup_push, lemma_view_unfold,
    lemma_without_push, listed, lookup, pairs_view, without,
};

verus! {

/// A record that is decoded from a JSON object and encoded back into one.
pub trait Entity: View + Sized {
    /// The names of the record's known fields, in declaration order.
    spec fn names() -> Seq<&'static str>;

    /// What decoding a value gives.
    spec fn decoded(j: JsonV) -> Result<Self::V, DecodeError>;

    /// The object that a record is encoded into: its known fields in
    /// declaration order, absent optional fields left out, then the fields
    /// of the overflow bag whose names are not known.
    spec fn encoded(v: Self::V) -> JsonV;

    /// The overflow bag of a record.
    spec fn overflow(v: Self::V) -> Fields;

    /// A record is valid when no overflow bag in it, its own or that of a
    /// nested record, holds a known name.
    spec fn valid(v: Self::V) -> bool;

    fn field_names() -> (r: Vec<&'static str>)
        ensures
            r@ == Self::names(),
    ;

    fn decode(j: &Json) -> (r: Result<Self, DecodeError>)
        ensures
            lift(r) == Self::decoded(j@),
    ;

    fn encode(&self) -> (j: Json)
        ensures
            j@ == Self::encoded(self@),
    ;

    /// Decoding what a valid record was encoded into gives the record back.
    proof fn round_trip(v: Self::V)
        requires
            Self::valid(v),
        ensures
            Self::decoded(Self::encoded(v)) == Ok::<Self::V, DecodeError>(v),
    ;

    /// A record is encoded into an object.
    proof fn encoded_is_object(v: Self::V)
        ensures
            Self::encoded(v) is Obj,
    ;

    /// What decoding gives is valid.
    proof fn decoded_is_valid(j: JsonV)
        ensures
            Self::decoded(j) is Ok ==> Self::valid(Self::decoded(j)->Ok_0),
    ;

    /// The record with its overflow bag replaced.
    spec fn with_overflow(v: Self::V, bag: Fields) -> Self::V;

    /// Decoding reads an object only through the first value under each
    /// known name and through its fields under unknown names: two objects
    /// that agree on every known name fail alike, or decode alike but for
    /// the overflow bag, which holds the fields under unknown names. So the
    /// bag has, under every unknown name, what the payload has under it.
    proof fn unknown_fields_kept(f: Fields, g: Fields)
        requires
            forall|key: Seq<char>|
                among(Self::names())(key) ==> #[trigger] lookup(f, key) == lookup(g, key),
        ensures
            Self::decoded(JsonV::Obj(f)) is Err ==> Self::decoded(JsonV::Obj(g)) == Self::decoded(
                JsonV::Obj(f),
            ),
            Self::decoded(JsonV::Obj(f)) is Ok ==> Self::decoded(JsonV::Obj(g)) == Ok::<
                Self::V,
                DecodeError,
            >(
                Self::with_overflow(
                    Self::decoded(JsonV::Obj(f))->Ok_0,
                    without(g, among(Self::names())),
                ),
            ),
            Self::decoded(JsonV::Obj(f)) is Ok ==> Self::overflow(
                Self::decoded(JsonV::Obj(f))->Ok_0,
            ) == without(f, among(Self::names())),
            Self::decoded(JsonV::Obj(f)) is Ok ==> forall|key: Seq<char>|
                !among(Self::names())(key) ==> #[trigger] lookup(
                    Self::overflow(Self::decoded(JsonV::Obj(f))->Ok_0),
                    key,
                ) == lookup(f, key),
    ;
}

/// The predicate that holds of the names of `E`'s known fields.
pub open spec fn known_of<E: Entity>() -> spec_fn(Seq<char>) -> bool {
    among(E::names())
}

/// The views of a sequence's items.
pub open spec fn views<T: View>(s: Seq<T>) -> Seq<T::V> {
    Seq::new(s.len(), |i: int| s[i]@)
}

/// A field under an unknown name never makes decoding fail, changes no
/// known field of the result, and is found in the overflow bag afterwards.
pub proof fn lemma_extra_field<E: Entity>(f: Fields, key: Seq<char>, value: JsonV)
    requires
        !known_of::<E>()(key),
    ensures
        E::decoded(JsonV::Obj(f.push((key, value)))) is Ok <==> E::decoded(JsonV::Obj(f)) is Ok,
        E::decoded(JsonV::Obj(f)) matches Ok(v) ==> E::decoded(JsonV::Obj(f.push((key, value))))
            == Ok::<E::V, DecodeError>(E::with_overflow(v, E::overflow(v).push((key, value)))),
        E::decoded(JsonV::Obj(f.push((key, value)))) matches Ok(v) ==> lookup(
            E::overflow(v),
            key,
        ) is Some,
{
    let g = f.push((key, value));
    assert forall|k: Seq<char>| among(E::names())(k) implies #[trigger] lookup(f, k) == lookup(
        g,
        k,
    ) by {
        lemma_lookup_push(f, (key, value), k);
    }
    E::unknown_fields_kept(f, g);
    E::unknown_fields_kept(g, f);
    lemma_lookup_push(f, (key, value), key);
    lemma_without_push(f, (key, value), among(E::names()));
}

/// The failure of a known field that holds the wrong kind of value.
pub open spec fn malformed(key: &'static str, expected: JsonKind) -> DecodeError {
    DecodeError::MalformedField { path: key, expected }
}

/// The failure of a required field that is not there.
pub open spec fn missing(key: &'static str) -> DecodeError {
    DecodeError::MissingRequiredField { name: key }
}

/// A required integer between `lo` and `hi`.
pub open spec fn req_int(f: Fields, key: &'static str, lo: int, hi: int) -> Result<
    int,
    DecodeError,
> {
    match lookup(f, key@) {
        None => Err(missing(key)),
        Some(JsonV::Int(n)) => if lo <= n <= hi {
            Ok(n)
        } else {
            Err(malformed(key, JsonKind::Integer))
        },
        Some(_) => Err(malformed(key, JsonKind::Integer)),
    }
}

/// An optional integer between `lo` and `hi`: absent where the field is
/// missing or null.
pub open spec fn opt_int(f: Fields, key: &'static str, lo: int, hi: int) -> Result<
    Option<int>,
    DecodeError,
> {
    match lookup(f, key@) {
        None => Ok(None),
        Some(JsonV::Null) => Ok(None),
        Some(JsonV::Int(n)) => if lo <= n <= hi {
            Ok(Some(n))
        } else {
            Err(malformed(key, JsonKind::Integer))
        },
        Some(_) => Err(malformed(key, JsonKind::Integer)),
    }
}

/// A required integer that fits `u32`.
pub open spec fn req_u32(f: Fields, key: &'static str) -> Result<u32, DecodeError> {
    match req_int(f, key, 0, u32::MAX as int) {
        Ok(n) => Ok(n as u32),
        Err(e) => Err(e),
    }
}

/// A required integer that fits `u64`.
pub open spec fn req_u64(f: Fields, key: &'static str) -> Result<u64, DecodeError> {
    match req_int(f, key, 0, u64::MAX as int) {
        Ok(n) => Ok(n as u64),
        Err(e) => Err(e),
    }
}

/// A required integer that fits `i32`.
pub open spec fn req_i32(f: Fields, key: &'static str) -> Result<i32, DecodeError> {
    match req_int(f, key, i32::MIN as int, i32::MAX as int) {
        Ok(n) => Ok(n as i32),
        Err(e) => Err(e),
    }
}

/// A required integer that fits `i64`.
pub open spec fn req_i64(f: Fields, key: &'static str) -> Result<i64, DecodeError> {
    match req_int(f, key, i64::MIN as int, i64::MAX as int) {
        Ok(n) => Ok(n as i64),
        Err(e) => Err(e),
    }
}

/// An optional integer that fits `u32`.
pub open spec fn opt_u32(f: Fields, key: &'static str) -> Result<Option<u32>, DecodeError> {
    match opt_int(f, key, 0, u32::MAX as int) {
        Ok(Some(n)) => Ok(Some(n as u32)),
        Ok(None) => Ok(None),
        Err(e) => Err(e),
    }
}

/// An optional integer that fits `u64`.
pub open spec fn opt_u64(f: Fields, key: &'static str) -> Result<Option<u64>, DecodeError> {
    match opt_int(f, key, 0, u64::MAX as int) {
        Ok(Some(n)) => Ok(Some(n as u64)),
        Ok(None) => Ok(None),
        Err(e) => Err(e),
    }
}

/// A required string.
pub open spec fn req_text(f: Fields, key: &'static str) -> Result<Seq<char>, DecodeError> {
    match lookup(f, key@) {
        None => Err(missing(key)),
        Some(JsonV::Str(s)) => Ok(s),
        Some(_) => Err(malformed(key, JsonKind::Text)),
    }
}

/// A required boolean.
pub open spec fn req_bool(f: Fields, key: &'static str) -> Result<bool, DecodeError> {
    match lookup(f, key@) {
        None => Err(missing(key)),
        Some(JsonV::Bool(b)) => Ok(b),
        Some(_) => Err(malformed(key, JsonKind::Bool)),
    }
}

/// An optional boolean: absent where the field is missing or null.
pub open spec fn opt_bool(f: Fields, key: &'static str) -> Result<Option<bool>, DecodeError> {
    match lookup(f, key@) {
        None => Ok(None),
        Some(JsonV::Null) => Ok(None),
        Some(JsonV::Bool(b)) => Ok(Some(b)),
        Some(_) => Err(malformed(key, JsonKind::Bool)),
    }
}

/// Whether every item is a string.
pub open spec fn all_text(items: Seq<JsonV>) -> bool {
    forall|i: int| 0 <= i < items.len() ==> #[trigger] items[i] is Str
}

/// A required array of strings.
pub open spec fn req_texts(f: Fields, key: &'static str) -> Result<Seq<Seq<char>>, DecodeError> {
    match lookup(f, key@) {
        None => Err(missing(key)),
        Some(JsonV::Arr(items)) => if all_text(items) {
            Ok(Seq::new(items.len(), |i: int| items[i]->Str_0))
        } else {
            Err(malformed(key, JsonKind::Text))
        },
        Some(_) => Err(malformed(key, JsonKind::Array)),
    }
}

/// The items decoded in order; the first failure is the result.
pub open spec fn decode_all<E: Entity>(items: Seq<JsonV>) -> Result<Seq<E::V>, DecodeError>
    decreases items.len(),
{
    if items.len() == 0 {
        Ok(Seq::empty())
    } else {
        match decode_all::<E>(items.drop_last()) {
            Err(e) => Err(e),
            Ok(s) => match E::decoded(items.last()) {
                Err(e) => Err(e),
                Ok(v) => Ok(s.push(v)),
            },
        }
    }
}

/// The records encoded in order.
pub open spec fn encode_all<E: Entity>(s: Seq<E::V>) -> Seq<JsonV> {
    Seq::new(s.len(), |i: int| E::encoded(s[i]))
}

/// Whether every record is valid.
pub open spec fn all_valid<E: Entity>(s: Seq<E::V>) -> bool {
    forall|i: int| 0 <= i < s.len() ==> E::valid(#[trigger] s[i])
}

/// A required nested record.
pub open spec fn req_record<E: Entity>(f: Fields, key: &'static str) -> Result<E::V, DecodeError> {
    match lookup(f, key@) {
        None => Err(missing(key)),
        Some(JsonV::Obj(inner)) => E::decoded(JsonV::Obj(inner)),
        Some(_) => Err(malformed(key, JsonKind::Object)),
    }
}

/// A required array of nested records.
pub open spec fn req_list<E: Entity>(f: Fields, key: &'static str) -> Result<
    Seq<E::V>,
    DecodeError,
> {
    match lookup(f, key@) {
        None => Err(missing(key)),
        Some(JsonV::Arr(items)) => decode_all::<E>(items),
        Some(_) => Err(malformed(key, JsonKind::Array)),
    }
}

/// A failure among the first items is the failure of the whole.
pub proof fn lemma_decode_all_prefix<E: Entity>(items: Seq<JsonV>, n: int)
    requires
        0 <= n <= items.len(),
        decode_all::<E>(items.take(n)) is Err,
    ensures
        decode_all::<E>(items) == decode_all::<E>(items.take(n)),
    decreases items.len(),
{
    if n == items.len() {
        assert(items.take(n) =~= items);
    } else {
        assert(items.drop_last().take(n) =~= items.take(n));
        lemma_decode_all_prefix::<E>(items.drop_last(), n);
    }
}

/// Decoding the encodings of valid records gives the records back.
pub proof fn lemma_round_trip_all<E: Entity>(s: Seq<E::V>)
    requires
        all_valid::<E>(s),
    ensures
        decode_all::<E>(encode_all::<E>(s)) == Ok::<Seq<E::V>, DecodeError>(s),
    decreases s.len(),
{
    if s.len() == 0 {
        assert(s =~= Seq::empty());
    } else {
        assert(encode_all::<E>(s).drop_last() =~= encode_all::<E>(s.drop_last()));
        lemma_round_trip_all::<E>(s.drop_last());
        E::round_trip(s.last());
        assert(s.drop_last().push(s.last()) =~= s);
    }
}

/// Reading back an array of strings gives the strings.
pub proof fn lemma_round_trip_texts(s: Seq<Seq<char>>)
    ensures
        all_text(texts_json(s)->Arr_0),
        Seq::new(s.len(), |i: int| texts_json(s)->Arr_0[i]->Str_0) == s,
{
    assert(Seq::new(s.len(), |i: int| texts_json(s)->Arr_0[i]->Str_0) =~= s);
}

/// What a list of items decodes into is valid.
pub proof fn lemma_decode_all_valid<E: Entity>(items: Seq<JsonV>)
    ensures
        decode_all::<E>(items) is Ok ==> all_valid::<E>(decode_all::<E>(items)->Ok_0),
    decreases items.len(),
{
    if items.len() > 0 {
        lemma_decode_all_valid::<E>(items.drop_last());
        E::decoded_is_valid(items.last());
    }
}

/// Reads a required integer between `lo` and `hi`.
pub fn get_int(fields: &Vec<Member>, key: &'static str, lo: i128, hi: i128) -> (r: Result<
    i128,
    DecodeError,
>)
    ensures
        match r {
            Ok(n) => req_int(pairs_view(fields@), key, lo as int, hi as int) == Ok::<
                int,
                DecodeError,
            >(n as int),
            Err(e) => req_int(pairs_view(fields@), key, lo as int, hi as int) == Err::<
                int,
                DecodeError,
            >(e),
        },
{
    match find(fields, key) {
        None => Err(DecodeError::MissingRequiredField { name: key }),
        Some(Json::Int(n)) => {
            if lo <= *n && *n <= hi {
                Ok(*n)
            } else {
                Err(DecodeError::MalformedField { path: key, expected: JsonKind::Integer })
            }
        },
        Some(_) => Err(DecodeError::MalformedField { path: key, expected: JsonKind::Integer }),
    }
}

/// Reads an optional integer between `lo` and `hi`.
pub fn get_opt_int(fields: &Vec<Member>, key: &'static str, lo: i128, hi: i128) -> (r: Result<
    Option<i128>,
    DecodeError,
>)
    ensures
        match r {
            Ok(Some(n)) => opt_int(pairs_view(fields@), key, lo as int, hi as int) == Ok::<
                Option<int>,
                DecodeError,
            >(Some(n as int)),
            Ok(None) => opt_int(pairs_view(fields@), key, lo as int, hi as int) == Ok::<
                Option<int>,
                DecodeError,
            >(None),
            Err(e) => opt_int(pairs_view(fields@), key, lo as int, hi as int) == Err::<
                Option<int>,
                DecodeError,
            >(e),
        },
{
    match find(fields, key) {
        None => Ok(None),
        Some(Json::Null) => Ok(None),
        Some(Json::Int(n)) => {
            if lo <= *n && *n <= hi {
                Ok(Some(*n))
            } else {
                Err(DecodeError::MalformedField { path: key, expected: JsonKind::Integer })
            }
        },
        Some(_) => Err(DecodeError::MalformedField { path: key, expected: JsonKind::Integer }),
    }
}

/// Reads a required integer that fits `u32`.
pub fn get_u32(fields: &Vec<Member>, key: &'static str) -> (r: Result<u32, DecodeError>)
    ensures
        r == req_u32(pairs_view(fields@), key),
{
    match get_int(fields, key, 0, 0xFFFF_FFFF) {
        Ok(n) => Ok(n as u32),
        Err(e) => Err(e),
    }
}

/// Reads a required integer that fits `u64`.
pub fn get_u64(fields: &Vec<Member>, key: &'static str) -> (r: Result<u64, DecodeError>)
    ensures
        r == req_u64(pairs_view(fields@), key),
{
    match get_int(fields, key, 0, 0xFFFF_FFFF_FFFF_FFFF) {
        Ok(n) => Ok(n as u64),
        Err(e) => Err(e),
    }
}

/// Reads a required integer that fits `i32`.
pub fn get_i32(fields: &Vec<Member>, key: &'static str) -> (r: Result<i32, DecodeError>)
    ensures
        r == req_i32(pairs_view(fields@), key),
{
    match get_int(fields, key, -0x8000_0000, 0x7FFF_FFFF) {
        Ok(n) => Ok(n as i32),
        Err(e) => Err(e),
    }
}

/// Reads a required integer that fits `i64`.
pub fn get_i64(fields: &Vec<Member>, key: &'static str) -> (r: Result<i64, DecodeError>)
    ensures
        r == req_i64(pairs_view(fields@), key),
{
    match get_int(fields, key, -0x8000_0000_0000_0000, 0x7FFF_FFFF_FFFF_FFFF) {
        Ok(n) => Ok(n as i64),
        Err(e) => Err(e),
    }
}

/// Reads an optional integer that fits `u32`.
pub fn get_opt_u32(fields: &Vec<Member>, key: &'static str) -> (r: Result<
    Option<u32>,
    DecodeError,
>)
    ensures
        r == opt_u32(pairs_view(fields@), key),
{
    match get_opt_int(fields, key, 0, 0xFFFF_FFFF) {
        Ok(Some(n)) => Ok(Some(n as u32)),
        Ok(None) => Ok(None),
        Err(e) => Err(e),
    }
}

/// Reads an optional integer that fits `u64`.
pub fn get_opt_u64(fields: &Vec<Member>, key: &'static str) -> (r: Result<
    Option<u64>,
    DecodeError,
>)
    ensures
        r == opt_u64(pairs_view(fields@), key),
{
    match get_opt_int(fields, key, 0, 0xFFFF_FFFF_FFFF_FFFF) {
        Ok(Some(n)) => Ok(Some(n as u64)),
        Ok(None) => Ok(None),
        Err(e) => Err(e),
    }
}

/// Reads a required string.
pub fn get_text(fields: &Vec<Member>, key: &'static str) -> (r: Result<String, DecodeError>)
    ensures
        lift(r) == req_text(pairs_view(fields@), key),
{
    match find(fields, key) {
        None => Err(DecodeError::MissingRequiredField { name: key }),
        Some(Json::Str(s)) => Ok(s.clone()),
        Some(_) => Err(DecodeError::MalformedField { path: key, expected: JsonKind::Text }),
    }
}

/// Reads a required boolean.
pub fn get_bool(fields: &Vec<Member>, key: &'static str) -> (r: Result<bool, DecodeError>)
    ensures
        r == req_bool(pairs_view(fields@), key),
{
    match find(fields, key) {
        None => Err(DecodeError::MissingRequiredField { name: key }),
        Some(Json::Bool(b)) => Ok(*b),
        Some(_) => Err(DecodeError::MalformedField { path: key, expected: JsonKind::Bool }),
    }
}

/// Reads an optional boolean.
pub fn get_opt_bool(fields: &Vec<Member>, key: &'static str) -> (r: Result<
    Option<bool>,
    DecodeError,
>)
    ensures
        r == opt_bool(pairs_view(fields@), key),
{
    match find(fields, key) {
        None => Ok(None),
        Some(Json::Null) => Ok(None),
        Some(Json::Bool(b)) => Ok(Some(*b)),
        Some(_) => Err(DecodeError::MalformedField { path: key, expected: JsonKind::Bool }),
    }
}

/// Reads a required array of strings.
pub fn get_texts(fields: &Vec<Member>, key: &'static str) -> (r: Result<Vec<String>, DecodeError>)
    ensures
        match r {
            Ok(v) => req_texts(pairs_view(fields@), key) == Ok::<Seq<Seq<char>>, DecodeError>(
                views(v@),
            ),
            Err(e) => req_texts(pairs_view(fields@), key) == Err::<Seq<Seq<char>>, DecodeError>(e),
        },
{
    match find(fields, key) {
        None => Err(DecodeError::MissingRequiredField { name: key }),
        Some(Json::Array(items)) => {
            let ghost found = Json::Array(*items);
            proof {
                lemma_view_unfold(found);
            }
            let mut out: Vec<String> = Vec::new();
            let mut i: usize = 0;
            while i < items.len()
                invariant
                    i <= items.len(),
                    out@.len() == i,
                    lookup(pairs_view(fields@), key@) == Some(JsonV::Arr(items_view(items@))),
                    forall|k: int| 0 <= k < i ==> (#[trigger] items@[k])@ == JsonV::Str(out@[k]@),
                decreases items.len() - i,
            {
                match &items[i] {
                    Json::Str(s) => {
                        out.push(s.clone());
                    },
                    _ => {
                        proof {
                            assert(!(items_view(items@)[i as int] is Str));
                        }
                        return Err(
                            DecodeError::MalformedField { path: key, expected: JsonKind::Text },
                        );
                    },
                }
                i += 1;
            }
            proof {
                let m = items_view(items@);
                assert forall|k: int| 0 <= k < m.len() implies #[trigger] m[k] is Str by {
                    assert(items@[k]@ == JsonV::Str(out@[k]@));
                }
                assert(Seq::new(m.len(), |k: int| m[k]->Str_0) =~= views(out@)) by {
                    assert forall|k: int| 0 <= k < m.len() implies m[k]->Str_0 == views(out@)[k] by {
                        assert(items@[k]@ == JsonV::Str(out@[k]@));
                    }
                }
            }
            Ok(out)
        },
        Some(_) => Err(DecodeError::MalformedField { path: key, expected: JsonKind::Array }),
    }
}

/// Decodes the items of an array in order and stops at the first failure.
pub fn decode_items<E: Entity>(items: &Vec<Json>) -> (r: Result<Vec<E>, DecodeError>)
    ensures
        match r {
            Ok(v) => decode_all::<E>(items_view(items@)) == Ok::<Seq<E::V>, DecodeError>(
                views(v@),
            ),
            Err(e) => decode_all::<E>(items_view(items@)) == Err::<Seq<E::V>, DecodeError>(e),
        },
{
    let ghost all = items_view(items@);
    let mut out: Vec<E> = Vec::new();
    let mut i: usize = 0;
    proof {
        assert(views(out@) =~= Seq::<E::V>::empty());
    }
    while i < items.len()
        invariant
            i <= items.len(),
            all == items_view(items@),
            decode_all::<E>(all.take(i as int)) == Ok::<Seq<E::V>, DecodeError>(views(out@)),
        decreases items.len() - i,
    {
        proof {
            assert(all.take(i + 1).drop_last() =~= all.take(i as int));
        }
        let ghost before = views(out@);
        match E::decode(&items[i]) {
            Ok(v) => {
                out.push(v);
                proof {
                    assert(views(out@) =~= before.push(v@));
                }
            },
            Err(e) => {
                proof {
                    lemma_decode_all_prefix::<E>(all, i + 1);
                }
                return Err(e);
            },
        }
        i += 1;
    }
    proof {
        assert(all.take(i as int) =~= all);
    }
    Ok(out)
}

/// Reads a required nested record.
pub fn get_record<E: Entity>(fields: &Vec<Member>, key: &'static str) -> (r: Result<
    E,
    DecodeError,
>)
    ensures
        lift(r) == req_record::<E>(pairs_view(fields@), key),
{
    match find(fields, key) {
        None => Err(DecodeError::MissingRequiredField { name: key }),
        Some(j) => {
            match j {
                Json::Object(_) => E::decode(j),
                _ => Err(DecodeError::MalformedField { path: key, expected: JsonKind::Object }),
            }
        },
    }
}

/// Reads a required array of nested records.
pub fn get_list<E: Entity>(fields: &Vec<Member>, key: &'static str) -> (r: Result<
    Vec<E>,
    DecodeError,
>)
    ensures
        match r {
            Ok(v) => req_list::<E>(pairs_view(fields@), key) == Ok::<Seq<E::V>, DecodeError>(
                views(v@),
            ),
            Err(e) => req_list::<E>(pairs_view(fields@), key) == Err::<Seq<E::V>, DecodeError>(e),
        },
{
    match find(fields, key) {
        None => Err(DecodeError::MissingRequiredField { name: key }),
        Some(Json::Array(items)) => {
            proof {
                lemma_view_unfold(Json::Array(*items));
            }
            decode_items::<E>(items)
        },
        Some(_) => Err(DecodeError::MalformedField { path: key, expected: JsonKind::Array }),
    }
}

/// The fields under none of `names`, copied in their order.
pub fn unknown_fields(fields: &Vec<Member>, names: &Vec<&'static str>) -> (out: Vec<Member>)
    ensures
        pairs_view(out@) == without(pairs_view(fields@), among(names@)),
{
    let ghost all = pairs_view(fields@);
    let mut out: Vec<Member> = Vec::new();
    let mut i: usize = 0;
    proof {
        assert(pairs_view(out@) =~= without(all.take(0), among(names@)));
    }
    while i < fields.len()
        invariant
            i <= fields.len(),
            all == pairs_view(fields@),
            pairs_view(out@) == without(all.take(i as int), among(names@)),
        decreases fields.len() - i,
    {
        proof {
            assert(all.take(i + 1).drop_last() =~= all.take(i as int));
        }
        let ghost before = pairs_view(out@);
        if !listed(names, fields[i].name.as_str()) {
            out.push(Member { name: fields[i].name.clone(), value: fields[i].value.dup() });
            proof {
                assert(pairs_view(out@) =~= before.push(all[i as int]));
            }
        }
        i += 1;
    }
    proof {
        assert(all.take(i as int) =~= all);
    }
    out
}

/// Appends a run of fields.
pub fn append_fields(out: &mut Vec<Member>, more: Vec<Member>)
    ensures
        pairs_view(final(out)@) == pairs_view(old(out)@) + pairs_view(more@),
{
    let mut more = more;
    let ghost added = more@;
    out.append(&mut more);
    proof {
        assert(pairs_view(out@) =~= pairs_view(old(out)@) + pairs_view(added));
    }
}

/// The array of the records' encodings.
pub fn encode_items<E: Entity>(items: &Vec<E>) -> (j: Json)
    ensures
        j@ == JsonV::Arr(encode_all::<E>(views(items@))),
{
    let mut out: Vec<Json> = Vec::new();
    let mut i: usize = 0;
    while i < items.len()
        invariant
            i <= items.len(),
            out@.len() == i,
            forall|k: int| 0 <= k < i ==> (#[trigger] out@[k])@ == E::encoded(items@[k]@),
        decreases items.len() - i,
    {
        out.push(items[i].encode());
        i += 1;
    }
    let j = Json::Array(out);
    proof {
        lemma_view_unfold(j);
        assert(items_view(out@) =~= encode_all::<E>(views(items@)));
    }
    j
}

/// The model of an array of strings.
pub open spec fn texts_json(s: Seq<Seq<char>>) -> JsonV {
    JsonV::Arr(Seq::new(s.len(), |i: int| JsonV::Str(s[i])))
}

/// The array of the strings.
pub fn encode_texts(items: &Vec<String>) -> (j: Json)
    ensures
        j@ == texts_json(views(items@)),
{
    let mut out: Vec<Json> = Vec::new();
    let mut i: usize = 0;
    while i < items.len()
        invariant
            i <= items.len(),
            out@.len() == i,
            forall|k: int| 0 <= k < i ==> (#[trigger] out@[k])@ == JsonV::Str(items@[k]@),
        decreases items.len() - i,
    {
        out.push(Json::Str(items[i].clone()));
        i += 1;
    }
    let j = Json::Array(out);
    proof {
        lemma_view_unfold(j);
        assert(items_view(out@) =~= texts_json(views(items@))->Arr_0);
    }
    j
}

} // verus!
