//! The three envelopes that the API wraps its answers in. The caller picks
//! the envelope by the function it calls; the payload is never asked.

use vstd::prelude::*;
use crate::error::DecodeError;
use crate::json::{
    Json, JsonV, Member, find, lemma_lookup_push, lemma_view_unfold, lookup, pairs_view, put,
};
use crate::pagination::Pagination;
use crate::parse::{parse, parsed};
use crate::schema::{
    Entity, all_valid, decode_all, decode_items, encode_all, encode_items, lemma_round_trip_all,
    views,
};

verus! {

/// An answer that holds one thing under `data`.
#[derive(Debug, PartialEq)]
pub struct DataResponse<D> {
    pub data: D,
}

/// An answer that holds a list under `data`.
pub type ListResponse<D> = DataResponse<Vec<D>>;

/// An answer that holds one page of a list under `data`, and where that
/// page lies under `pagination`.
#[derive(Debug, PartialEq)]
pub struct PaginationResponse<D> {
    pub data: Vec<D>,
    pub pagination: Pagination,
}

/// What an envelope holds under `data`.
pub open spec fn data_of(j: JsonV) -> Option<JsonV> {
    match j {
        JsonV::Obj(f) => lookup(f, "data"@),
        _ => None,
    }
}

/// The paging metadata of an envelope, where it holds all of it.
pub open spec fn page_of(j: JsonV) -> Option<Pagination> {
    match j {
        JsonV::Obj(f) => match lookup(f, "pagination"@) {
            Some(p) => match Pagination::decoded(p) {
                Ok(page) => Some(page),
                Err(_) => None,
            },
            None => None,
        },
        _ => None,
    }
}

/// What decoding a single-item envelope gives: `data` has to be an object,
/// and a failure inside it is handed on as it is.
pub open spec fn single_decoded<E: Entity>(j: JsonV) -> Result<E::V, DecodeError> {
    match data_of(j) {
        Some(JsonV::Obj(inner)) => E::decoded(JsonV::Obj(inner)),
        _ => Err(DecodeError::EnvelopeShapeMismatch),
    }
}

/// What decoding a list envelope gives: `data` has to be an array, and the
/// first failure inside it is handed on as it is.
pub open spec fn list_decoded<E: Entity>(j: JsonV) -> Result<Seq<E::V>, DecodeError> {
    match data_of(j) {
        Some(JsonV::Arr(items)) => decode_all::<E>(items),
        _ => Err(DecodeError::EnvelopeShapeMismatch),
    }
}

/// What decoding a paginated envelope gives: `data` has to be an array and
/// `pagination` has to hold its four integers; then the first failure
/// inside `data` is handed on as it is.
pub open spec fn paginated_decoded<E: Entity>(j: JsonV) -> Result<
    (Seq<E::V>, Pagination),
    DecodeError,
> {
    match (data_of(j), page_of(j)) {
        (Some(JsonV::Arr(items)), Some(page)) => match decode_all::<E>(items) {
            Ok(s) => Ok((s, page)),
            Err(e) => Err(e),
        },
        _ => Err(DecodeError::EnvelopeShapeMismatch),
    }
}

/// The envelope around one record.
pub open spec fn single_encoded<E: Entity>(v: E::V) -> JsonV {
    JsonV::Obj(Seq::<(Seq<char>, JsonV)>::empty().push(("data"@, E::encoded(v))))
}

/// The envelope around a list of records.
pub open spec fn list_encoded<E: Entity>(s: Seq<E::V>) -> JsonV {
    JsonV::Obj(Seq::<(Seq<char>, JsonV)>::empty().push(("data"@, JsonV::Arr(encode_all::<E>(s)))))
}

/// The envelope around one page of records and where the page lies.
pub open spec fn paginated_encoded<E: Entity>(s: Seq<E::V>, page: Pagination) -> JsonV {
    JsonV::Obj(
        Seq::<(Seq<char>, JsonV)>::empty().push(("data"@, JsonV::Arr(encode_all::<E>(s)))).push(
            ("pagination"@, page.encoded()),
        ),
    )
}

/// Decodes a single-item envelope.
pub fn decode_single<E: Entity>(raw: &Json) -> (r: Result<DataResponse<E>, DecodeError>)
    ensures
        match r {
            Ok(resp) => single_decoded::<E>(raw@) == Ok::<E::V, DecodeError>(resp.data@),
            Err(e) => single_decoded::<E>(raw@) == Err::<E::V, DecodeError>(e),
        },
{
    match raw {
        Json::Object(fields) => {
            proof {
                lemma_view_unfold(*raw);
            }
            match find(fields, "data") {
                Some(inner) => match inner {
                    Json::Object(_) => {
                        match E::decode(inner) {
                            Ok(data) => Ok(DataResponse { data }),
                            Err(e) => Err(e),
                        }
                    },
                    _ => Err(DecodeError::EnvelopeShapeMismatch),
                },
                None => Err(DecodeError::EnvelopeShapeMismatch),
            }
        },
        _ => Err(DecodeError::EnvelopeShapeMismatch),
    }
}

/// Decodes a list envelope.
pub fn decode_list<E: Entity>(raw: &Json) -> (r: Result<DataResponse<Vec<E>>, DecodeError>)
    ensures
        match r {
            Ok(resp) => list_decoded::<E>(raw@) == Ok::<Seq<E::V>, DecodeError>(views(resp.data@)),
            Err(e) => list_decoded::<E>(raw@) == Err::<Seq<E::V>, DecodeError>(e),
        },
{
    match raw {
        Json::Object(fields) => {
            proof {
                lemma_view_unfold(*raw);
            }
            match find(fields, "data") {
                Some(Json::Array(items)) => {
                    proof {
                        lemma_view_unfold(Json::Array(*items));
                    }
                    match decode_items::<E>(items) {
                        Ok(data) => Ok(DataResponse { data }),
                        Err(e) => Err(e),
                    }
                },
                _ => Err(DecodeError::EnvelopeShapeMismatch),
            }
        },
        _ => Err(DecodeError::EnvelopeShapeMismatch),
    }
}

/// Decodes a paginated envelope.
pub fn decode_paginated<E: Entity>(raw: &Json) -> (r: Result<PaginationResponse<E>, DecodeError>)
    ensures
        match r {
            Ok(resp) => paginated_decoded::<E>(raw@) == Ok::<(Seq<E::V>, Pagination), DecodeError>(
                (views(resp.data@), resp.pagination),
            ),
            Err(e) => paginated_decoded::<E>(raw@) == Err::<(Seq<E::V>, Pagination), DecodeError>(
                e,
            ),
        },
{
    match raw {
        Json::Object(fields) => {
            proof {
                lemma_view_unfold(*raw);
            }
            let items = match find(fields, "data") {
                Some(Json::Array(items)) => items,
                _ => {
                    return Err(DecodeError::EnvelopeShapeMismatch);
                },
            };
            proof {
                lemma_view_unfold(Json::Array(*items));
            }
            let pagination = match find(fields, "pagination") {
                Some(p) => match Pagination::decode(p) {
                    Ok(page) => page,
                    Err(_) => {
                        return Err(DecodeError::EnvelopeShapeMismatch);
                    },
                },
                None => {
                    return Err(DecodeError::EnvelopeShapeMismatch);
                },
            };
            match decode_items::<E>(items) {
                Ok(data) => Ok(PaginationResponse { data, pagination }),
                Err(e) => Err(e),
            }
        },
        _ => Err(DecodeError::EnvelopeShapeMismatch),
    }
}

/// What decoding a text as an envelope gives: a text that is not JSON has
/// no envelope's shape.
pub open spec fn text_decoded<T>(
    text: Seq<char>,
    decoded: spec_fn(JsonV) -> Result<T, DecodeError>,
) -> Result<T, DecodeError> {
    match parsed(text) {
        Some(j) => decoded(j),
        None => Err(DecodeError::EnvelopeShapeMismatch),
    }
}

/// Reads a text and decodes it as a single-item envelope.
pub fn decode_single_text<E: Entity>(text: &str) -> (r: Result<DataResponse<E>, DecodeError>)
    ensures
        match r {
            Ok(resp) => text_decoded(text@, |j: JsonV| single_decoded::<E>(j)) == Ok::<
                E::V,
                DecodeError,
            >(resp.data@),
            Err(e) => text_decoded(text@, |j: JsonV| single_decoded::<E>(j)) == Err::<
                E::V,
                DecodeError,
            >(e),
        },
{
    match parse(text) {
        Some(raw) => decode_single::<E>(&raw),
        None => Err(DecodeError::EnvelopeShapeMismatch),
    }
}

/// Reads a text and decodes it as a list envelope.
pub fn decode_list_text<E: Entity>(text: &str) -> (r: Result<DataResponse<Vec<E>>, DecodeError>)
    ensures
        match r {
            Ok(resp) => text_decoded(text@, |j: JsonV| list_decoded::<E>(j)) == Ok::<
                Seq<E::V>,
                DecodeError,
            >(views(resp.data@)),
            Err(e) => text_decoded(text@, |j: JsonV| list_decoded::<E>(j)) == Err::<
                Seq<E::V>,
                DecodeError,
            >(e),
        },
{
    match parse(text) {
        Some(raw) => decode_list::<E>(&raw),
        None => Err(DecodeError::EnvelopeShapeMismatch),
    }
}

/// Reads a text and decodes it as a paginated envelope.
pub fn decode_paginated_text<E: Entity>(text: &str) -> (r: Result<
    PaginationResponse<E>,
    DecodeError,
>)
    ensures
        match r {
            Ok(resp) => text_decoded(text@, |j: JsonV| paginated_decoded::<E>(j)) == Ok::<
                (Seq<E::V>, Pagination),
                DecodeError,
            >((views(resp.data@), resp.pagination)),
            Err(e) => text_decoded(text@, |j: JsonV| paginated_decoded::<E>(j)) == Err::<
                (Seq<E::V>, Pagination),
                DecodeError,
            >(e),
        },
{
    match parse(text) {
        Some(raw) => decode_paginated::<E>(&raw),
        None => Err(DecodeError::EnvelopeShapeMismatch),
    }
}

/// Encodes a single-item envelope.
pub fn encode_single<E: Entity>(resp: &DataResponse<E>) -> (j: Json)
    ensures
        j@ == single_encoded::<E>(resp.data@),
{
    let mut out: Vec<Member> = Vec::new();
    proof {
        assert(pairs_view(out@) =~= Seq::<(Seq<char>, JsonV)>::empty());
    }
    put(&mut out, "data", resp.data.encode());
    let j = Json::Object(out);
    proof {
        lemma_view_unfold(j);
    }
    j
}

/// Encodes a list envelope.
pub fn encode_list<E: Entity>(resp: &DataResponse<Vec<E>>) -> (j: Json)
    ensures
        j@ == list_encoded::<E>(views(resp.data@)),
{
    let mut out: Vec<Member> = Vec::new();
    proof {
        assert(pairs_view(out@) =~= Seq::<(Seq<char>, JsonV)>::empty());
    }
    put(&mut out, "data", encode_items::<E>(&resp.data));
    let j = Json::Object(out);
    proof {
        lemma_view_unfold(j);
    }
    j
}

/// Encodes a paginated envelope.
pub fn encode_paginated<E: Entity>(resp: &PaginationResponse<E>) -> (j: Json)
    ensures
        j@ == paginated_encoded::<E>(views(resp.data@), resp.pagination),
{
    let mut out: Vec<Member> = Vec::new();
    proof {
        assert(pairs_view(out@) =~= Seq::<(Seq<char>, JsonV)>::empty());
    }
    put(&mut out, "data", encode_items::<E>(&resp.data));
    put(&mut out, "pagination", resp.pagination.encode());
    let j = Json::Object(out);
    proof {
        lemma_view_unfold(j);
    }
    j
}

/// An envelope is decoded only in the shape that was asked for: an object
/// under `data` fails as a list and as a page, an array fails as a single
/// item, and so does an envelope without `data`.
pub proof fn lemma_shape_enforced<E: Entity>(j: JsonV)
    ensures
        data_of(j) is Some && data_of(j)->Some_0 is Obj ==> list_decoded::<E>(j) == Err::<
            Seq<E::V>,
            DecodeError,
        >(DecodeError::EnvelopeShapeMismatch) && paginated_decoded::<E>(j) is Err
            && paginated_decoded::<E>(j)->Err_0 == DecodeError::EnvelopeShapeMismatch,
        data_of(j) is Some && data_of(j)->Some_0 is Arr ==> single_decoded::<E>(j) == Err::<
            E::V,
            DecodeError,
        >(DecodeError::EnvelopeShapeMismatch),
        data_of(j) is None ==> single_decoded::<E>(j) is Err && list_decoded::<E>(j) is Err
            && paginated_decoded::<E>(j) is Err,
        page_of(j) is None ==> paginated_decoded::<E>(j) is Err && paginated_decoded::<E>(j)->Err_0
            == DecodeError::EnvelopeShapeMismatch,
{
}

/// Decoding what valid records were wrapped into, in the same shape, gives
/// them back, the paging metadata with them.
pub proof fn lemma_envelope_round_trip<E: Entity>(v: E::V, s: Seq<E::V>, page: Pagination)
    requires
        E::valid(v),
        all_valid::<E>(s),
    ensures
        single_decoded::<E>(single_encoded::<E>(v)) == Ok::<E::V, DecodeError>(v),
        list_decoded::<E>(list_encoded::<E>(s)) == Ok::<Seq<E::V>, DecodeError>(s),
        paginated_decoded::<E>(paginated_encoded::<E>(s, page)) == Ok::<
            (Seq<E::V>, Pagination),
            DecodeError,
        >((s, page)),
{
    broadcast use lemma_lookup_push;

    reveal_strlit("data");
    reveal_strlit("pagination");
    assert("data"@.len() == 4 && "pagination"@.len() == 10);
    E::round_trip(v);
    E::encoded_is_object(v);
    lemma_round_trip_all::<E>(s);
    Pagination::lemma_round_trip(page);
}

} // verus!
