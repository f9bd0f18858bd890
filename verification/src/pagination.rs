//! The paging metadata of a paginated response.

use vstd::prelude::*;
use crate::error::{DecodeError, JsonKind};
use crate::json::{Json, JsonV, Member, lemma_lookup_push, lemma_view_unfold, pairs_view, put};
use crate::schema::{get_i32, get_i64, malformed, req_i32, req_i64};

verus! {

/// Where a page lies in the whole result.
#[derive(Clone, Copy, Debug, PartialEq, Eq, Structural)]
pub struct Pagination {
    /// The index of the page's first item in the whole result.
    pub index: i32,
    /// The number of items asked for.
    pub page_size: i32,
    /// The number of items in this page.
    pub result_count: i32,
    /// The number of items in the whole result.
    pub total_count: i64,
}

impl Pagination {
    /// What decoding a value gives: all four members are required integers.
    pub open spec fn decoded(j: JsonV) -> Result<Pagination, DecodeError> {
        match j {
            JsonV::Obj(f) => {
                let index = req_i32(f, "index");
                let page_size = req_i32(f, "pageSize");
                let result_count = req_i32(f, "resultCount");
                let total_count = req_i64(f, "totalCount");
                if index is Err {
                    Err(index->Err_0)
                } else if page_size is Err {
                    Err(page_size->Err_0)
                } else if result_count is Err {
                    Err(result_count->Err_0)
                } else if total_count is Err {
                    Err(total_count->Err_0)
                } else {
                    Ok(
                        Pagination {
                            index: index->Ok_0,
                            page_size: page_size->Ok_0,
                            result_count: result_count->Ok_0,
                            total_count: total_count->Ok_0,
                        },
                    )
                }
            },
            _ => Err(malformed("$", JsonKind::Object)),
        }
    }

    /// The object that the metadata is encoded into.
    pub open spec fn encoded(self) -> JsonV {
        JsonV::Obj(
            Seq::<(Seq<char>, JsonV)>::empty().push(("index"@, JsonV::Int(self.index as int))).push(
                ("pageSize"@, JsonV::Int(self.page_size as int)),
            ).push(("resultCount"@, JsonV::Int(self.result_count as int))).push(
                ("totalCount"@, JsonV::Int(self.total_count as int)),
            ),
        )
    }

    pub fn decode(j: &Json) -> (r: Result<Pagination, DecodeError>)
        ensures
            r == Self::decoded(j@),
    {
        match j {
            Json::Object(fields) => {
                proof {
                    lemma_view_unfold(*j);
                }
                let index = get_i32(fields, "index")?;
                let page_size = get_i32(fields, "pageSize")?;
                let result_count = get_i32(fields, "resultCount")?;
                let total_count = get_i64(fields, "totalCount")?;
                Ok(Pagination { index, page_size, result_count, total_count })
            },
            _ => Err(DecodeError::MalformedField { path: "$", expected: JsonKind::Object }),
        }
    }

    pub fn encode(&self) -> (j: Json)
        ensures
            j@ == self.encoded(),
    {
        let mut out: Vec<Member> = Vec::new();
        proof {
            assert(pairs_view(out@) =~= Seq::<(Seq<char>, JsonV)>::empty());
        }
        put(&mut out, "index", Json::Int(self.index as i128));
        put(&mut out, "pageSize", Json::Int(self.page_size as i128));
        put(&mut out, "resultCount", Json::Int(self.result_count as i128));
        put(&mut out, "totalCount", Json::Int(self.total_count as i128));
        let j = Json::Object(out);
        proof {
            lemma_view_unfold(j);
        }
        j
    }

    /// Decoding what the metadata was encoded into gives it back.
    pub proof fn lemma_round_trip(p: Pagination)
        ensures
            Self::decoded(p.encoded()) == Ok::<Pagination, DecodeError>(p),
    {
        broadcast use lemma_lookup_push;

        reveal_strlit("index");
        reveal_strlit("pageSize");
        reveal_strlit("resultCount");
        reveal_strlit("totalCount");
        assert("index"@.len() == 5 && "pageSize"@.len() == 8 && "resultCount"@.len() == 11
            && "totalCount"@.len() == 10);
    }
}

} // verus!
