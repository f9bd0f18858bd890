//! The parameters of searches and listings, and the query strings built
//! from them.

use vstd::prelude::*;
use crate::error::{DecodeError};
use vstd::utf8::encode_utf8;
use crate::mod_loader::ModLoaderType;
use crate::text::{
    decimal, joined, lemma_joined_starts, number_of, opt_text, percent_encoded, push_number,
    push_opt_number, push_opt_text, push_opt_word, widen, with_number, with_text, with_word,
};

verus! {

/// What a search is sorted by.
#[derive(Clone, Copy, Debug, PartialEq, Eq, Structural)]
pub enum SortField {
    Featured,
    Popularity,
    LastUpdated,
    Name,
    Author,
    TotalDownloads,
    Category,
    GameVersion,
    EarlyAccess,
    FeaturedReleased,
    ReleasedDate,
    Rating,
}

impl SortField {
    /// The wire code of a variant.
    pub open spec fn wire(self) -> u64 {
        match self {
            SortField::Featured => 1,
            SortField::Popularity => 2,
            SortField::LastUpdated => 3,
            SortField::Name => 4,
            SortField::Author => 5,
            SortField::TotalDownloads => 6,
            SortField::Category => 7,
            SortField::GameVersion => 8,
            SortField::EarlyAccess => 9,
            SortField::FeaturedReleased => 10,
            SortField::ReleasedDate => 11,
            SortField::Rating => 12,
        }
    }

    /// The variant that a wire code stands for; a code outside the table
    /// is a failure, never a default.
    pub open spec fn of_wire(code: u64) -> Result<SortField, DecodeError> {
        if code == 1 {
            Ok(SortField::Featured)
        } else if code == 2 {
            Ok(SortField::Popularity)
        } else if code == 3 {
            Ok(SortField::LastUpdated)
        } else if code == 4 {
            Ok(SortField::Name)
        } else if code == 5 {
            Ok(SortField::Author)
        } else if code == 6 {
            Ok(SortField::TotalDownloads)
        } else if code == 7 {
            Ok(SortField::Category)
        } else if code == 8 {
            Ok(SortField::GameVersion)
        } else if code == 9 {
            Ok(SortField::EarlyAccess)
        } else if code == 10 {
            Ok(SortField::FeaturedReleased)
        } else if code == 11 {
            Ok(SortField::ReleasedDate)
        } else if code == 12 {
            Ok(SortField::Rating)
        } else {
            Err(DecodeError::UnrecognizedCode { value: code, enum_name: "SortField" })
        }
    }

    pub fn encode(&self) -> (code: u64)
        ensures
            code == self.wire(),
    {
        match self {
            SortField::Featured => 1,
            SortField::Popularity => 2,
            SortField::LastUpdated => 3,
            SortField::Name => 4,
            SortField::Author => 5,
            SortField::TotalDownloads => 6,
            SortField::Category => 7,
            SortField::GameVersion => 8,
            SortField::EarlyAccess => 9,
            SortField::FeaturedReleased => 10,
            SortField::ReleasedDate => 11,
            SortField::Rating => 12,
        }
    }

    pub fn decode(code: u64) -> (r: Result<SortField, DecodeError>)
        ensures
            r == Self::of_wire(code),
    {
        match code {
            1 => Ok(SortField::Featured),
            2 => Ok(SortField::Popularity),
            3 => Ok(SortField::LastUpdated),
            4 => Ok(SortField::Name),
            5 => Ok(SortField::Author),
            6 => Ok(SortField::TotalDownloads),
            7 => Ok(SortField::Category),
            8 => Ok(SortField::GameVersion),
            9 => Ok(SortField::EarlyAccess),
            10 => Ok(SortField::FeaturedReleased),
            11 => Ok(SortField::ReleasedDate),
            12 => Ok(SortField::Rating),
            _ => Err(DecodeError::UnrecognizedCode { value: code, enum_name: "SortField" }),
        }
    }

    /// Every variant has a code, and decoding that code gives the variant
    /// back.
    pub proof fn lemma_code_round_trip(v: SortField)
        ensures
            Self::of_wire(v.wire()) == Ok::<SortField, DecodeError>(v),
    {
    }

    /// A code decodes to the one variant that has it, and every other
    /// code is reported with its value and the enumeration's name.
    pub proof fn lemma_decode_exact(code: u64)
        ensures
            match Self::of_wire(code) {
                Ok(v) => v.wire() == code,
                Err(e) => e == (DecodeError::UnrecognizedCode { value: code, enum_name: "SortField" })
                    && forall|v: SortField| v.wire() != code,
            },
    {
    }
}

/// The direction of a sort.
#[derive(Clone, Copy, Debug, PartialEq, Eq, Structural)]
pub enum SortOrder {
    #[allow(non_camel_case_types)]
    asc,
    #[allow(non_camel_case_types)]
    desc,
}

impl SortOrder {
    /// The word that stands for the direction in a query.
    pub open spec fn word(self) -> Seq<char> {
        match self {
            SortOrder::asc => "asc"@,
            SortOrder::desc => "desc"@,
        }
    }

    pub fn as_word(&self) -> (w: &'static str)
        ensures
            w@ == self.word(),
    {
        match self {
            SortOrder::asc => "asc",
            SortOrder::desc => "desc",
        }
    }
}

/// The filters of a listing of a mod's files. The API is given none yet.
#[derive(Clone, Copy, Debug, PartialEq, Eq, Structural)]
pub struct GetModFilesParameters {
}

impl GetModFilesParameters {
    /// The query of the listing: empty, as there is no filter.
    pub fn build(&self) -> (r: String)
        ensures
            r@ == Seq::<char>::empty(),
    {
        String::new()
    }
}

/// The filters of a search for mods. All but the game are optional, and an
/// absent filter leaves no trace in the query.
#[derive(Debug, PartialEq)]
pub struct SearchModsParameters {
    pub game_id: u32,
    pub class_id: Option<u32>,
    pub category_id: Option<u32>,
    pub game_version: Option<String>,
    pub search_filter: Option<String>,
    pub sort_field: Option<SortField>,
    pub sort_order: Option<SortOrder>,
    pub mod_loader_type: Option<ModLoaderType>,
    pub game_version_type_id: Option<u32>,
    pub slug: Option<String>,
    pub index: Option<u32>,
    pub page_size: Option<u32>,
}

/// The model of [`SearchModsParameters`].
pub struct SearchModsParametersV {
    pub game_id: u32,
    pub class_id: Option<u32>,
    pub category_id: Option<u32>,
    pub game_version: Option<Seq<char>>,
    pub search_filter: Option<Seq<char>>,
    pub sort_field: Option<SortField>,
    pub sort_order: Option<SortOrder>,
    pub mod_loader_type: Option<ModLoaderType>,
    pub game_version_type_id: Option<u32>,
    pub slug: Option<Seq<char>>,
    pub index: Option<u32>,
    pub page_size: Option<u32>,
}

impl View for SearchModsParameters {
    type V = SearchModsParametersV;

    open spec fn view(&self) -> SearchModsParametersV {
        SearchModsParametersV {
            game_id: self.game_id,
            class_id: self.class_id,
            category_id: self.category_id,
            game_version: opt_text(self.game_version),
            search_filter: opt_text(self.search_filter),
            sort_field: self.sort_field,
            sort_order: self.sort_order,
            mod_loader_type: self.mod_loader_type,
            game_version_type_id: self.game_version_type_id,
            slug: opt_text(self.slug),
            index: self.index,
            page_size: self.page_size,
        }
    }
}

/// The wire code of an optional sort field.
pub open spec fn sort_code(f: Option<SortField>) -> Option<u64> {
    match f {
        Some(x) => Some(x.wire()),
        None => None,
    }
}

/// The wire code of an optional mod loader.
pub open spec fn loader_code(l: Option<ModLoaderType>) -> Option<u64> {
    match l {
        Some(x) => Some(x.wire()),
        None => None,
    }
}

/// The word of an optional sort order.
pub open spec fn order_word(o: Option<SortOrder>) -> Option<Seq<char>> {
    match o {
        Some(x) => Some(x.word()),
        None => None,
    }
}

/// The place of a key in the declared order of the search's filters; the
/// number of keys for any other text.
pub open spec fn key_rank(key: Seq<char>) -> int {
    if key == "gameId"@ {
        0
    } else if key == "classId"@ {
        1
    } else if key == "categoryId"@ {
        2
    } else if key == "gameVersion"@ {
        3
    } else if key == "searchFilter"@ {
        4
    } else if key == "sortField"@ {
        5
    } else if key == "sortOrder"@ {
        6
    } else if key == "modLoaderType"@ {
        7
    } else if key == "gameVersionTypeId"@ {
        8
    } else if key == "slug"@ {
        9
    } else if key == "index"@ {
        10
    } else if key == "pageSize"@ {
        11
    } else {
        12
    }
}

/// The keys of the pairs rise in declaration order and stay below `bound`.
#[verifier::opaque]
pub open spec fn in_order_below(pairs: Seq<(Seq<char>, Seq<char>)>, bound: int) -> bool {
    &&& forall|i: int, j: int|
        0 <= i < j < pairs.len() ==> key_rank(#[trigger] pairs[i].0) < key_rank(
            #[trigger] pairs[j].0,
        )
    &&& forall|i: int| 0 <= i < pairs.len() ==> key_rank(#[trigger] pairs[i].0) < bound
}

/// Each key has its place in the declared order.
pub proof fn lemma_key_ranks()
    ensures
        key_rank("gameId"@) == 0,
        key_rank("classId"@) == 1,
        key_rank("categoryId"@) == 2,
        key_rank("gameVersion"@) == 3,
        key_rank("searchFilter"@) == 4,
        key_rank("sortField"@) == 5,
        key_rank("sortOrder"@) == 6,
        key_rank("modLoaderType"@) == 7,
        key_rank("gameVersionTypeId"@) == 8,
        key_rank("slug"@) == 9,
        key_rank("index"@) == 10,
        key_rank("pageSize"@) == 11,
{
    reveal_strlit("gameId");
    assert("gameId"@.len() == 6);
    reveal_strlit("classId");
    assert("classId"@.len() == 7);
    reveal_strlit("categoryId");
    assert("categoryId"@.len() == 10);
    reveal_strlit("gameVersion");
    assert("gameVersion"@.len() == 11);
    reveal_strlit("searchFilter");
    assert("searchFilter"@.len() == 12);
    reveal_strlit("sortField");
    assert("sortField"@.len() == 9);
    reveal_strlit("sortOrder");
    assert("sortOrder"@.len() == 9);
    reveal_strlit("modLoaderType");
    assert("modLoaderType"@.len() == 13);
    reveal_strlit("gameVersionTypeId");
    assert("gameVersionTypeId"@.len() == 17);
    reveal_strlit("slug");
    assert("slug"@.len() == 4);
    reveal_strlit("index");
    assert("index"@.len() == 5);
    reveal_strlit("pageSize");
    assert("pageSize"@.len() == 8);
    assert("sortField"@[4] != "sortOrder"@[4]);
}

/// One more pair under a key that comes later keeps the order, and so
/// does none.
pub proof fn lemma_order_push(
    pairs: Seq<(Seq<char>, Seq<char>)>,
    bound: int,
    key: Seq<char>,
    value: Option<Seq<char>>,
)
    requires
        in_order_below(pairs, bound),
        bound <= key_rank(key),
    ensures
        in_order_below(
            match value {
                Some(x) => pairs.push((key, x)),
                None => pairs,
            },
            key_rank(key) + 1,
        ),
{
    reveal(in_order_below);
}

impl SearchModsParameters {
    /// The pairs of the query: the game first, then each filter that is
    /// given, in declaration order.
    pub open spec fn pairs(v: SearchModsParametersV) -> Seq<(Seq<char>, Seq<char>)> {
        let s = seq![("gameId"@, decimal(v.game_id as nat))];
        let s = with_number(s, "classId"@, number_of(v.class_id));
        let s = with_number(s, "categoryId"@, number_of(v.category_id));
        let s = with_text(s, "gameVersion"@, v.game_version);
        let s = with_text(s, "searchFilter"@, v.search_filter);
        let s = with_number(s, "sortField"@, sort_code(v.sort_field));
        let s = with_word(s, "sortOrder"@, order_word(v.sort_order));
        let s = with_number(s, "modLoaderType"@, loader_code(v.mod_loader_type));
        let s = with_number(s, "gameVersionTypeId"@, number_of(v.game_version_type_id));
        let s = with_text(s, "slug"@, v.slug);
        let s = with_number(s, "index"@, number_of(v.index));
        let s = with_number(s, "pageSize"@, number_of(v.page_size));
        s
    }

    /// The query string of a search.
    pub open spec fn query(v: SearchModsParametersV) -> Seq<char> {
        joined(Self::pairs(v))
    }

    /// Builds the query string of the search: the same parameters always
    /// give the same text.
    pub fn build(&self) -> (r: String)
        ensures
            r@ == Self::query(self@),
    {
        let mut out = String::new();
        let ghost mut done: Seq<(Seq<char>, Seq<char>)> = Seq::empty();
        push_number(&mut out, Ghost(done), true, "gameId", self.game_id as u64);
        proof {
            done = done.push(("gameId"@, decimal(self.game_id as nat)));
            assert(done =~= seq![("gameId"@, decimal(self.game_id as nat))]);
        }
        push_opt_number(&mut out, Ghost(done), "classId", widen(self.class_id));
        proof {
            done = with_number(done, "classId"@, number_of(self.class_id));
        }
        push_opt_number(&mut out, Ghost(done), "categoryId", widen(self.category_id));
        proof {
            done = with_number(done, "categoryId"@, number_of(self.category_id));
        }
        push_opt_text(&mut out, Ghost(done), "gameVersion", &self.game_version);
        proof {
            done = with_text(done, "gameVersion"@, opt_text(self.game_version));
        }
        push_opt_text(&mut out, Ghost(done), "searchFilter", &self.search_filter);
        proof {
            done = with_text(done, "searchFilter"@, opt_text(self.search_filter));
        }
        let sort_field = match self.sort_field {
            Some(f) => Some(f.encode()),
            None => None,
        };
        push_opt_number(&mut out, Ghost(done), "sortField", sort_field);
        proof {
            done = with_number(done, "sortField"@, sort_code(self.sort_field));
        }
        let sort_order = match self.sort_order {
            Some(o) => Some(o.as_word()),
            None => None,
        };
        push_opt_word(&mut out, Ghost(done), "sortOrder", sort_order);
        proof {
            done = with_word(done, "sortOrder"@, order_word(self.sort_order));
        }
        let loader = match self.mod_loader_type {
            Some(l) => Some(l.encode()),
            None => None,
        };
        push_opt_number(&mut out, Ghost(done), "modLoaderType", loader);
        proof {
            done = with_number(done, "modLoaderType"@, loader_code(self.mod_loader_type));
        }
        push_opt_number(&mut out, Ghost(done), "gameVersionTypeId", widen(self.game_version_type_id));
        proof {
            done = with_number(done, "gameVersionTypeId"@, number_of(self.game_version_type_id));
        }
        push_opt_text(&mut out, Ghost(done), "slug", &self.slug);
        proof {
            done = with_text(done, "slug"@, opt_text(self.slug));
        }
        push_opt_number(&mut out, Ghost(done), "index", widen(self.index));
        proof {
            done = with_number(done, "index"@, number_of(self.index));
        }
        push_opt_number(&mut out, Ghost(done), "pageSize", widen(self.page_size));
        out
    }

    /// Every query opens with the game, whatever else is asked for.
    pub proof fn lemma_game_first(v: SearchModsParametersV)
        ensures
            ("gameId"@ + seq!['='] + decimal(v.game_id as nat)).is_prefix_of(Self::query(v)),
    {
        let first = ("gameId"@, decimal(v.game_id as nat));
        let s = seq![first];
        assert(s.len() > 0 && s[0] == first);
        let s = with_number(s, "classId"@, number_of(v.class_id));
        assert(s.len() > 0 && s[0] == first);
        let s = with_number(s, "categoryId"@, number_of(v.category_id));
        assert(s.len() > 0 && s[0] == first);
        let s = with_text(s, "gameVersion"@, v.game_version);
        assert(s.len() > 0 && s[0] == first);
        let s = with_text(s, "searchFilter"@, v.search_filter);
        assert(s.len() > 0 && s[0] == first);
        let s = with_number(s, "sortField"@, sort_code(v.sort_field));
        assert(s.len() > 0 && s[0] == first);
        let s = with_word(s, "sortOrder"@, order_word(v.sort_order));
        assert(s.len() > 0 && s[0] == first);
        let s = with_number(s, "modLoaderType"@, loader_code(v.mod_loader_type));
        assert(s.len() > 0 && s[0] == first);
        let s = with_number(s, "gameVersionTypeId"@, number_of(v.game_version_type_id));
        assert(s.len() > 0 && s[0] == first);
        let s = with_text(s, "slug"@, v.slug);
        assert(s.len() > 0 && s[0] == first);
        let s = with_number(s, "index"@, number_of(v.index));
        assert(s.len() > 0 && s[0] == first);
        let s = with_number(s, "pageSize"@, number_of(v.page_size));
        assert(s.len() > 0 && s[0] == first);
        assert(s == Self::pairs(v));
        lemma_joined_starts(s);
    }

    /// The pairs of a query stand in declaration order, each key at most
    /// once, whichever filters are given.
    pub proof fn lemma_declaration_order(v: SearchModsParametersV)
        ensures
            forall|i: int, j: int|
                0 <= i < j < Self::pairs(v).len() ==> key_rank(#[trigger] Self::pairs(v)[i].0)
                    < key_rank(#[trigger] Self::pairs(v)[j].0),
    {
        lemma_key_ranks();
        let s0 = seq![("gameId"@, decimal(v.game_id as nat))];
        assert(in_order_below(s0, 1)) by {
            reveal(in_order_below);
        }
        let s1 = with_number(s0, "classId"@, number_of(v.class_id));
        lemma_order_push(
            s0,
            1,
            "classId"@,
            match number_of(v.class_id) {
                Some(n) => Some(decimal(n as nat)),
                None => None,
            },
        );
        let s2 = with_number(s1, "categoryId"@, number_of(v.category_id));
        lemma_order_push(
            s1,
            2,
            "categoryId"@,
            match number_of(v.category_id) {
                Some(n) => Some(decimal(n as nat)),
                None => None,
            },
        );
        let s3 = with_text(s2, "gameVersion"@, v.game_version);
        lemma_order_push(
            s2,
            3,
            "gameVersion"@,
            match v.game_version {
                Some(t) => Some(percent_encoded(encode_utf8(t))),
                None => None,
            },
        );
        let s4 = with_text(s3, "searchFilter"@, v.search_filter);
        lemma_order_push(
            s3,
            4,
            "searchFilter"@,
            match v.search_filter {
                Some(t) => Some(percent_encoded(encode_utf8(t))),
                None => None,
            },
        );
        let s5 = with_number(s4, "sortField"@, sort_code(v.sort_field));
        lemma_order_push(
            s4,
            5,
            "sortField"@,
            match sort_code(v.sort_field) {
                Some(n) => Some(decimal(n as nat)),
                None => None,
            },
        );
        let s6 = with_word(s5, "sortOrder"@, order_word(v.sort_order));
        lemma_order_push(
            s5,
            6,
            "sortOrder"@,
            order_word(v.sort_order),
        );
        let s7 = with_number(s6, "modLoaderType"@, loader_code(v.mod_loader_type));
        lemma_order_push(
            s6,
            7,
            "modLoaderType"@,
            match loader_code(v.mod_loader_type) {
                Some(n) => Some(decimal(n as nat)),
                None => None,
            },
        );
        let s8 = with_number(s7, "gameVersionTypeId"@, number_of(v.game_version_type_id));
        lemma_order_push(
            s7,
            8,
            "gameVersionTypeId"@,
            match number_of(v.game_version_type_id) {
                Some(n) => Some(decimal(n as nat)),
                None => None,
            },
        );
        let s9 = with_text(s8, "slug"@, v.slug);
        lemma_order_push(
            s8,
            9,
            "slug"@,
            match v.slug {
                Some(t) => Some(percent_encoded(encode_utf8(t))),
                None => None,
            },
        );
        let s10 = with_number(s9, "index"@, number_of(v.index));
        lemma_order_push(
            s9,
            10,
            "index"@,
            match number_of(v.index) {
                Some(n) => Some(decimal(n as nat)),
                None => None,
            },
        );
        let s11 = with_number(s10, "pageSize"@, number_of(v.page_size));
        lemma_order_push(
            s10,
            11,
            "pageSize"@,
            match number_of(v.page_size) {
                Some(n) => Some(decimal(n as nat)),
                None => None,
            },
        );
        assert(s11 == Self::pairs(v));
        reveal(in_order_below);
    }

    /// Equal parameters give equal queries.
    pub proof fn lemma_query_deterministic(a: SearchModsParametersV, b: SearchModsParametersV)
        requires
            a == b,
        ensures
            Self::query(a) == Self::query(b),
    {
    }
}

} // verus!
