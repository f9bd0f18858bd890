//! Games and their status.

use vstd::prelude::*;
use crate::error::{DecodeError, JsonKind};
use crate::json::{
    Fields, Json, JsonV, Member, among, find, free_of, lemma_lookup_add, lemma_lookup_free,
    lemma_lookup_push, lemma_view_unfold, lemma_without, lemma_without_add, lemma_without_push,
    lookup, pairs_view, put, without,
};
use crate::schema::{
    Entity, append_fields, get_i32, get_record, get_text, get_u64, malformed, req_i32, req_record,
    req_text, req_u64, unknown_fields,
};

verus! {

/// A game that mods are hosted for.
#[derive(Debug, PartialEq)]
pub struct Game {
    /// The game's number.
    pub id: i32,
    pub name: String,
    pub slug: String,
    pub date_modified: String,
    /// The game's pictures.
    pub assets: GameAssets,
    pub status: CoreStatus,
    pub api_status: CoreApiStatus,
    /// The fields of the payload that the record does not know.
    pub dynamic_fields: Vec<Member>,
}

/// The model of a [`Game`].
pub struct GameV {
    pub id: i32,
    pub name: Seq<char>,
    pub slug: Seq<char>,
    pub date_modified: Seq<char>,
    pub assets: GameAssetsV,
    pub status: CoreStatus,
    pub api_status: CoreApiStatus,
    pub dynamic_fields: Fields,
}

impl View for Game {
    type V = GameV;

    open spec fn view(&self) -> GameV {
        GameV {
            id: self.id,
            name: self.name@,
            slug: self.slug@,
            date_modified: self.date_modified@,
            assets: self.assets@,
            status: self.status,
            api_status: self.api_status,
            dynamic_fields: pairs_view(self.dynamic_fields@),
        }
    }
}

impl Game {
    /// The known fields of a record as they are encoded, in declaration
    /// order; an absent optional field is left out.
    pub open spec fn known_fields(v: GameV) -> Fields {
        let s = Seq::<(Seq<char>, JsonV)>::empty();
        let s = s.push(("id"@, JsonV::Int(v.id as int)));
        let s = s.push(("name"@, JsonV::Str(v.name)));
        let s = s.push(("slug"@, JsonV::Str(v.slug)));
        let s = s.push(("dateModified"@, JsonV::Str(v.date_modified)));
        let s = s.push(("assets"@, GameAssets::encoded(v.assets)));
        let s = s.push(("status"@, JsonV::Int(v.status.wire() as int)));
        let s = s.push(("apiStatus"@, JsonV::Int(v.api_status.wire() as int)));
        s
    }

    /// The value that the overflow bag holds under `key`: the first one,
    /// where the payload held several.
    pub fn extra(&self, key: &str) -> (r: Option<&Json>)
        ensures
            match r {
                Some(j) => lookup(self@.dynamic_fields, key@) == Some(j@),
                None => lookup(self@.dynamic_fields, key@) is None,
            },
    {
        find(&self.dynamic_fields, key)
    }
}

impl Entity for Game {
    open spec fn names() -> Seq<&'static str> {
        seq![
            "id",
            "name",
            "slug",
            "dateModified",
            "assets",
            "status",
            "apiStatus",
        ]
    }

    open spec fn decoded(j: JsonV) -> Result<GameV, DecodeError> {
        match j {
            JsonV::Obj(f) => {
                let id = req_i32(f, "id");
                let name = req_text(f, "name");
                let slug = req_text(f, "slug");
                let date_modified = req_text(f, "dateModified");
                let assets = req_record::<GameAssets>(f, "assets");
                let status = match req_u64(f, "status") {
                    Ok(code) => CoreStatus::of_wire(code),
                    Err(e) => Err(e),
                };
                let api_status = match req_u64(f, "apiStatus") {
                    Ok(code) => CoreApiStatus::of_wire(code),
                    Err(e) => Err(e),
                };
                if id is Err {
                    Err(id->Err_0)
                } else if name is Err {
                    Err(name->Err_0)
                } else if slug is Err {
                    Err(slug->Err_0)
                } else if date_modified is Err {
                    Err(date_modified->Err_0)
                } else if assets is Err {
                    Err(assets->Err_0)
                } else if status is Err {
                    Err(status->Err_0)
                } else if api_status is Err {
                    Err(api_status->Err_0)
                } else {
                    Ok(
                        GameV {
                            id: id->Ok_0,
                            name: name->Ok_0,
                            slug: slug->Ok_0,
                            date_modified: date_modified->Ok_0,
                            assets: assets->Ok_0,
                            status: status->Ok_0,
                            api_status: api_status->Ok_0,
                            dynamic_fields: without(f, among(Self::names())),
                        },
                    )
                }
            },
            _ => Err(malformed("$", JsonKind::Object)),
        }
    }

    open spec fn encoded(v: GameV) -> JsonV {
        JsonV::Obj(Self::known_fields(v) + without(v.dynamic_fields, among(Self::names())))
    }

    open spec fn overflow(v: GameV) -> Fields {
        v.dynamic_fields
    }

    open spec fn with_overflow(v: GameV, bag: Fields) -> GameV {
        GameV { dynamic_fields: bag, ..v }
    }

    open spec fn valid(v: GameV) -> bool {
        free_of(v.dynamic_fields, among(Self::names()))
        && GameAssets::valid(v.assets)
    }

    fn field_names() -> (r: Vec<&'static str>) {
        let mut r: Vec<&'static str> = Vec::new();
        r.push("id");
        r.push("name");
        r.push("slug");
        r.push("dateModified");
        r.push("assets");
        r.push("status");
        r.push("apiStatus");
        proof {
            assert(r@ =~= Self::names());
        }
        r
    }

    fn decode(j: &Json) -> (r: Result<Game, DecodeError>) {
        match j {
            Json::Object(fields) => {
                proof {
                    lemma_view_unfold(*j);
                }
                let id = get_i32(fields, "id")?;
                let name = get_text(fields, "name")?;
                let slug = get_text(fields, "slug")?;
                let date_modified = get_text(fields, "dateModified")?;
                let assets = get_record::<GameAssets>(fields, "assets")?;
                let status = CoreStatus::decode(get_u64(fields, "status")?)?;
                let api_status = CoreApiStatus::decode(get_u64(fields, "apiStatus")?)?;
                let dynamic_fields = unknown_fields(fields, &Self::field_names());
                Ok(Game { id, name, slug, date_modified, assets, status, api_status, dynamic_fields })
            },
            _ => Err(DecodeError::MalformedField { path: "$", expected: JsonKind::Object }),
        }
    }

    fn encode(&self) -> (j: Json) {
        let mut out: Vec<Member> = Vec::new();
        proof {
            assert(pairs_view(out@) =~= Seq::<(Seq<char>, JsonV)>::empty());
        }
        put(&mut out, "id", Json::Int(self.id as i128));
        put(&mut out, "name", Json::Str(self.name.clone()));
        put(&mut out, "slug", Json::Str(self.slug.clone()));
        put(&mut out, "dateModified", Json::Str(self.date_modified.clone()));
        put(&mut out, "assets", self.assets.encode());
        put(&mut out, "status", Json::Int(self.status.encode() as i128));
        put(&mut out, "apiStatus", Json::Int(self.api_status.encode() as i128));
        append_fields(&mut out, unknown_fields(&self.dynamic_fields, &Self::field_names()));
        let j = Json::Object(out);
        proof {
            lemma_view_unfold(j);
        }
        j
    }

    proof fn round_trip(v: GameV) {
        Self::lemma_known_fields(v);
        GameAssets::round_trip(v.assets);
        CoreStatus::lemma_code_round_trip(v.status);
        CoreApiStatus::lemma_code_round_trip(v.api_status);
        let known = Self::known_fields(v);
        let bag = without(v.dynamic_fields, among(Self::names()));
        lemma_without(v.dynamic_fields, among(Self::names()));
        lemma_without_add(known, bag, among(Self::names()));
        Self::lemma_names();
        lemma_lookup_free(bag, among(Self::names()), "id"@);
        lemma_lookup_add(known, bag, "id"@);
        lemma_lookup_free(bag, among(Self::names()), "name"@);
        lemma_lookup_add(known, bag, "name"@);
        lemma_lookup_free(bag, among(Self::names()), "slug"@);
        lemma_lookup_add(known, bag, "slug"@);
        lemma_lookup_free(bag, among(Self::names()), "dateModified"@);
        lemma_lookup_add(known, bag, "dateModified"@);
        lemma_lookup_free(bag, among(Self::names()), "assets"@);
        lemma_lookup_add(known, bag, "assets"@);
        lemma_lookup_free(bag, among(Self::names()), "status"@);
        lemma_lookup_add(known, bag, "status"@);
        lemma_lookup_free(bag, among(Self::names()), "apiStatus"@);
        lemma_lookup_add(known, bag, "apiStatus"@);
        assert(without(known + bag, among(Self::names())) =~= v.dynamic_fields);
    }

    proof fn encoded_is_object(v: GameV) {
    }

    proof fn decoded_is_valid(j: JsonV) {
        if let JsonV::Obj(f) = j {
            lemma_without(f, among(Self::names()));
            if let Some(inner) = lookup(f, "assets"@) {
                GameAssets::decoded_is_valid(inner);
            }
        }
    }

    proof fn unknown_fields_kept(f: Fields, g: Fields) {
        Self::lemma_names();
        assert(lookup(f, "id"@) == lookup(g, "id"@));
        assert(lookup(f, "name"@) == lookup(g, "name"@));
        assert(lookup(f, "slug"@) == lookup(g, "slug"@));
        assert(lookup(f, "dateModified"@) == lookup(g, "dateModified"@));
        assert(lookup(f, "assets"@) == lookup(g, "assets"@));
        assert(lookup(f, "status"@) == lookup(g, "status"@));
        assert(lookup(f, "apiStatus"@) == lookup(g, "apiStatus"@));
        lemma_without(f, among(Self::names()));
    }
}

impl Game {
    /// The known names are the listed ones, and no two of them are the
    /// same.
    pub proof fn lemma_names()
        ensures
            among(Self::names())("id"@),
            among(Self::names())("name"@),
            among(Self::names())("slug"@),
            among(Self::names())("dateModified"@),
            among(Self::names())("assets"@),
            among(Self::names())("status"@),
            among(Self::names())("apiStatus"@),
            "id"@ != "name"@,
            "id"@ != "slug"@,
            "id"@ != "dateModified"@,
            "id"@ != "assets"@,
            "id"@ != "status"@,
            "id"@ != "apiStatus"@,
            "name"@ != "slug"@,
            "name"@ != "dateModified"@,
            "name"@ != "assets"@,
            "name"@ != "status"@,
            "name"@ != "apiStatus"@,
            "slug"@ != "dateModified"@,
            "slug"@ != "assets"@,
            "slug"@ != "status"@,
            "slug"@ != "apiStatus"@,
            "dateModified"@ != "assets"@,
            "dateModified"@ != "status"@,
            "dateModified"@ != "apiStatus"@,
            "assets"@ != "status"@,
            "assets"@ != "apiStatus"@,
            "status"@ != "apiStatus"@,
    {
        reveal_strlit("id");
        assert(Self::names()[0] == "id" && "id"@.len() == 2);
        reveal_strlit("name");
        assert(Self::names()[1] == "name" && "name"@.len() == 4);
        reveal_strlit("slug");
        assert(Self::names()[2] == "slug" && "slug"@.len() == 4);
        reveal_strlit("dateModified");
        assert(Self::names()[3] == "dateModified" && "dateModified"@.len() == 12);
        reveal_strlit("assets");
        assert(Self::names()[4] == "assets" && "assets"@.len() == 6);
        reveal_strlit("status");
        assert(Self::names()[5] == "status" && "status"@.len() == 6);
        reveal_strlit("apiStatus");
        assert(Self::names()[6] == "apiStatus" && "apiStatus"@.len() == 9);
        assert("name"@[0] != "slug"@[0]);
        assert("assets"@[0] != "status"@[0]);
    }

    /// Under a known name the encoded record holds the known field, whatever
    /// the overflow bag holds under that name.
    pub proof fn lemma_known_wins(v: GameV, key: Seq<char>)
        requires
            among(Self::names())(key),
        ensures
            Self::encoded(v) matches JsonV::Obj(f) && lookup(f, key) == lookup(
                Self::known_fields(v),
                key,
            ),
    {
        let bag = without(v.dynamic_fields, among(Self::names()));
        lemma_without(v.dynamic_fields, among(Self::names()));
        lemma_lookup_free(bag, among(Self::names()), key);
        lemma_lookup_add(Self::known_fields(v), bag, key);
    }

    /// Each known field is found under its name in the encoded known
    /// fields, an absent one is not, and all of their names are known.
    pub proof fn lemma_known_fields(v: GameV)
        ensures
            lookup(Self::known_fields(v), "id"@) == Some(JsonV::Int(v.id as int)),
            lookup(Self::known_fields(v), "name"@) == Some(JsonV::Str(v.name)),
            lookup(Self::known_fields(v), "slug"@) == Some(JsonV::Str(v.slug)),
            lookup(Self::known_fields(v), "dateModified"@) == Some(JsonV::Str(v.date_modified)),
            lookup(Self::known_fields(v), "assets"@) == Some(GameAssets::encoded(v.assets)),
            lookup(Self::known_fields(v), "status"@) == Some(JsonV::Int(v.status.wire() as int)),
            lookup(Self::known_fields(v), "apiStatus"@) == Some(JsonV::Int(v.api_status.wire() as int)),
            without(Self::known_fields(v), among(Self::names())) == Seq::<(Seq<char>, JsonV)>::empty(),
    {
        broadcast use lemma_lookup_push, lemma_without_push;

        Self::lemma_names();
        assert(without(Self::known_fields(v), among(Self::names())) =~= Seq::<(Seq<char>, JsonV)>::empty());
    }
}

/// The pictures of a game.
#[derive(Debug, PartialEq)]
pub struct GameAssets {
    pub icon_url: String,
    pub tile_url: String,
    pub cover_url: String,
    /// The fields of the payload that the record does not know.
    pub dynamic_fields: Vec<Member>,
}

/// The model of a [`GameAssets`].
pub struct GameAssetsV {
    pub icon_url: Seq<char>,
    pub tile_url: Seq<char>,
    pub cover_url: Seq<char>,
    pub dynamic_fields: Fields,
}

impl View for GameAssets {
    type V = GameAssetsV;

    open spec fn view(&self) -> GameAssetsV {
        GameAssetsV {
            icon_url: self.icon_url@,
            tile_url: self.tile_url@,
            cover_url: self.cover_url@,
            dynamic_fields: pairs_view(self.dynamic_fields@),
        }
    }
}

impl GameAssets {
    /// The known fields of a record as they are encoded, in declaration
    /// order; an absent optional field is left out.
    pub open spec fn known_fields(v: GameAssetsV) -> Fields {
        let s = Seq::<(Seq<char>, JsonV)>::empty();
        let s = s.push(("iconUrl"@, JsonV::Str(v.icon_url)));
        let s = s.push(("tileUrl"@, JsonV::Str(v.tile_url)));
        let s = s.push(("coverUrl"@, JsonV::Str(v.cover_url)));
        s
    }

    /// The value that the overflow bag holds under `key`: the first one,
    /// where the payload held several.
    pub fn extra(&self, key: &str) -> (r: Option<&Json>)
        ensures
            match r {
                Some(j) => lookup(self@.dynamic_fields, key@) == Some(j@),
                None => lookup(self@.dynamic_fields, key@) is None,
            },
    {
        find(&self.dynamic_fields, key)
    }
}

impl Entity for GameAssets {
    open spec fn names() -> Seq<&'static str> {
        seq![
            "iconUrl",
            "tileUrl",
            "coverUrl",
        ]
    }

    open spec fn decoded(j: JsonV) -> Result<GameAssetsV, DecodeError> {
        match j {
            JsonV::Obj(f) => {
                let icon_url = req_text(f, "iconUrl");
                let tile_url = req_text(f, "tileUrl");
                let cover_url = req_text(f, "coverUrl");
                if icon_url is Err {
                    Err(icon_url->Err_0)
                } else if tile_url is Err {
                    Err(tile_url->Err_0)
                } else if cover_url is Err {
                    Err(cover_url->Err_0)
                } else {
                    Ok(
                        GameAssetsV {
                            icon_url: icon_url->Ok_0,
                            tile_url: tile_url->Ok_0,
                            cover_url: cover_url->Ok_0,
                            dynamic_fields: without(f, among(Self::names())),
                        },
                    )
                }
            },
            _ => Err(malformed("$", JsonKind::Object)),
        }
    }

    open spec fn encoded(v: GameAssetsV) -> JsonV {
        JsonV::Obj(Self::known_fields(v) + without(v.dynamic_fields, among(Self::names())))
    }

    open spec fn overflow(v: GameAssetsV) -> Fields {
        v.dynamic_fields
    }

    open spec fn with_overflow(v: GameAssetsV, bag: Fields) -> GameAssetsV {
        GameAssetsV { dynamic_fields: bag, ..v }
    }

    open spec fn valid(v: GameAssetsV) -> bool {
        free_of(v.dynamic_fields, among(Self::names()))
    }

    fn field_names() -> (r: Vec<&'static str>) {
        let mut r: Vec<&'static str> = Vec::new();
        r.push("iconUrl");
        r.push("tileUrl");
        r.push("coverUrl");
        proof {
            assert(r@ =~= Self::names());
        }
        r
    }

    fn decode(j: &Json) -> (r: Result<GameAssets, DecodeError>) {
        match j {
            Json::Object(fields) => {
                proof {
                    lemma_view_unfold(*j);
                }
                let icon_url = get_text(fields, "iconUrl")?;
                let tile_url = get_text(fields, "tileUrl")?;
                let cover_url = get_text(fields, "coverUrl")?;
                let dynamic_fields = unknown_fields(fields, &Self::field_names());
                Ok(GameAssets { icon_url, tile_url, cover_url, dynamic_fields })
            },
            _ => Err(DecodeError::MalformedField { path: "$", expected: JsonKind::Object }),
        }
    }

    fn encode(&self) -> (j: Json) {
        let mut out: Vec<Member> = Vec::new();
        proof {
            assert(pairs_view(out@) =~= Seq::<(Seq<char>, JsonV)>::empty());
        }
        put(&mut out, "iconUrl", Json::Str(self.icon_url.clone()));
        put(&mut out, "tileUrl", Json::Str(self.tile_url.clone()));
        put(&mut out, "coverUrl", Json::Str(self.cover_url.clone()));
        append_fields(&mut out, unknown_fields(&self.dynamic_fields, &Self::field_names()));
        let j = Json::Object(out);
        proof {
            lemma_view_unfold(j);
        }
        j
    }

    proof fn round_trip(v: GameAssetsV) {
        Self::lemma_known_fields(v);
        let known = Self::known_fields(v);
        let bag = without(v.dynamic_fields, among(Self::names()));
        lemma_without(v.dynamic_fields, among(Self::names()));
        lemma_without_add(known, bag, among(Self::names()));
        Self::lemma_names();
        lemma_lookup_free(bag, among(Self::names()), "iconUrl"@);
        lemma_lookup_add(known, bag, "iconUrl"@);
        lemma_lookup_free(bag, among(Self::names()), "tileUrl"@);
        lemma_lookup_add(known, bag, "tileUrl"@);
        lemma_lookup_free(bag, among(Self::names()), "coverUrl"@);
        lemma_lookup_add(known, bag, "coverUrl"@);
        assert(without(known + bag, among(Self::names())) =~= v.dynamic_fields);
    }

    proof fn encoded_is_object(v: GameAssetsV) {
    }

    proof fn decoded_is_valid(j: JsonV) {
        if let JsonV::Obj(f) = j {
            lemma_without(f, among(Self::names()));
        }
    }

    proof fn unknown_fields_kept(f: Fields, g: Fields) {
        Self::lemma_names();
        assert(lookup(f, "iconUrl"@) == lookup(g, "iconUrl"@));
        assert(lookup(f, "tileUrl"@) == lookup(g, "tileUrl"@));
        assert(lookup(f, "coverUrl"@) == lookup(g, "coverUrl"@));
        lemma_without(f, among(Self::names()));
    }
}

impl GameAssets {
    /// The known names are the listed ones, and no two of them are the
    /// same.
    pub proof fn lemma_names()
        ensures
            among(Self::names())("iconUrl"@),
            among(Self::names())("tileUrl"@),
            among(Self::names())("coverUrl"@),
            "iconUrl"@ != "tileUrl"@,
            "iconUrl"@ != "coverUrl"@,
            "tileUrl"@ != "coverUrl"@,
    {
        reveal_strlit("iconUrl");
        assert(Self::names()[0] == "iconUrl" && "iconUrl"@.len() == 7);
        reveal_strlit("tileUrl");
        assert(Self::names()[1] == "tileUrl" && "tileUrl"@.len() == 7);
        reveal_strlit("coverUrl");
        assert(Self::names()[2] == "coverUrl" && "coverUrl"@.len() == 8);
        assert("iconUrl"@[0] != "tileUrl"@[0]);
    }

    /// Under a known name the encoded record holds the known field, whatever
    /// the overflow bag holds under that name.
    pub proof fn lemma_known_wins(v: GameAssetsV, key: Seq<char>)
        requires
            among(Self::names())(key),
        ensures
            Self::encoded(v) matches JsonV::Obj(f) && lookup(f, key) == lookup(
                Self::known_fields(v),
                key,
            ),
    {
        let bag = without(v.dynamic_fields, among(Self::names()));
        lemma_without(v.dynamic_fields, among(Self::names()));
        lemma_lookup_free(bag, among(Self::names()), key);
        lemma_lookup_add(Self::known_fields(v), bag, key);
    }

    /// Each known field is found under its name in the encoded known
    /// fields, an absent one is not, and all of their names are known.
    pub proof fn lemma_known_fields(v: GameAssetsV)
        ensures
            lookup(Self::known_fields(v), "iconUrl"@) == Some(JsonV::Str(v.icon_url)),
            lookup(Self::known_fields(v), "tileUrl"@) == Some(JsonV::Str(v.tile_url)),
            lookup(Self::known_fields(v), "coverUrl"@) == Some(JsonV::Str(v.cover_url)),
            without(Self::known_fields(v), among(Self::names())) == Seq::<(Seq<char>, JsonV)>::empty(),
    {
        broadcast use lemma_lookup_push, lemma_without_push;

        Self::lemma_names();
        assert(without(Self::known_fields(v), among(Self::names())) =~= Seq::<(Seq<char>, JsonV)>::empty());
    }
}

/// How far a game has come on the site.
#[derive(Clone, Copy, Debug, PartialEq, Eq, Structural)]
pub enum CoreStatus {
    Draft,
    Test,
    PendingReview,
    Rejected,
    Approved,
    Live,
}

impl CoreStatus {
    /// The wire code of a variant.
    pub open spec fn wire(self) -> u64 {
        match self {
            CoreStatus::Draft => 1,
            CoreStatus::Test => 2,
            CoreStatus::PendingReview => 3,
            CoreStatus::Rejected => 4,
            CoreStatus::Approved => 5,
            CoreStatus::Live => 6,
        }
    }

    /// The variant that a wire code stands for; a code outside the table
    /// is a failure, never a default.
    pub open spec fn of_wire(code: u64) -> Result<CoreStatus, DecodeError> {
        if code == 1 {
            Ok(CoreStatus::Draft)
        } else if code == 2 {
            Ok(CoreStatus::Test)
        } else if code == 3 {
            Ok(CoreStatus::PendingReview)
        } else if code == 4 {
            Ok(CoreStatus::Rejected)
        } else if code == 5 {
            Ok(CoreStatus::Approved)
        } else if code == 6 {
            Ok(CoreStatus::Live)
        } else {
            Err(DecodeError::UnrecognizedCode { value: code, enum_name: "CoreStatus" })
        }
    }

    pub fn encode(&self) -> (code: u64)
        ensures
            code == self.wire(),
    {
        match self {
            CoreStatus::Draft => 1,
            CoreStatus::Test => 2,
            CoreStatus::PendingReview => 3,
            CoreStatus::Rejected => 4,
            CoreStatus::Approved => 5,
            CoreStatus::Live => 6,
        }
    }

    pub fn decode(code: u64) -> (r: Result<CoreStatus, DecodeError>)
        ensures
            r == Self::of_wire(code),
    {
        match code {
            1 => Ok(CoreStatus::Draft),
            2 => Ok(CoreStatus::Test),
            3 => Ok(CoreStatus::PendingReview),
            4 => Ok(CoreStatus::Rejected),
            5 => Ok(CoreStatus::Approved),
            6 => Ok(CoreStatus::Live),
            _ => Err(DecodeError::UnrecognizedCode { value: code, enum_name: "CoreStatus" }),
        }
    }

    /// Every variant has a code, and decoding that code gives the variant
    /// back.
    pub proof fn lemma_code_round_trip(v: CoreStatus)
        ensures
            Self::of_wire(v.wire()) == Ok::<CoreStatus, DecodeError>(v),
    {
    }

    /// A code decodes to the one variant that has it, and every other
    /// code is reported with its value and the enumeration's name.
    pub proof fn lemma_decode_exact(code: u64)
        ensures
            match Self::of_wire(code) {
                Ok(v) => v.wire() == code,
                Err(e) => e == (DecodeError::UnrecognizedCode { value: code, enum_name: "CoreStatus" })
                    && forall|v: CoreStatus| v.wire() != code,
            },
    {
    }
}

/// Whether the API shows a game.
#[derive(Clone, Copy, Debug, PartialEq, Eq, Structural)]
pub enum CoreApiStatus {
    Private,
    Public,
}

impl CoreApiStatus {
    /// The wire code of a variant.
    pub open spec fn wire(self) -> u64 {
        match self {
            CoreApiStatus::Private => 1,
            CoreApiStatus::Public => 2,
        }
    }

    /// The variant that a wire code stands for; a code outside the table
    /// is a failure, never a default.
    pub open spec fn of_wire(code: u64) -> Result<CoreApiStatus, DecodeError> {
        if code == 1 {
            Ok(CoreApiStatus::Private)
        } else if code == 2 {
            Ok(CoreApiStatus::Public)
        } else {
            Err(DecodeError::UnrecognizedCode { value: code, enum_name: "CoreApiStatus" })
        }
    }

    pub fn encode(&self) -> (code: u64)
        ensures
            code == self.wire(),
    {
        match self {
            CoreApiStatus::Private => 1,
            CoreApiStatus::Public => 2,
        }
    }

    pub fn decode(code: u64) -> (r: Result<CoreApiStatus, DecodeError>)
        ensures
            r == Self::of_wire(code),
    {
        match code {
            1 => Ok(CoreApiStatus::Private),
            2 => Ok(CoreApiStatus::Public),
            _ => Err(DecodeError::UnrecognizedCode { value: code, enum_name: "CoreApiStatus" }),
        }
    }

    /// Every variant has a code, and decoding that code gives the variant
    /// back.
    pub proof fn lemma_code_round_trip(v: CoreApiStatus)
        ensures
            Self::of_wire(v.wire()) == Ok::<CoreApiStatus, DecodeError>(v),
    {
    }

    /// A code decodes to the one variant that has it, and every other
    /// code is reported with its value and the enumeration's name.
    pub proof fn lemma_decode_exact(code: u64)
        ensures
            match Self::of_wire(code) {
                Ok(v) => v.wire() == code,
                Err(e) => e == (DecodeError::UnrecognizedCode { value: code, enum_name: "CoreApiStatus" })
                    && forall|v: CoreApiStatus| v.wire() != code,
            },
    {
    }
}

} // verus!
