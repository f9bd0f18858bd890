//! Game versions and their types.

use vstd::prelude::*;
use crate::error::{DecodeError, JsonKind};
use crate::json::{
    Fields, Json, JsonV, Member, among, find, free_of, lemma_lookup_add, lemma_lookup_free,
    lemma_lookup_push, lemma_view_unfold, lemma_without, lemma_without_add, lemma_without_push,
    lookup, pairs_view, put, without,
};
use crate::schema::{
    Entity, append_fields, encode_texts, get_bool, get_i32, get_text, get_texts, get_u64,
    lemma_round_trip_texts, malformed, req_bool, req_i32, req_text, req_texts, req_u64, texts_json,
    unknown_fields, views,
};

verus! {

/// The versions of a game that share a type.
#[derive(Debug, PartialEq)]
pub struct GameVersionsByType {
    pub version_type: i32,
    pub versions: Vec<String>,
    /// The fields of the payload that the record does not know.
    pub dynamic_fields: Vec<Member>,
}

/// The model of a [`GameVersionsByType`].
pub struct GameVersionsByTypeV {
    pub version_type: i32,
    pub versions: Seq<Seq<char>>,
    pub dynamic_fields: Fields,
}

impl View for GameVersionsByType {
    type V = GameVersionsByTypeV;

    open spec fn view(&self) -> GameVersionsByTypeV {
        GameVersionsByTypeV {
            version_type: self.version_type,
            versions: views(self.versions@),
            dynamic_fields: pairs_view(self.dynamic_fields@),
        }
    }
}

impl GameVersionsByType {
    /// The known fields of a record as they are encoded, in declaration
    /// order; an absent optional field is left out.
    pub open spec fn known_fields(v: GameVersionsByTypeV) -> Fields {
        let s = Seq::<(Seq<char>, JsonV)>::empty();
        let s = s.push(("type"@, JsonV::Int(v.version_type as int)));
        let s = s.push(("versions"@, texts_json(v.versions)));
        s
    }

    /// The value that the overflow bag holds under `key`: the first one,
    /// where the payload held several.
    pub fn extra(&self, key: &str) -> (r: Option<&Json>)
        ensures
            match r {
                Some(j) => lookup(self@.dynamic_fields, key@) == Some(j@),
                None => lookup(self@.dynamic_fields, key@) is None,
            },
    {
        find(&self.dynamic_fields, key)
    }
}

impl Entity for GameVersionsByType {
    open spec fn names() -> Seq<&'static str> {
        seq![
            "type",
            "versions",
        ]
    }

    open spec fn decoded(j: JsonV) -> Result<GameVersionsByTypeV, DecodeError> {
        match j {
            JsonV::Obj(f) => {
                let version_type = req_i32(f, "type");
                let versions = req_texts(f, "versions");
                if version_type is Err {
                    Err(version_type->Err_0)
                } else if versions is Err {
                    Err(versions->Err_0)
                } else {
                    Ok(
                        GameVersionsByTypeV {
                            version_type: version_type->Ok_0,
                            versions: versions->Ok_0,
                            dynamic_fields: without(f, among(Self::names())),
                        },
                    )
                }
            },
            _ => Err(malformed("$", JsonKind::Object)),
        }
    }

    open spec fn encoded(v: GameVersionsByTypeV) -> JsonV {
        JsonV::Obj(Self::known_fields(v) + without(v.dynamic_fields, among(Self::names())))
    }

    open spec fn overflow(v: GameVersionsByTypeV) -> Fields {
        v.dynamic_fields
    }

    open spec fn with_overflow(v: GameVersionsByTypeV, bag: Fields) -> GameVersionsByTypeV {
        GameVersionsByTypeV { dynamic_fields: bag, ..v }
    }

    open spec fn valid(v: GameVersionsByTypeV) -> bool {
        free_of(v.dynamic_fields, among(Self::names()))
    }

    fn field_names() -> (r: Vec<&'static str>) {
        let mut r: Vec<&'static str> = Vec::new();
        r.push("type");
        r.push("versions");
        proof {
            assert(r@ =~= Self::names());
        }
        r
    }

    fn decode(j: &Json) -> (r: Result<GameVersionsByType, DecodeError>) {
        match j {
            Json::Object(fields) => {
                proof {
                    lemma_view_unfold(*j);
                }
                let version_type = get_i32(fields, "type")?;
                let versions = get_texts(fields, "versions")?;
                let dynamic_fields = unknown_fields(fields, &Self::field_names());
                Ok(GameVersionsByType { version_type, versions, dynamic_fields })
            },
            _ => Err(DecodeError::MalformedField { path: "$", expected: JsonKind::Object }),
        }
    }

    fn encode(&self) -> (j: Json) {
        let mut out: Vec<Member> = Vec::new();
        proof {
            assert(pairs_view(out@) =~= Seq::<(Seq<char>, JsonV)>::empty());
        }
        put(&mut out, "type", Json::Int(self.version_type as i128));
        put(&mut out, "versions", encode_texts(&self.versions));
        append_fields(&mut out, unknown_fields(&self.dynamic_fields, &Self::field_names()));
        let j = Json::Object(out);
        proof {
            lemma_view_unfold(j);
        }
        j
    }

    proof fn round_trip(v: GameVersionsByTypeV) {
        Self::lemma_known_fields(v);
        lemma_round_trip_texts(v.versions);
        let known = Self::known_fields(v);
        let bag = without(v.dynamic_fields, among(Self::names()));
        lemma_without(v.dynamic_fields, among(Self::names()));
        lemma_without_add(known, bag, among(Self::names()));
        Self::lemma_names();
        lemma_lookup_free(bag, among(Self::names()), "type"@);
        lemma_lookup_add(known, bag, "type"@);
        lemma_lookup_free(bag, among(Self::names()), "versions"@);
        lemma_lookup_add(known, bag, "versions"@);
        assert(without(known + bag, among(Self::names())) =~= v.dynamic_fields);
    }

    proof fn encoded_is_object(v: GameVersionsByTypeV) {
    }

    proof fn decoded_is_valid(j: JsonV) {
        if let JsonV::Obj(f) = j {
            lemma_without(f, among(Self::names()));
        }
    }

    proof fn unknown_fields_kept(f: Fields, g: Fields) {
        Self::lemma_names();
        assert(lookup(f, "type"@) == lookup(g, "type"@));
        assert(lookup(f, "versions"@) == lookup(g, "versions"@));
        lemma_without(f, among(Self::names()));
    }
}

impl GameVersionsByType {
    /// The known names are the listed ones, and no two of them are the
    /// same.
    pub proof fn lemma_names()
        ensures
            among(Self::names())("type"@),
            among(Self::names())("versions"@),
            "type"@ != "versions"@,
    {
        reveal_strlit("type");
        assert(Self::names()[0] == "type" && "type"@.len() == 4);
        reveal_strlit("versions");
        assert(Self::names()[1] == "versions" && "versions"@.len() == 8);
    }

    /// Under a known name the encoded record holds the known field, whatever
    /// the overflow bag holds under that name.
    pub proof fn lemma_known_wins(v: GameVersionsByTypeV, key: Seq<char>)
        requires
            among(Self::names())(key),
        ensures
            Self::encoded(v) matches JsonV::Obj(f) && lookup(f, key) == lookup(
                Self::known_fields(v),
                key,
            ),
    {
        let bag = without(v.dynamic_fields, among(Self::names()));
        lemma_without(v.dynamic_fields, among(Self::names()));
        lemma_lookup_free(bag, among(Self::names()), key);
        lemma_lookup_add(Self::known_fields(v), bag, key);
    }

    /// Each known field is found under its name in the encoded known
    /// fields, an absent one is not, and all of their names are known.
    pub proof fn lemma_known_fields(v: GameVersionsByTypeV)
        ensures
            lookup(Self::known_fields(v), "type"@) == Some(JsonV::Int(v.version_type as int)),
            lookup(Self::known_fields(v), "versions"@) == Some(texts_json(v.versions)),
            without(Self::known_fields(v), among(Self::names())) == Seq::<(Seq<char>, JsonV)>::empty(),
    {
        broadcast use lemma_lookup_push, lemma_without_push;

        Self::lemma_names();
        assert(without(Self::known_fields(v), among(Self::names())) =~= Seq::<(Seq<char>, JsonV)>::empty());
    }
}

/// A type of game version.
#[derive(Debug, PartialEq)]
pub struct GameVersionType {
    pub id: i32,
    pub game_id: i32,
    pub name: String,
    pub slug: String,
    pub is_syncable: bool,
    pub status: GameVersionTypeStatus,
    /// The fields of the payload that the record does not know.
    pub dynamic_fields: Vec<Member>,
}

/// The model of a [`GameVersionType`].
pub struct GameVersionTypeV {
    pub id: i32,
    pub game_id: i32,
    pub name: Seq<char>,
    pub slug: Seq<char>,
    pub is_syncable: bool,
    pub status: GameVersionTypeStatus,
    pub dynamic_fields: Fields,
}

impl View for GameVersionType {
    type V = GameVersionTypeV;

    open spec fn view(&self) -> GameVersionTypeV {
        GameVersionTypeV {
            id: self.id,
            game_id: self.game_id,
            name: self.name@,
            slug: self.slug@,
            is_syncable: self.is_syncable,
            status: self.status,
            dynamic_fields: pairs_view(self.dynamic_fields@),
        }
    }
}

impl GameVersionType {
    /// The known fields of a record as they are encoded, in declaration
    /// order; an absent optional field is left out.
    pub open spec fn known_fields(v: GameVersionTypeV) -> Fields {
        let s = Seq::<(Seq<char>, JsonV)>::empty();
        let s = s.push(("id"@, JsonV::Int(v.id as int)));
        let s = s.push(("gameId"@, JsonV::Int(v.game_id as int)));
        let s = s.push(("name"@, JsonV::Str(v.name)));
        let s = s.push(("slug"@, JsonV::Str(v.slug)));
        let s = s.push(("isSyncable"@, JsonV::Bool(v.is_syncable)));
        let s = s.push(("status"@, JsonV::Int(v.status.wire() as int)));
        s
    }

    /// The value that the overflow bag holds under `key`: the first one,
    /// where the payload held several.
    pub fn extra(&self, key: &str) -> (r: Option<&Json>)
        ensures
            match r {
                Some(j) => lookup(self@.dynamic_fields, key@) == Some(j@),
                None => lookup(self@.dynamic_fields, key@) is None,
            },
    {
        find(&self.dynamic_fields, key)
    }
}

impl Entity for GameVersionType {
    open spec fn names() -> Seq<&'static str> {
        seq![
            "id",
            "gameId",
            "name",
            "slug",
            "isSyncable",
            "status",
        ]
    }

    open spec fn decoded(j: JsonV) -> Result<GameVersionTypeV, DecodeError> {
        match j {
            JsonV::Obj(f) => {
                let id = req_i32(f, "id");
                let game_id = req_i32(f, "gameId");
                let name = req_text(f, "name");
                let slug = req_text(f, "slug");
                let is_syncable = req_bool(f, "isSyncable");
                let status = match req_u64(f, "status") {
                    Ok(code) => GameVersionTypeStatus::of_wire(code),
                    Err(e) => Err(e),
                };
                if id is Err {
                    Err(id->Err_0)
                } else if game_id is Err {
                    Err(game_id->Err_0)
                } else if name is Err {
                    Err(name->Err_0)
                } else if slug is Err {
                    Err(slug->Err_0)
                } else if is_syncable is Err {
                    Err(is_syncable->Err_0)
                } else if status is Err {
                    Err(status->Err_0)
                } else {
                    Ok(
                        GameVersionTypeV {
                            id: id->Ok_0,
                            game_id: game_id->Ok_0,
                            name: name->Ok_0,
                            slug: slug->Ok_0,
                            is_syncable: is_syncable->Ok_0,
                            status: status->Ok_0,
                            dynamic_fields: without(f, among(Self::names())),
                        },
                    )
                }
            },
            _ => Err(malformed("$", JsonKind::Object)),
        }
    }

    open spec fn encoded(v: GameVersionTypeV) -> JsonV {
        JsonV::Obj(Self::known_fields(v) + without(v.dynamic_fields, among(Self::names())))
    }

    open spec fn overflow(v: GameVersionTypeV) -> Fields {
        v.dynamic_fields
    }

    open spec fn with_overflow(v: GameVersionTypeV, bag: Fields) -> GameVersionTypeV {
        GameVersionTypeV { dynamic_fields: bag, ..v }
    }

    open spec fn valid(v: GameVersionTypeV) -> bool {
        free_of(v.dynamic_fields, among(Self::names()))
    }

    fn field_names() -> (r: Vec<&'static str>) {
        let mut r: Vec<&'static str> = Vec::new();
        r.push("id");
        r.push("gameId");
        r.push("name");
        r.push("slug");
        r.push("isSyncable");
        r.push("status");
        proof {
            assert(r@ =~= Self::names());
        }
        r
    }

    fn decode(j: &Json) -> (r: Result<GameVersionType, DecodeError>) {
        match j {
            Json::Object(fields) => {
                proof {
                    lemma_view_unfold(*j);
                }
                let id = get_i32(fields, "id")?;
                let game_id = get_i32(fields, "gameId")?;
                let name = get_text(fields, "name")?;
                let slug = get_text(fields, "slug")?;
                let is_syncable = get_bool(fields, "isSyncable")?;
                let status = GameVersionTypeStatus::decode(get_u64(fields, "status")?)?;
                let dynamic_fields = unknown_fields(fields, &Self::field_names());
                Ok(GameVersionType { id, game_id, name, slug, is_syncable, status, dynamic_fields })
            },
            _ => Err(DecodeError::MalformedField { path: "$", expected: JsonKind::Object }),
        }
    }

    fn encode(&self) -> (j: Json) {
        let mut out: Vec<Member> = Vec::new();
        proof {
            assert(pairs_view(out@) =~= Seq::<(Seq<char>, JsonV)>::empty());
        }
        put(&mut out, "id", Json::Int(self.id as i128));
        put(&mut out, "gameId", Json::Int(self.game_id as i128));
        put(&mut out, "name", Json::Str(self.name.clone()));
        put(&mut out, "slug", Json::Str(self.slug.clone()));
        put(&mut out, "isSyncable", Json::Bool(self.is_syncable));
        put(&mut out, "status", Json::Int(self.status.encode() as i128));
        append_fields(&mut out, unknown_fields(&self.dynamic_fields, &Self::field_names()));
        let j = Json::Object(out);
        proof {
            lemma_view_unfold(j);
        }
        j
    }

    proof fn round_trip(v: GameVersionTypeV) {
        Self::lemma_known_fields(v);
        GameVersionTypeStatus::lemma_code_round_trip(v.status);
        let known = Self::known_fields(v);
        let bag = without(v.dynamic_fields, among(Self::names()));
        lemma_without(v.dynamic_fields, among(Self::names()));
        lemma_without_add(known, bag, among(Self::names()));
        Self::lemma_names();
        lemma_lookup_free(bag, among(Self::names()), "id"@);
        lemma_lookup_add(known, bag, "id"@);
        lemma_lookup_free(bag, among(Self::names()), "gameId"@);
        lemma_lookup_add(known, bag, "gameId"@);
        lemma_lookup_free(bag, among(Self::names()), "name"@);
        lemma_lookup_add(known, bag, "name"@);
        lemma_lookup_free(bag, among(Self::names()), "slug"@);
        lemma_lookup_add(known, bag, "slug"@);
        lemma_lookup_free(bag, among(Self::names()), "isSyncable"@);
        lemma_lookup_add(known, bag, "isSyncable"@);
        lemma_lookup_free(bag, among(Self::names()), "status"@);
        lemma_lookup_add(known, bag, "status"@);
        assert(without(known + bag, among(Self::names())) =~= v.dynamic_fields);
    }

    proof fn encoded_is_object(v: GameVersionTypeV) {
    }

    proof fn decoded_is_valid(j: JsonV) {
        if let JsonV::Obj(f) = j {
            lemma_without(f, among(Self::names()));
        }
    }

    proof fn unknown_fields_kept(f: Fields, g: Fields) {
        Self::lemma_names();
        assert(lookup(f, "id"@) == lookup(g, "id"@));
        assert(lookup(f, "gameId"@) == lookup(g, "gameId"@));
        assert(lookup(f, "name"@) == lookup(g, "name"@));
        assert(lookup(f, "slug"@) == lookup(g, "slug"@));
        assert(lookup(f, "isSyncable"@) == lookup(g, "isSyncable"@));
        assert(lookup(f, "status"@) == lookup(g, "status"@));
        lemma_without(f, among(Self::names()));
    }
}

impl GameVersionType {
    /// The known names are the listed ones, and no two of them are the
    /// same.
    pub proof fn lemma_names()
        ensures
            among(Self::names())("id"@),
            among(Self::names())("gameId"@),
            among(Self::names())("name"@),
            among(Self::names())("slug"@),
            among(Self::names())("isSyncable"@),
            among(Self::names())("status"@),
            "id"@ != "gameId"@,
            "id"@ != "name"@,
            "id"@ != "slug"@,
            "id"@ != "isSyncable"@,
            "id"@ != "status"@,
            "gameId"@ != "name"@,
            "gameId"@ != "slug"@,
            "gameId"@ != "isSyncable"@,
            "gameId"@ != "status"@,
            "name"@ != "slug"@,
            "name"@ != "isSyncable"@,
            "name"@ != "status"@,
            "slug"@ != "isSyncable"@,
            "slug"@ != "status"@,
            "isSyncable"@ != "status"@,
    {
        reveal_strlit("id");
        assert(Self::names()[0] == "id" && "id"@.len() == 2);
        reveal_strlit("gameId");
        assert(Self::names()[1] == "gameId" && "gameId"@.len() == 6);
        reveal_strlit("name");
        assert(Self::names()[2] == "name" && "name"@.len() == 4);
        reveal_strlit("slug");
        assert(Self::names()[3] == "slug" && "slug"@.len() == 4);
        reveal_strlit("isSyncable");
        assert(Self::names()[4] == "isSyncable" && "isSyncable"@.len() == 10);
        reveal_strlit("status");
        assert(Self::names()[5] == "status" && "status"@.len() == 6);
        assert("gameId"@[0] != "status"@[0]);
        assert("name"@[0] != "slug"@[0]);
    }

    /// Under a known name the encoded record holds the known field, whatever
    /// the overflow bag holds under that name.
    pub proof fn lemma_known_wins(v: GameVersionTypeV, key: Seq<char>)
        requires
            among(Self::names())(key),
        ensures
            Self::encoded(v) matches JsonV::Obj(f) && lookup(f, key) == lookup(
                Self::known_fields(v),
                key,
            ),
    {
        let bag = without(v.dynamic_fields, among(Self::names()));
        lemma_without(v.dynamic_fields, among(Self::names()));
        lemma_lookup_free(bag, among(Self::names()), key);
        lemma_lookup_add(Self::known_fields(v), bag, key);
    }

    /// Each known field is found under its name in the encoded known
    /// fields, an absent one is not, and all of their names are known.
    pub proof fn lemma_known_fields(v: GameVersionTypeV)
        ensures
            lookup(Self::known_fields(v), "id"@) == Some(JsonV::Int(v.id as int)),
            lookup(Self::known_fields(v), "gameId"@) == Some(JsonV::Int(v.game_id as int)),
            lookup(Self::known_fields(v), "name"@) == Some(JsonV::Str(v.name)),
            lookup(Self::known_fields(v), "slug"@) == Some(JsonV::Str(v.slug)),
            lookup(Self::known_fields(v), "isSyncable"@) == Some(JsonV::Bool(v.is_syncable)),
            lookup(Self::known_fields(v), "status"@) == Some(JsonV::Int(v.status.wire() as int)),
            without(Self::known_fields(v), among(Self::names())) == Seq::<(Seq<char>, JsonV)>::empty(),
    {
        broadcast use lemma_lookup_push, lemma_without_push;

        Self::lemma_names();
        assert(without(Self::known_fields(v), among(Self::names())) =~= Seq::<(Seq<char>, JsonV)>::empty());
    }
}

/// Whether a type of game version is still in use.
#[derive(Clone, Copy, Debug, PartialEq, Eq, Structural)]
pub enum GameVersionTypeStatus {
    Normal,
    Deleted,
}

impl GameVersionTypeStatus {
    /// The wire code of a variant.
    pub open spec fn wire(self) -> u64 {
        match self {
            GameVersionTypeStatus::Normal => 1,
            GameVersionTypeStatus::Deleted => 2,
        }
    }

    /// The variant that a wire code stands for; a code outside the table
    /// is a failure, never a default.
    pub open spec fn of_wire(code: u64) -> Result<GameVersionTypeStatus, DecodeError> {
        if code == 1 {
            Ok(GameVersionTypeStatus::Normal)
        } else if code == 2 {
            Ok(GameVersionTypeStatus::Deleted)
        } else {
            Err(DecodeError::UnrecognizedCode { value: code, enum_name: "GameVersionTypeStatus" })
        }
    }

    pub fn encode(&self) -> (code: u64)
        ensures
            code == self.wire(),
    {
        match self {
            GameVersionTypeStatus::Normal => 1,
            GameVersionTypeStatus::Deleted => 2,
        }
    }

    pub fn decode(code: u64) -> (r: Result<GameVersionTypeStatus, DecodeError>)
        ensures
            r == Self::of_wire(code),
    {
        match code {
            1 => Ok(GameVersionTypeStatus::Normal),
            2 => Ok(GameVersionTypeStatus::Deleted),
            _ => Err(DecodeError::UnrecognizedCode { value: code, enum_name: "GameVersionTypeStatus" }),
        }
    }

    /// Every variant has a code, and decoding that code gives the variant
    /// back.
    pub proof fn lemma_code_round_trip(v: GameVersionTypeStatus)
        ensures
            Self::of_wire(v.wire()) == Ok::<GameVersionTypeStatus, DecodeError>(v),
    {
    }

    /// A code decodes to the one variant that has it, and every other
    /// code is reported with its value and the enumeration's name.
    pub proof fn lemma_decode_exact(code: u64)
        ensures
            match Self::of_wire(code) {
                Ok(v) => v.wire() == code,
                Err(e) => e == (DecodeError::UnrecognizedCode { value: code, enum_name: "GameVersionTypeStatus" })
                    && forall|v: GameVersionTypeStatus| v.wire() != code,
            },
    {
    }
}

} // verus!
