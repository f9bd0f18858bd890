//! Mods, their authors and their pictures.

use vstd::prelude::*;
use crate::error::{DecodeError, JsonKind};
use crate::json::{
    Fields, Json, JsonV, Member, among, find, free_of, lemma_lookup_add, lemma_lookup_free,
    lemma_lookup_push, lemma_view_unfold, lemma_without, lemma_without_add, lemma_without_push,
    lookup, pairs_view, put, without,
};
use crate::categories::{Category, CategoryV};
use crate::schema::{
    Entity, all_valid, append_fields, encode_all, encode_items, get_list, get_opt_u32, get_record,
    get_text, get_u32, get_u64, lemma_decode_all_valid, lemma_round_trip_all, malformed, opt_u32,
    req_list, req_record, req_text, req_u32, req_u64, unknown_fields, views,
};

verus! {

/// A mod.
#[derive(Debug, PartialEq)]
pub struct Mod {
    pub id: u32,
    pub game_id: u32,
    pub name: String,
    pub slug: String,
    pub summary: String,
    pub status: ModStatus,
    pub download_count: u64,
    pub primary_category_id: u32,
    pub categories: Vec<Category>,
    /// The class of the mod, where it has one.
    pub class_id: Option<u32>,
    pub authors: Vec<ModAuthor>,
    pub logo: ModAsset,
    pub main_file_id: u32,
    pub date_created: String,
    pub date_modified: String,
    pub date_released: String,
    /// The fields of the payload that the record does not know.
    pub dynamic_fields: Vec<Member>,
}

/// The model of a [`Mod`].
pub struct ModV {
    pub id: u32,
    pub game_id: u32,
    pub name: Seq<char>,
    pub slug: Seq<char>,
    pub summary: Seq<char>,
    pub status: ModStatus,
    pub download_count: u64,
    pub primary_category_id: u32,
    pub categories: Seq<CategoryV>,
    pub class_id: Option<u32>,
    pub authors: Seq<ModAuthorV>,
    pub logo: ModAssetV,
    pub main_file_id: u32,
    pub date_created: Seq<char>,
    pub date_modified: Seq<char>,
    pub date_released: Seq<char>,
    pub dynamic_fields: Fields,
}

impl View for Mod {
    type V = ModV;

    open spec fn view(&self) -> ModV {
        ModV {
            id: self.id,
            game_id: self.game_id,
            name: self.name@,
            slug: self.slug@,
            summary: self.summary@,
            status: self.status,
            download_count: self.download_count,
            primary_category_id: self.primary_category_id,
            categories: views(self.categories@),
            class_id: self.class_id,
            authors: views(self.authors@),
            logo: self.logo@,
            main_file_id: self.main_file_id,
            date_created: self.date_created@,
            date_modified: self.date_modified@,
            date_released: self.date_released@,
            dynamic_fields: pairs_view(self.dynamic_fields@),
        }
    }
}

impl Mod {
    /// The known fields of a record as they are encoded, in declaration
    /// order; an absent optional field is left out.
    pub open spec fn known_fields(v: ModV) -> Fields {
        let s = Seq::<(Seq<char>, JsonV)>::empty();
        let s = s.push(("id"@, JsonV::Int(v.id as int)));
        let s = s.push(("gameId"@, JsonV::Int(v.game_id as int)));
        let s = s.push(("name"@, JsonV::Str(v.name)));
        let s = s.push(("slug"@, JsonV::Str(v.slug)));
        let s = s.push(("summary"@, JsonV::Str(v.summary)));
        let s = s.push(("status"@, JsonV::Int(v.status.wire() as int)));
        let s = s.push(("downloadCount"@, JsonV::Int(v.download_count as int)));
        let s = s.push(("primaryCategoryId"@, JsonV::Int(v.primary_category_id as int)));
        let s = s.push(("categories"@, JsonV::Arr(encode_all::<Category>(v.categories))));
        let s = match v.class_id {
            Some(x) => s.push(("classId"@, JsonV::Int(x as int))),
            None => s,
        };
        let s = s.push(("authors"@, JsonV::Arr(encode_all::<ModAuthor>(v.authors))));
        let s = s.push(("logo"@, ModAsset::encoded(v.logo)));
        let s = s.push(("mainFileId"@, JsonV::Int(v.main_file_id as int)));
        let s = s.push(("dateCreated"@, JsonV::Str(v.date_created)));
        let s = s.push(("dateModified"@, JsonV::Str(v.date_modified)));
        let s = s.push(("dateReleased"@, JsonV::Str(v.date_released)));
        s
    }

    /// The value that the overflow bag holds under `key`: the first one,
    /// where the payload held several.
    pub fn extra(&self, key: &str) -> (r: Option<&Json>)
        ensures
            match r {
                Some(j) => lookup(self@.dynamic_fields, key@) == Some(j@),
                None => lookup(self@.dynamic_fields, key@) is None,
            },
    {
        find(&self.dynamic_fields, key)
    }
}

impl Entity for Mod {
    open spec fn names() -> Seq<&'static str> {
        seq![
            "id",
            "gameId",
            "name",
            "slug",
            "summary",
            "status",
            "downloadCount",
            "primaryCategoryId",
            "categories",
            "classId",
            "authors",
            "logo",
            "mainFileId",
            "dateCreated",
            "dateModified",
            "dateReleased",
        ]
    }

    open spec fn decoded(j: JsonV) -> Result<ModV, DecodeError> {
        match j {
            JsonV::Obj(f) => {
                let id = req_u32(f, "id");
                let game_id = req_u32(f, "gameId");
                let name = req_text(f, "name");
                let slug = req_text(f, "slug");
                let summary = req_text(f, "summary");
                let status = match req_u64(f, "status") {
                    Ok(code) => ModStatus::of_wire(code),
                    Err(e) => Err(e),
                };
                let download_count = req_u64(f, "downloadCount");
                let primary_category_id = req_u32(f, "primaryCategoryId");
                let categories = req_list::<Category>(f, "categories");
                let class_id = opt_u32(f, "classId");
                let authors = req_list::<ModAuthor>(f, "authors");
                let logo = req_record::<ModAsset>(f, "logo");
                let main_file_id = req_u32(f, "mainFileId");
                let date_created = req_text(f, "dateCreated");
                let date_modified = req_text(f, "dateModified");
                let date_released = req_text(f, "dateReleased");
                if id is Err {
                    Err(id->Err_0)
                } else if game_id is Err {
                    Err(game_id->Err_0)
                } else if name is Err {
                    Err(name->Err_0)
                } else if slug is Err {
                    Err(slug->Err_0)
                } else if summary is Err {
                    Err(summary->Err_0)
                } else if status is Err {
                    Err(status->Err_0)
                } else if download_count is Err {
                    Err(download_count->Err_0)
                } else if primary_category_id is Err {
                    Err(primary_category_id->Err_0)
                } else if categories is Err {
                    Err(categories->Err_0)
                } else if class_id is Err {
                    Err(class_id->Err_0)
                } else if authors is Err {
                    Err(authors->Err_0)
                } else if logo is Err {
                    Err(logo->Err_0)
                } else if main_file_id is Err {
                    Err(main_file_id->Err_0)
                } else if date_created is Err {
                    Err(date_created->Err_0)
                } else if date_modified is Err {
                    Err(date_modified->Err_0)
                } else if date_released is Err {
                    Err(date_released->Err_0)
                } else {
                    Ok(
                        ModV {
                            id: id->Ok_0,
                            game_id: game_id->Ok_0,
                            name: name->Ok_0,
                            slug: slug->Ok_0,
                            summary: summary->Ok_0,
                            status: status->Ok_0,
                            download_count: download_count->Ok_0,
                            primary_category_id: primary_category_id->Ok_0,
                            categories: categories->Ok_0,
                            class_id: class_id->Ok_0,
                            authors: authors->Ok_0,
                            logo: logo->Ok_0,
                            main_file_id: main_file_id->Ok_0,
                            date_created: date_created->Ok_0,
                            date_modified: date_modified->Ok_0,
                            date_released: date_released->Ok_0,
                            dynamic_fields: without(f, among(Self::names())),
                        },
                    )
                }
            },
            _ => Err(malformed("$", JsonKind::Object)),
        }
    }

    open spec fn encoded(v: ModV) -> JsonV {
        JsonV::Obj(Self::known_fields(v) + without(v.dynamic_fields, among(Self::names())))
    }

    open spec fn overflow(v: ModV) -> Fields {
        v.dynamic_fields
    }

    open spec fn with_overflow(v: ModV, bag: Fields) -> ModV {
        ModV { dynamic_fields: bag, ..v }
    }

    open spec fn valid(v: ModV) -> bool {
        free_of(v.dynamic_fields, among(Self::names()))
        && all_valid::<Category>(v.categories)
        && all_valid::<ModAuthor>(v.authors)
        && ModAsset::valid(v.logo)
    }

    fn field_names() -> (r: Vec<&'static str>) {
        let mut r: Vec<&'static str> = Vec::new();
        r.push("id");
        r.push("gameId");
        r.push("name");
        r.push("slug");
        r.push("summary");
        r.push("status");
        r.push("downloadCount");
        r.push("primaryCategoryId");
        r.push("categories");
        r.push("classId");
        r.push("authors");
        r.push("logo");
        r.push("mainFileId");
        r.push("dateCreated");
        r.push("dateModified");
        r.push("dateReleased");
        proof {
            assert(r@ =~= Self::names());
        }
        r
    }

    fn decode(j: &Json) -> (r: Result<Mod, DecodeError>) {
        match j {
            Json::Object(fields) => {
                proof {
                    lemma_view_unfold(*j);
                }
                let id = get_u32(fields, "id")?;
                let game_id = get_u32(fields, "gameId")?;
                let name = get_text(fields, "name")?;
                let slug = get_text(fields, "slug")?;
                let summary = get_text(fields, "summary")?;
                let status = ModStatus::decode(get_u64(fields, "status")?)?;
                let download_count = get_u64(fields, "downloadCount")?;
                let primary_category_id = get_u32(fields, "primaryCategoryId")?;
                let categories = get_list::<Category>(fields, "categories")?;
                let class_id = get_opt_u32(fields, "classId")?;
                let authors = get_list::<ModAuthor>(fields, "authors")?;
                let logo = get_record::<ModAsset>(fields, "logo")?;
                let main_file_id = get_u32(fields, "mainFileId")?;
                let date_created = get_text(fields, "dateCreated")?;
                let date_modified = get_text(fields, "dateModified")?;
                let date_released = get_text(fields, "dateReleased")?;
                let dynamic_fields = unknown_fields(fields, &Self::field_names());
                Ok(Mod { id, game_id, name, slug, summary, status, download_count, primary_category_id, categories, class_id, authors, logo, main_file_id, date_created, date_modified, date_released, dynamic_fields })
            },
            _ => Err(DecodeError::MalformedField { path: "$", expected: JsonKind::Object }),
        }
    }

    fn encode(&self) -> (j: Json) {
        let mut out: Vec<Member> = Vec::new();
        proof {
            assert(pairs_view(out@) =~= Seq::<(Seq<char>, JsonV)>::empty());
        }
        put(&mut out, "id", Json::Int(self.id as i128));
        put(&mut out, "gameId", Json::Int(self.game_id as i128));
        put(&mut out, "name", Json::Str(self.name.clone()));
        put(&mut out, "slug", Json::Str(self.slug.clone()));
        put(&mut out, "summary", Json::Str(self.summary.clone()));
        put(&mut out, "status", Json::Int(self.status.encode() as i128));
        put(&mut out, "downloadCount", Json::Int(self.download_count as i128));
        put(&mut out, "primaryCategoryId", Json::Int(self.primary_category_id as i128));
        put(&mut out, "categories", encode_items::<Category>(&self.categories));
        if let Some(x) = self.class_id {
            put(&mut out, "classId", Json::Int(x as i128));
        }
        put(&mut out, "authors", encode_items::<ModAuthor>(&self.authors));
        put(&mut out, "logo", self.logo.encode());
        put(&mut out, "mainFileId", Json::Int(self.main_file_id as i128));
        put(&mut out, "dateCreated", Json::Str(self.date_created.clone()));
        put(&mut out, "dateModified", Json::Str(self.date_modified.clone()));
        put(&mut out, "dateReleased", Json::Str(self.date_released.clone()));
        append_fields(&mut out, unknown_fields(&self.dynamic_fields, &Self::field_names()));
        let j = Json::Object(out);
        proof {
            lemma_view_unfold(j);
        }
        j
    }

    proof fn round_trip(v: ModV) {
        Self::lemma_known_fields(v);
        ModStatus::lemma_code_round_trip(v.status);
        lemma_round_trip_all::<Category>(v.categories);
        lemma_round_trip_all::<ModAuthor>(v.authors);
        ModAsset::round_trip(v.logo);
        let known = Self::known_fields(v);
        let bag = without(v.dynamic_fields, among(Self::names()));
        lemma_without(v.dynamic_fields, among(Self::names()));
        lemma_without_add(known, bag, among(Self::names()));
        Self::lemma_names();
        lemma_lookup_free(bag, among(Self::names()), "id"@);
        lemma_lookup_add(known, bag, "id"@);
        lemma_lookup_free(bag, among(Self::names()), "gameId"@);
        lemma_lookup_add(known, bag, "gameId"@);
        lemma_lookup_free(bag, among(Self::names()), "name"@);
        lemma_lookup_add(known, bag, "name"@);
        lemma_lookup_free(bag, among(Self::names()), "slug"@);
        lemma_lookup_add(known, bag, "slug"@);
        lemma_lookup_free(bag, among(Self::names()), "summary"@);
        lemma_lookup_add(known, bag, "summary"@);
        lemma_lookup_free(bag, among(Self::names()), "status"@);
        lemma_lookup_add(known, bag, "status"@);
        lemma_lookup_free(bag, among(Self::names()), "downloadCount"@);
        lemma_lookup_add(known, bag, "downloadCount"@);
        lemma_lookup_free(bag, among(Self::names()), "primaryCategoryId"@);
        lemma_lookup_add(known, bag, "primaryCategoryId"@);
        lemma_lookup_free(bag, among(Self::names()), "categories"@);
        lemma_lookup_add(known, bag, "categories"@);
        lemma_lookup_free(bag, among(Self::names()), "classId"@);
        lemma_lookup_add(known, bag, "classId"@);
        lemma_lookup_free(bag, among(Self::names()), "authors"@);
        lemma_lookup_add(known, bag, "authors"@);
        lemma_lookup_free(bag, among(Self::names()), "logo"@);
        lemma_lookup_add(known, bag, "logo"@);
        lemma_lookup_free(bag, among(Self::names()), "mainFileId"@);
        lemma_lookup_add(known, bag, "mainFileId"@);
        lemma_lookup_free(bag, among(Self::names()), "dateCreated"@);
        lemma_lookup_add(known, bag, "dateCreated"@);
        lemma_lookup_free(bag, among(Self::names()), "dateModified"@);
        lemma_lookup_add(known, bag, "dateModified"@);
        lemma_lookup_free(bag, among(Self::names()), "dateReleased"@);
        lemma_lookup_add(known, bag, "dateReleased"@);
        assert(without(known + bag, among(Self::names())) =~= v.dynamic_fields);
    }

    proof fn encoded_is_object(v: ModV) {
    }

    proof fn decoded_is_valid(j: JsonV) {
        if let JsonV::Obj(f) = j {
            lemma_without(f, among(Self::names()));
            if let Some(JsonV::Arr(items)) = lookup(f, "categories"@) {
                lemma_decode_all_valid::<Category>(items);
            }
            if let Some(JsonV::Arr(items)) = lookup(f, "authors"@) {
                lemma_decode_all_valid::<ModAuthor>(items);
            }
            if let Some(inner) = lookup(f, "logo"@) {
                ModAsset::decoded_is_valid(inner);
            }
        }
    }

    proof fn unknown_fields_kept(f: Fields, g: Fields) {
        Self::lemma_names();
        assert(lookup(f, "id"@) == lookup(g, "id"@));
        assert(lookup(f, "gameId"@) == lookup(g, "gameId"@));
        assert(lookup(f, "name"@) == lookup(g, "name"@));
        assert(lookup(f, "slug"@) == lookup(g, "slug"@));
        assert(lookup(f, "summary"@) == lookup(g, "summary"@));
        assert(lookup(f, "status"@) == lookup(g, "status"@));
        assert(lookup(f, "downloadCount"@) == lookup(g, "downloadCount"@));
        assert(lookup(f, "primaryCategoryId"@) == lookup(g, "primaryCategoryId"@));
        assert(lookup(f, "categories"@) == lookup(g, "categories"@));
        assert(lookup(f, "classId"@) == lookup(g, "classId"@));
        assert(lookup(f, "authors"@) == lookup(g, "authors"@));
        assert(lookup(f, "logo"@) == lookup(g, "logo"@));
        assert(lookup(f, "mainFileId"@) == lookup(g, "mainFileId"@));
        assert(lookup(f, "dateCreated"@) == lookup(g, "dateCreated"@));
        assert(lookup(f, "dateModified"@) == lookup(g, "dateModified"@));
        assert(lookup(f, "dateReleased"@) == lookup(g, "dateReleased"@));
        lemma_without(f, among(Self::names()));
    }
}

impl Mod {
    /// The known names are the listed ones, and no two of them are the
    /// same.
    pub proof fn lemma_names()
        ensures
            among(Self::names())("id"@),
            among(Self::names())("gameId"@),
            among(Self::names())("name"@),
            among(Self::names())("slug"@),
            among(Self::names())("summary"@),
            among(Self::names())("status"@),
            among(Self::names())("downloadCount"@),
            among(Self::names())("primaryCategoryId"@),
            among(Self::names())("categories"@),
            among(Self::names())("classId"@),
            among(Self::names())("authors"@),
            among(Self::names())("logo"@),
            among(Self::names())("mainFileId"@),
            among(Self::names())("dateCreated"@),
            among(Self::names())("dateModified"@),
            among(Self::names())("dateReleased"@),
            "id"@ != "gameId"@,
            "id"@ != "name"@,
            "id"@ != "slug"@,
            "id"@ != "summary"@,
            "id"@ != "status"@,
            "id"@ != "downloadCount"@,
            "id"@ != "primaryCategoryId"@,
            "id"@ != "categories"@,
            "id"@ != "classId"@,
            "id"@ != "authors"@,
            "id"@ != "logo"@,
            "id"@ != "mainFileId"@,
            "id"@ != "dateCreated"@,
            "id"@ != "dateModified"@,
            "id"@ != "dateReleased"@,
            "gameId"@ != "name"@,
            "gameId"@ != "slug"@,
            "gameId"@ != "summary"@,
            "gameId"@ != "status"@,
            "gameId"@ != "downloadCount"@,
            "gameId"@ != "primaryCategoryId"@,
            "gameId"@ != "categories"@,
            "gameId"@ != "classId"@,
            "gameId"@ != "authors"@,
            "gameId"@ != "logo"@,
            "gameId"@ != "mainFileId"@,
            "gameId"@ != "dateCreated"@,
            "gameId"@ != "dateModified"@,
            "gameId"@ != "dateReleased"@,
            "name"@ != "slug"@,
            "name"@ != "summary"@,
            "name"@ != "status"@,
            "name"@ != "downloadCount"@,
            "name"@ != "primaryCategoryId"@,
            "name"@ != "categories"@,
            "name"@ != "classId"@,
            "name"@ != "authors"@,
            "name"@ != "logo"@,
            "name"@ != "mainFileId"@,
            "name"@ != "dateCreated"@,
            "name"@ != "dateModified"@,
            "name"@ != "dateReleased"@,
            "slug"@ != "summary"@,
            "slug"@ != "status"@,
            "slug"@ != "downloadCount"@,
            "slug"@ != "primaryCategoryId"@,
            "slug"@ != "categories"@,
            "slug"@ != "classId"@,
            "slug"@ != "authors"@,
            "slug"@ != "logo"@,
            "slug"@ != "mainFileId"@,
            "slug"@ != "dateCreated"@,
            "slug"@ != "dateModified"@,
            "slug"@ != "dateReleased"@,
            "summary"@ != "status"@,
            "summary"@ != "downloadCount"@,
            "summary"@ != "primaryCategoryId"@,
            "summary"@ != "categories"@,
            "summary"@ != "classId"@,
            "summary"@ != "authors"@,
            "summary"@ != "logo"@,
            "summary"@ != "mainFileId"@,
            "summary"@ != "dateCreated"@,
            "summary"@ != "dateModified"@,
            "summary"@ != "dateReleased"@,
            "status"@ != "downloadCount"@,
            "status"@ != "primaryCategoryId"@,
            "status"@ != "categories"@,
            "status"@ != "classId"@,
            "status"@ != "authors"@,
            "status"@ != "logo"@,
            "status"@ != "mainFileId"@,
            "status"@ != "dateCreated"@,
            "status"@ != "dateModified"@,
            "status"@ != "dateReleased"@,
            "downloadCount"@ != "primaryCategoryId"@,
            "downloadCount"@ != "categories"@,
            "downloadCount"@ != "classId"@,
            "downloadCount"@ != "authors"@,
            "downloadCount"@ != "logo"@,
            "downloadCount"@ != "mainFileId"@,
            "downloadCount"@ != "dateCreated"@,
            "downloadCount"@ != "dateModified"@,
            "downloadCount"@ != "dateReleased"@,
            "primaryCategoryId"@ != "categories"@,
            "primaryCategoryId"@ != "classId"@,
            "primaryCategoryId"@ != "authors"@,
            "primaryCategoryId"@ != "logo"@,
            "primaryCategoryId"@ != "mainFileId"@,
            "primaryCategoryId"@ != "dateCreated"@,
            "primaryCategoryId"@ != "dateModified"@,
            "primaryCategoryId"@ != "dateReleased"@,
            "categories"@ != "classId"@,
            "categories"@ != "authors"@,
            "categories"@ != "logo"@,
            "categories"@ != "mainFileId"@,
            "categories"@ != "dateCreated"@,
            "categories"@ != "dateModified"@,
            "categories"@ != "dateReleased"@,
            "classId"@ != "authors"@,
            "classId"@ != "logo"@,
            "classId"@ != "mainFileId"@,
            "classId"@ != "dateCreated"@,
            "classId"@ != "dateModified"@,
            "classId"@ != "dateReleased"@,
            "authors"@ != "logo"@,
            "authors"@ != "mainFileId"@,
            "authors"@ != "dateCreated"@,
            "authors"@ != "dateModified"@,
            "authors"@ != "dateReleased"@,
            "logo"@ != "mainFileId"@,
            "logo"@ != "dateCreated"@,
            "logo"@ != "dateModified"@,
            "logo"@ != "dateReleased"@,
            "mainFileId"@ != "dateCreated"@,
            "mainFileId"@ != "dateModified"@,
            "mainFileId"@ != "dateReleased"@,
            "dateCreated"@ != "dateModified"@,
            "dateCreated"@ != "dateReleased"@,
            "dateModified"@ != "dateReleased"@,
    {
        reveal_strlit("id");
        assert(Self::names()[0] == "id" && "id"@.len() == 2);
        reveal_strlit("gameId");
        assert(Self::names()[1] == "gameId" && "gameId"@.len() == 6);
        reveal_strlit("name");
        assert(Self::names()[2] == "name" && "name"@.len() == 4);
        reveal_strlit("slug");
        assert(Self::names()[3] == "slug" && "slug"@.len() == 4);
        reveal_strlit("summary");
        assert(Self::names()[4] == "summary" && "summary"@.len() == 7);
        reveal_strlit("status");
        assert(Self::names()[5] == "status" && "status"@.len() == 6);
        reveal_strlit("downloadCount");
        assert(Self::names()[6] == "downloadCount" && "downloadCount"@.len() == 13);
        reveal_strlit("primaryCategoryId");
        assert(Self::names()[7] == "primaryCategoryId" && "primaryCategoryId"@.len() == 17);
        reveal_strlit("categories");
        assert(Self::names()[8] == "categories" && "categories"@.len() == 10);
        reveal_strlit("classId");
        assert(Self::names()[9] == "classId" && "classId"@.len() == 7);
        reveal_strlit("authors");
        assert(Self::names()[10] == "authors" && "authors"@.len() == 7);
        reveal_strlit("logo");
        assert(Self::names()[11] == "logo" && "logo"@.len() == 4);
        reveal_strlit("mainFileId");
        assert(Self::names()[12] == "mainFileId" && "mainFileId"@.len() == 10);
        reveal_strlit("dateCreated");
        assert(Self::names()[13] == "dateCreated" && "dateCreated"@.len() == 11);
        reveal_strlit("dateModified");
        assert(Self::names()[14] == "dateModified" && "dateModified"@.len() == 12);
        reveal_strlit("dateReleased");
        assert(Self::names()[15] == "dateReleased" && "dateReleased"@.len() == 12);
        assert("gameId"@[0] != "status"@[0]);
        assert("name"@[0] != "slug"@[0]);
        assert("name"@[0] != "logo"@[0]);
        assert("slug"@[0] != "logo"@[0]);
        assert("summary"@[0] != "classId"@[0]);
        assert("summary"@[0] != "authors"@[0]);
        assert("categories"@[0] != "mainFileId"@[0]);
        assert("classId"@[0] != "authors"@[0]);
        assert("dateModified"@[4] != "dateReleased"@[4]);
    }

    /// Under a known name the encoded record holds the known field, whatever
    /// the overflow bag holds under that name.
    pub proof fn lemma_known_wins(v: ModV, key: Seq<char>)
        requires
            among(Self::names())(key),
        ensures
            Self::encoded(v) matches JsonV::Obj(f) && lookup(f, key) == lookup(
                Self::known_fields(v),
                key,
            ),
    {
        let bag = without(v.dynamic_fields, among(Self::names()));
        lemma_without(v.dynamic_fields, among(Self::names()));
        lemma_lookup_free(bag, among(Self::names()), key);
        lemma_lookup_add(Self::known_fields(v), bag, key);
    }

    /// Each known field is found under its name in the encoded known
    /// fields, an absent one is not, and all of their names are known.
    pub proof fn lemma_known_fields(v: ModV)
        ensures
            lookup(Self::known_fields(v), "id"@) == Some(JsonV::Int(v.id as int)),
            lookup(Self::known_fields(v), "gameId"@) == Some(JsonV::Int(v.game_id as int)),
            lookup(Self::known_fields(v), "name"@) == Some(JsonV::Str(v.name)),
            lookup(Self::known_fields(v), "slug"@) == Some(JsonV::Str(v.slug)),
            lookup(Self::known_fields(v), "summary"@) == Some(JsonV::Str(v.summary)),
            lookup(Self::known_fields(v), "status"@) == Some(JsonV::Int(v.status.wire() as int)),
            lookup(Self::known_fields(v), "downloadCount"@) == Some(JsonV::Int(v.download_count as int)),
            lookup(Self::known_fields(v), "primaryCategoryId"@) == Some(JsonV::Int(v.primary_category_id as int)),
            lookup(Self::known_fields(v), "categories"@) == Some(JsonV::Arr(encode_all::<Category>(v.categories))),
            lookup(Self::known_fields(v), "classId"@) == match v.class_id {
                Some(x) => Some(JsonV::Int(x as int)),
                None => None,
            },
            lookup(Self::known_fields(v), "authors"@) == Some(JsonV::Arr(encode_all::<ModAuthor>(v.authors))),
            lookup(Self::known_fields(v), "logo"@) == Some(ModAsset::encoded(v.logo)),
            lookup(Self::known_fields(v), "mainFileId"@) == Some(JsonV::Int(v.main_file_id as int)),
            lookup(Self::known_fields(v), "dateCreated"@) == Some(JsonV::Str(v.date_created)),
            lookup(Self::known_fields(v), "dateModified"@) == Some(JsonV::Str(v.date_modified)),
            lookup(Self::known_fields(v), "dateReleased"@) == Some(JsonV::Str(v.date_released)),
            without(Self::known_fields(v), among(Self::names())) == Seq::<(Seq<char>, JsonV)>::empty(),
    {
        broadcast use lemma_lookup_push, lemma_without_push;

        Self::lemma_names();
        assert(without(Self::known_fields(v), among(Self::names())) =~= Seq::<(Seq<char>, JsonV)>::empty());
    }
}

/// The places on the web that a mod points to.
#[derive(Debug, PartialEq)]
pub struct ModLinks {
    pub website_url: String,
    pub wiki_url: String,
    pub issues_url: String,
    pub source_url: String,
    /// The fields of the payload that the record does not know.
    pub dynamic_fields: Vec<Member>,
}

/// The model of a [`ModLinks`].
pub struct ModLinksV {
    pub website_url: Seq<char>,
    pub wiki_url: Seq<char>,
    pub issues_url: Seq<char>,
    pub source_url: Seq<char>,
    pub dynamic_fields: Fields,
}

impl View for ModLinks {
    type V = ModLinksV;

    open spec fn view(&self) -> ModLinksV {
        ModLinksV {
            website_url: self.website_url@,
            wiki_url: self.wiki_url@,
            issues_url: self.issues_url@,
            source_url: self.source_url@,
            dynamic_fields: pairs_view(self.dynamic_fields@),
        }
    }
}

impl ModLinks {
    /// The known fields of a record as they are encoded, in declaration
    /// order; an absent optional field is left out.
    pub open spec fn known_fields(v: ModLinksV) -> Fields {
        let s = Seq::<(Seq<char>, JsonV)>::empty();
        let s = s.push(("websiteUrl"@, JsonV::Str(v.website_url)));
        let s = s.push(("wikiUrl"@, JsonV::Str(v.wiki_url)));
        let s = s.push(("issuesUrl"@, JsonV::Str(v.issues_url)));
        let s = s.push(("sourceUrl"@, JsonV::Str(v.source_url)));
        s
    }

    /// The value that the overflow bag holds under `key`: the first one,
    /// where the payload held several.
    pub fn extra(&self, key: &str) -> (r: Option<&Json>)
        ensures
            match r {
                Some(j) => lookup(self@.dynamic_fields, key@) == Some(j@),
                None => lookup(self@.dynamic_fields, key@) is None,
            },
    {
        find(&self.dynamic_fields, key)
    }
}

impl Entity for ModLinks {
    open spec fn names() -> Seq<&'static str> {
        seq![
            "websiteUrl",
            "wikiUrl",
            "issuesUrl",
            "sourceUrl",
        ]
    }

    open spec fn decoded(j: JsonV) -> Result<ModLinksV, DecodeError> {
        match j {
            JsonV::Obj(f) => {
                let website_url = req_text(f, "websiteUrl");
                let wiki_url = req_text(f, "wikiUrl");
                let issues_url = req_text(f, "issuesUrl");
                let source_url = req_text(f, "sourceUrl");
                if website_url is Err {
                    Err(website_url->Err_0)
                } else if wiki_url is Err {
                    Err(wiki_url->Err_0)
                } else if issues_url is Err {
                    Err(issues_url->Err_0)
                } else if source_url is Err {
                    Err(source_url->Err_0)
                } else {
                    Ok(
                        ModLinksV {
                            website_url: website_url->Ok_0,
                            wiki_url: wiki_url->Ok_0,
                            issues_url: issues_url->Ok_0,
                            source_url: source_url->Ok_0,
                            dynamic_fields: without(f, among(Self::names())),
                        },
                    )
                }
            },
            _ => Err(malformed("$", JsonKind::Object)),
        }
    }

    open spec fn encoded(v: ModLinksV) -> JsonV {
        JsonV::Obj(Self::known_fields(v) + without(v.dynamic_fields, among(Self::names())))
    }

    open spec fn overflow(v: ModLinksV) -> Fields {
        v.dynamic_fields
    }

    open spec fn with_overflow(v: ModLinksV, bag: Fields) -> ModLinksV {
        ModLinksV { dynamic_fields: bag, ..v }
    }

    open spec fn valid(v: ModLinksV) -> bool {
        free_of(v.dynamic_fields, among(Self::names()))
    }

    fn field_names() -> (r: Vec<&'static str>) {
        let mut r: Vec<&'static str> = Vec::new();
        r.push("websiteUrl");
        r.push("wikiUrl");
        r.push("issuesUrl");
        r.push("sourceUrl");
        proof {
            assert(r@ =~= Self::names());
        }
        r
    }

    fn decode(j: &Json) -> (r: Result<ModLinks, DecodeError>) {
        match j {
            Json::Object(fields) => {
                proof {
                    lemma_view_unfold(*j);
                }
                let website_url = get_text(fields, "websiteUrl")?;
                let wiki_url = get_text(fields, "wikiUrl")?;
                let issues_url = get_text(fields, "issuesUrl")?;
                let source_url = get_text(fields, "sourceUrl")?;
                let dynamic_fields = unknown_fields(fields, &Self::field_names());
                Ok(ModLinks { website_url, wiki_url, issues_url, source_url, dynamic_fields })
            },
            _ => Err(DecodeError::MalformedField { path: "$", expected: JsonKind::Object }),
        }
    }

    fn encode(&self) -> (j: Json) {
        let mut out: Vec<Member> = Vec::new();
        proof {
            assert(pairs_view(out@) =~= Seq::<(Seq<char>, JsonV)>::empty());
        }
        put(&mut out, "websiteUrl", Json::Str(self.website_url.clone()));
        put(&mut out, "wikiUrl", Json::Str(self.wiki_url.clone()));
        put(&mut out, "issuesUrl", Json::Str(self.issues_url.clone()));
        put(&mut out, "sourceUrl", Json::Str(self.source_url.clone()));
        append_fields(&mut out, unknown_fields(&self.dynamic_fields, &Self::field_names()));
        let j = Json::Object(out);
        proof {
            lemma_view_unfold(j);
        }
        j
    }

    proof fn round_trip(v: ModLinksV) {
        Self::lemma_known_fields(v);
        let known = Self::known_fields(v);
        let bag = without(v.dynamic_fields, among(Self::names()));
        lemma_without(v.dynamic_fields, among(Self::names()));
        lemma_without_add(known, bag, among(Self::names()));
        Self::lemma_names();
        lemma_lookup_free(bag, among(Self::names()), "websiteUrl"@);
        lemma_lookup_add(known, bag, "websiteUrl"@);
        lemma_lookup_free(bag, among(Self::names()), "wikiUrl"@);
        lemma_lookup_add(known, bag, "wikiUrl"@);
        lemma_lookup_free(bag, among(Self::names()), "issuesUrl"@);
        lemma_lookup_add(known, bag, "issuesUrl"@);
        lemma_lookup_free(bag, among(Self::names()), "sourceUrl"@);
        lemma_lookup_add(known, bag, "sourceUrl"@);
        assert(without(known + bag, among(Self::names())) =~= v.dynamic_fields);
    }

    proof fn encoded_is_object(v: ModLinksV) {
    }

    proof fn decoded_is_valid(j: JsonV) {
        if let JsonV::Obj(f) = j {
            lemma_without(f, among(Self::names()));
        }
    }

    proof fn unknown_fields_kept(f: Fields, g: Fields) {
        Self::lemma_names();
        assert(lookup(f, "websiteUrl"@) == lookup(g, "websiteUrl"@));
        assert(lookup(f, "wikiUrl"@) == lookup(g, "wikiUrl"@));
        assert(lookup(f, "issuesUrl"@) == lookup(g, "issuesUrl"@));
        assert(lookup(f, "sourceUrl"@) == lookup(g, "sourceUrl"@));
        lemma_without(f, among(Self::names()));
    }
}

impl ModLinks {
    /// The known names are the listed ones, and no two of them are the
    /// same.
    pub proof fn lemma_names()
        ensures
            among(Self::names())("websiteUrl"@),
            among(Self::names())("wikiUrl"@),
            among(Self::names())("issuesUrl"@),
            among(Self::names())("sourceUrl"@),
            "websiteUrl"@ != "wikiUrl"@,
            "websiteUrl"@ != "issuesUrl"@,
            "websiteUrl"@ != "sourceUrl"@,
            "wikiUrl"@ != "issuesUrl"@,
            "wikiUrl"@ != "sourceUrl"@,
            "issuesUrl"@ != "sourceUrl"@,
    {
        reveal_strlit("websiteUrl");
        assert(Self::names()[0] == "websiteUrl" && "websiteUrl"@.len() == 10);
        reveal_strlit("wikiUrl");
        assert(Self::names()[1] == "wikiUrl" && "wikiUrl"@.len() == 7);
        reveal_strlit("issuesUrl");
        assert(Self::names()[2] == "issuesUrl" && "issuesUrl"@.len() == 9);
        reveal_strlit("sourceUrl");
        assert(Self::names()[3] == "sourceUrl" && "sourceUrl"@.len() == 9);
        assert("issuesUrl"@[0] != "sourceUrl"@[0]);
    }

    /// Under a known name the encoded record holds the known field, whatever
    /// the overflow bag holds under that name.
    pub proof fn lemma_known_wins(v: ModLinksV, key: Seq<char>)
        requires
            among(Self::names())(key),
        ensures
            Self::encoded(v) matches JsonV::Obj(f) && lookup(f, key) == lookup(
                Self::known_fields(v),
                key,
            ),
    {
        let bag = without(v.dynamic_fields, among(Self::names()));
        lemma_without(v.dynamic_fields, among(Self::names()));
        lemma_lookup_free(bag, among(Self::names()), key);
        lemma_lookup_add(Self::known_fields(v), bag, key);
    }

    /// Each known field is found under its name in the encoded known
    /// fields, an absent one is not, and all of their names are known.
    pub proof fn lemma_known_fields(v: ModLinksV)
        ensures
            lookup(Self::known_fields(v), "websiteUrl"@) == Some(JsonV::Str(v.website_url)),
            lookup(Self::known_fields(v), "wikiUrl"@) == Some(JsonV::Str(v.wiki_url)),
            lookup(Self::known_fields(v), "issuesUrl"@) == Some(JsonV::Str(v.issues_url)),
            lookup(Self::known_fields(v), "sourceUrl"@) == Some(JsonV::Str(v.source_url)),
            without(Self::known_fields(v), among(Self::names())) == Seq::<(Seq<char>, JsonV)>::empty(),
    {
        broadcast use lemma_lookup_push, lemma_without_push;

        Self::lemma_names();
        assert(without(Self::known_fields(v), among(Self::names())) =~= Seq::<(Seq<char>, JsonV)>::empty());
    }
}

/// Where a mod stands in the site's review.
#[derive(Clone, Copy, Debug, PartialEq, Eq, Structural)]
pub enum ModStatus {
    New,
    ChangesRequired,
    UnderSoftReview,
    Approved,
    Rejected,
    ChangesMade,
    Inactive,
    Abandoned,
    Deleted,
    UnderReview,
}

impl ModStatus {
    /// The wire code of a variant.
    pub open spec fn wire(self) -> u64 {
        match self {
            ModStatus::New => 1,
            ModStatus::ChangesRequired => 2,
            ModStatus::UnderSoftReview => 3,
            ModStatus::Approved => 4,
            ModStatus::Rejected => 5,
            ModStatus::ChangesMade => 6,
            ModStatus::Inactive => 7,
            ModStatus::Abandoned => 8,
            ModStatus::Deleted => 9,
            ModStatus::UnderReview => 10,
        }
    }

    /// The variant that a wire code stands for; a code outside the table
    /// is a failure, never a default.
    pub open spec fn of_wire(code: u64) -> Result<ModStatus, DecodeError> {
        if code == 1 {
            Ok(ModStatus::New)
        } else if code == 2 {
            Ok(ModStatus::ChangesRequired)
        } else if code == 3 {
            Ok(ModStatus::UnderSoftReview)
        } else if code == 4 {
            Ok(ModStatus::Approved)
        } else if code == 5 {
            Ok(ModStatus::Rejected)
        } else if code == 6 {
            Ok(ModStatus::ChangesMade)
        } else if code == 7 {
            Ok(ModStatus::Inactive)
        } else if code == 8 {
            Ok(ModStatus::Abandoned)
        } else if code == 9 {
            Ok(ModStatus::Deleted)
        } else if code == 10 {
            Ok(ModStatus::UnderReview)
        } else {
            Err(DecodeError::UnrecognizedCode { value: code, enum_name: "ModStatus" })
        }
    }

    pub fn encode(&self) -> (code: u64)
        ensures
            code == self.wire(),
    {
        match self {
            ModStatus::New => 1,
            ModStatus::ChangesRequired => 2,
            ModStatus::UnderSoftReview => 3,
            ModStatus::Approved => 4,
            ModStatus::Rejected => 5,
            ModStatus::ChangesMade => 6,
            ModStatus::Inactive => 7,
            ModStatus::Abandoned => 8,
            ModStatus::Deleted => 9,
            ModStatus::UnderReview => 10,
        }
    }

    pub fn decode(code: u64) -> (r: Result<ModStatus, DecodeError>)
        ensures
            r == Self::of_wire(code),
    {
        match code {
            1 => Ok(ModStatus::New),
            2 => Ok(ModStatus::ChangesRequired),
            3 => Ok(ModStatus::UnderSoftReview),
            4 => Ok(ModStatus::Approved),
            5 => Ok(ModStatus::Rejected),
            6 => Ok(ModStatus::ChangesMade),
            7 => Ok(ModStatus::Inactive),
            8 => Ok(ModStatus::Abandoned),
            9 => Ok(ModStatus::Deleted),
            10 => Ok(ModStatus::UnderReview),
            _ => Err(DecodeError::UnrecognizedCode { value: code, enum_name: "ModStatus" }),
        }
    }

    /// Every variant has a code, and decoding that code gives the variant
    /// back.
    pub proof fn lemma_code_round_trip(v: ModStatus)
        ensures
            Self::of_wire(v.wire()) == Ok::<ModStatus, DecodeError>(v),
    {
    }

    /// A code decodes to the one variant that has it, and every other
    /// code is reported with its value and the enumeration's name.
    pub proof fn lemma_decode_exact(code: u64)
        ensures
            match Self::of_wire(code) {
                Ok(v) => v.wire() == code,
                Err(e) => e == (DecodeError::UnrecognizedCode { value: code, enum_name: "ModStatus" })
                    && forall|v: ModStatus| v.wire() != code,
            },
    {
    }
}

/// An author of a mod.
#[derive(Debug, PartialEq)]
pub struct ModAuthor {
    pub id: u32,
    pub name: String,
    pub url: String,
    /// The fields of the payload that the record does not know.
    pub dynamic_fields: Vec<Member>,
}

/// The model of a [`ModAuthor`].
pub struct ModAuthorV {
    pub id: u32,
    pub name: Seq<char>,
    pub url: Seq<char>,
    pub dynamic_fields: Fields,
}

impl View for ModAuthor {
    type V = ModAuthorV;

    open spec fn view(&self) -> ModAuthorV {
        ModAuthorV {
            id: self.id,
            name: self.name@,
            url: self.url@,
            dynamic_fields: pairs_view(self.dynamic_fields@),
        }
    }
}

impl ModAuthor {
    /// The known fields of a record as they are encoded, in declaration
    /// order; an absent optional field is left out.
    pub open spec fn known_fields(v: ModAuthorV) -> Fields {
        let s = Seq::<(Seq<char>, JsonV)>::empty();
        let s = s.push(("id"@, JsonV::Int(v.id as int)));
        let s = s.push(("name"@, JsonV::Str(v.name)));
        let s = s.push(("url"@, JsonV::Str(v.url)));
        s
    }

    /// The value that the overflow bag holds under `key`: the first one,
    /// where the payload held several.
    pub fn extra(&self, key: &str) -> (r: Option<&Json>)
        ensures
            match r {
                Some(j) => lookup(self@.dynamic_fields, key@) == Some(j@),
                None => lookup(self@.dynamic_fields, key@) is None,
            },
    {
        find(&self.dynamic_fields, key)
    }
}

impl Entity for ModAuthor {
    open spec fn names() -> Seq<&'static str> {
        seq![
            "id",
            "name",
            "url",
        ]
    }

    open spec fn decoded(j: JsonV) -> Result<ModAuthorV, DecodeError> {
        match j {
            JsonV::Obj(f) => {
                let id = req_u32(f, "id");
                let name = req_text(f, "name");
                let url = req_text(f, "url");
                if id is Err {
                    Err(id->Err_0)
                } else if name is Err {
                    Err(name->Err_0)
                } else if url is Err {
                    Err(url->Err_0)
                } else {
                    Ok(
                        ModAuthorV {
                            id: id->Ok_0,
                            name: name->Ok_0,
                            url: url->Ok_0,
                            dynamic_fields: without(f, among(Self::names())),
                        },
                    )
                }
            },
            _ => Err(malformed("$", JsonKind::Object)),
        }
    }

    open spec fn encoded(v: ModAuthorV) -> JsonV {
        JsonV::Obj(Self::known_fields(v) + without(v.dynamic_fields, among(Self::names())))
    }

    open spec fn overflow(v: ModAuthorV) -> Fields {
        v.dynamic_fields
    }

    open spec fn with_overflow(v: ModAuthorV, bag: Fields) -> ModAuthorV {
        ModAuthorV { dynamic_fields: bag, ..v }
    }

    open spec fn valid(v: ModAuthorV) -> bool {
        free_of(v.dynamic_fields, among(Self::names()))
    }

    fn field_names() -> (r: Vec<&'static str>) {
        let mut r: Vec<&'static str> = Vec::new();
        r.push("id");
        r.push("name");
        r.push("url");
        proof {
            assert(r@ =~= Self::names());
        }
        r
    }

    fn decode(j: &Json) -> (r: Result<ModAuthor, DecodeError>) {
        match j {
            Json::Object(fields) => {
                proof {
                    lemma_view_unfold(*j);
                }
                let id = get_u32(fields, "id")?;
                let name = get_text(fields, "name")?;
                let url = get_text(fields, "url")?;
                let dynamic_fields = unknown_fields(fields, &Self::field_names());
                Ok(ModAuthor { id, name, url, dynamic_fields })
            },
            _ => Err(DecodeError::MalformedField { path: "$", expected: JsonKind::Object }),
        }
    }

    fn encode(&self) -> (j: Json) {
        let mut out: Vec<Member> = Vec::new();
        proof {
            assert(pairs_view(out@) =~= Seq::<(Seq<char>, JsonV)>::empty());
        }
        put(&mut out, "id", Json::Int(self.id as i128));
        put(&mut out, "name", Json::Str(self.name.clone()));
        put(&mut out, "url", Json::Str(self.url.clone()));
        append_fields(&mut out, unknown_fields(&self.dynamic_fields, &Self::field_names()));
        let j = Json::Object(out);
        proof {
            lemma_view_unfold(j);
        }
        j
    }

    proof fn round_trip(v: ModAuthorV) {
        Self::lemma_known_fields(v);
        let known = Self::known_fields(v);
        let bag = without(v.dynamic_fields, among(Self::names()));
        lemma_without(v.dynamic_fields, among(Self::names()));
        lemma_without_add(known, bag, among(Self::names()));
        Self::lemma_names();
        lemma_lookup_free(bag, among(Self::names()), "id"@);
        lemma_lookup_add(known, bag, "id"@);
        lemma_lookup_free(bag, among(Self::names()), "name"@);
        lemma_lookup_add(known, bag, "name"@);
        lemma_lookup_free(bag, among(Self::names()), "url"@);
        lemma_lookup_add(known, bag, "url"@);
        assert(without(known + bag, among(Self::names())) =~= v.dynamic_fields);
    }

    proof fn encoded_is_object(v: ModAuthorV) {
    }

    proof fn decoded_is_valid(j: JsonV) {
        if let JsonV::Obj(f) = j {
            lemma_without(f, among(Self::names()));
        }
    }

    proof fn unknown_fields_kept(f: Fields, g: Fields) {
        Self::lemma_names();
        assert(lookup(f, "id"@) == lookup(g, "id"@));
        assert(lookup(f, "name"@) == lookup(g, "name"@));
        assert(lookup(f, "url"@) == lookup(g, "url"@));
        lemma_without(f, among(Self::names()));
    }
}

impl ModAuthor {
    /// The known names are the listed ones, and no two of them are the
    /// same.
    pub proof fn lemma_names()
        ensures
            among(Self::names())("id"@),
            among(Self::names())("name"@),
            among(Self::names())("url"@),
            "id"@ != "name"@,
            "id"@ != "url"@,
            "name"@ != "url"@,
    {
        reveal_strlit("id");
        assert(Self::names()[0] == "id" && "id"@.len() == 2);
        reveal_strlit("name");
        assert(Self::names()[1] == "name" && "name"@.len() == 4);
        reveal_strlit("url");
        assert(Self::names()[2] == "url" && "url"@.len() == 3);
    }

    /// Under a known name the encoded record holds the known field, whatever
    /// the overflow bag holds under that name.
    pub proof fn lemma_known_wins(v: ModAuthorV, key: Seq<char>)
        requires
            among(Self::names())(key),
        ensures
            Self::encoded(v) matches JsonV::Obj(f) && lookup(f, key) == lookup(
                Self::known_fields(v),
                key,
            ),
    {
        let bag = without(v.dynamic_fields, among(Self::names()));
        lemma_without(v.dynamic_fields, among(Self::names()));
        lemma_lookup_free(bag, among(Self::names()), key);
        lemma_lookup_add(Self::known_fields(v), bag, key);
    }

    /// Each known field is found under its name in the encoded known
    /// fields, an absent one is not, and all of their names are known.
    pub proof fn lemma_known_fields(v: ModAuthorV)
        ensures
            lookup(Self::known_fields(v), "id"@) == Some(JsonV::Int(v.id as int)),
            lookup(Self::known_fields(v), "name"@) == Some(JsonV::Str(v.name)),
            lookup(Self::known_fields(v), "url"@) == Some(JsonV::Str(v.url)),
            without(Self::known_fields(v), among(Self::names())) == Seq::<(Seq<char>, JsonV)>::empty(),
    {
        broadcast use lemma_lookup_push, lemma_without_push;

        Self::lemma_names();
        assert(without(Self::known_fields(v), among(Self::names())) =~= Seq::<(Seq<char>, JsonV)>::empty());
    }
}

/// A picture of a mod.
#[derive(Debug, PartialEq)]
pub struct ModAsset {
    pub id: u32,
    pub mod_id: u32,
    pub title: String,
    pub description: String,
    pub thumbnail_url: String,
    pub url: String,
    /// The fields of the payload that the record does not know.
    pub dynamic_fields: Vec<Member>,
}

/// The model of a [`ModAsset`].
pub struct ModAssetV {
    pub id: u32,
    pub mod_id: u32,
    pub title: Seq<char>,
    pub description: Seq<char>,
    pub thumbnail_url: Seq<char>,
    pub url: Seq<char>,
    pub dynamic_fields: Fields,
}

impl View for ModAsset {
    type V = ModAssetV;

    open spec fn view(&self) -> ModAssetV {
        ModAssetV {
            id: self.id,
            mod_id: self.mod_id,
            title: self.title@,
            description: self.description@,
            thumbnail_url: self.thumbnail_url@,
            url: self.url@,
            dynamic_fields: pairs_view(self.dynamic_fields@),
        }
    }
}

impl ModAsset {
    /// The known fields of a record as they are encoded, in declaration
    /// order; an absent optional field is left out.
    pub open spec fn known_fields(v: ModAssetV) -> Fields {
        let s = Seq::<(Seq<char>, JsonV)>::empty();
        let s = s.push(("id"@, JsonV::Int(v.id as int)));
        let s = s.push(("modId"@, JsonV::Int(v.mod_id as int)));
        let s = s.push(("title"@, JsonV::Str(v.title)));
        let s = s.push(("description"@, JsonV::Str(v.description)));
        let s = s.push(("thumbnailUrl"@, JsonV::Str(v.thumbnail_url)));
        let s = s.push(("url"@, JsonV::Str(v.url)));
        s
    }

    /// The value that the overflow bag holds under `key`: the first one,
    /// where the payload held several.
    pub fn extra(&self, key: &str) -> (r: Option<&Json>)
        ensures
            match r {
                Some(j) => lookup(self@.dynamic_fields, key@) == Some(j@),
                None => lookup(self@.dynamic_fields, key@) is None,
            },
    {
        find(&self.dynamic_fields, key)
    }
}

impl Entity for ModAsset {
    open spec fn names() -> Seq<&'static str> {
        seq![
            "id",
            "modId",
            "title",
            "description",
            "thumbnailUrl",
            "url",
        ]
    }

    open spec fn decoded(j: JsonV) -> Result<ModAssetV, DecodeError> {
        match j {
            JsonV::Obj(f) => {
                let id = req_u32(f, "id");
                let mod_id = req_u32(f, "modId");
                let title = req_text(f, "title");
                let description = req_text(f, "description");
                let thumbnail_url = req_text(f, "thumbnailUrl");
                let url = req_text(f, "url");
                if id is Err {
                    Err(id->Err_0)
                } else if mod_id is Err {
                    Err(mod_id->Err_0)
                } else if title is Err {
                    Err(title->Err_0)
                } else if description is Err {
                    Err(description->Err_0)
                } else if thumbnail_url is Err {
                    Err(thumbnail_url->Err_0)
                } else if url is Err {
                    Err(url->Err_0)
                } else {
                    Ok(
                        ModAssetV {
                            id: id->Ok_0,
                            mod_id: mod_id->Ok_0,
                            title: title->Ok_0,
                            description: description->Ok_0,
                            thumbnail_url: thumbnail_url->Ok_0,
                            url: url->Ok_0,
                            dynamic_fields: without(f, among(Self::names())),
                        },
                    )
                }
            },
            _ => Err(malformed("$", JsonKind::Object)),
        }
    }

    open spec fn encoded(v: ModAssetV) -> JsonV {
        JsonV::Obj(Self::known_fields(v) + without(v.dynamic_fields, among(Self::names())))
    }

    open spec fn overflow(v: ModAssetV) -> Fields {
        v.dynamic_fields
    }

    open spec fn with_overflow(v: ModAssetV, bag: Fields) -> ModAssetV {
        ModAssetV { dynamic_fields: bag, ..v }
    }

    open spec fn valid(v: ModAssetV) -> bool {
        free_of(v.dynamic_fields, among(Self::names()))
    }

    fn field_names() -> (r: Vec<&'static str>) {
        let mut r: Vec<&'static str> = Vec::new();
        r.push("id");
        r.push("modId");
        r.push("title");
        r.push("description");
        r.push("thumbnailUrl");
        r.push("url");
        proof {
            assert(r@ =~= Self::names());
        }
        r
    }

    fn decode(j: &Json) -> (r: Result<ModAsset, DecodeError>) {
        match j {
            Json::Object(fields) => {
                proof {
                    lemma_view_unfold(*j);
                }
                let id = get_u32(fields, "id")?;
                let mod_id = get_u32(fields, "modId")?;
                let title = get_text(fields, "title")?;
                let description = get_text(fields, "description")?;
                let thumbnail_url = get_text(fields, "thumbnailUrl")?;
                let url = get_text(fields, "url")?;
                let dynamic_fields = unknown_fields(fields, &Self::field_names());
                Ok(ModAsset { id, mod_id, title, description, thumbnail_url, url, dynamic_fields })
            },
            _ => Err(DecodeError::MalformedField { path: "$", expected: JsonKind::Object }),
        }
    }

    fn encode(&self) -> (j: Json) {
        let mut out: Vec<Member> = Vec::new();
        proof {
            assert(pairs_view(out@) =~= Seq::<(Seq<char>, JsonV)>::empty());
        }
        put(&mut out, "id", Json::Int(self.id as i128));
        put(&mut out, "modId", Json::Int(self.mod_id as i128));
        put(&mut out, "title", Json::Str(self.title.clone()));
        put(&mut out, "description", Json::Str(self.description.clone()));
        put(&mut out, "thumbnailUrl", Json::Str(self.thumbnail_url.clone()));
        put(&mut out, "url", Json::Str(self.url.clone()));
        append_fields(&mut out, unknown_fields(&self.dynamic_fields, &Self::field_names()));
        let j = Json::Object(out);
        proof {
            lemma_view_unfold(j);
        }
        j
    }

    proof fn round_trip(v: ModAssetV) {
        Self::lemma_known_fields(v);
        let known = Self::known_fields(v);
        let bag = without(v.dynamic_fields, among(Self::names()));
        lemma_without(v.dynamic_fields, among(Self::names()));
        lemma_without_add(known, bag, among(Self::names()));
        Self::lemma_names();
        lemma_lookup_free(bag, among(Self::names()), "id"@);
        lemma_lookup_add(known, bag, "id"@);
        lemma_lookup_free(bag, among(Self::names()), "modId"@);
        lemma_lookup_add(known, bag, "modId"@);
        lemma_lookup_free(bag, among(Self::names()), "title"@);
        lemma_lookup_add(known, bag, "title"@);
        lemma_lookup_free(bag, among(Self::names()), "description"@);
        lemma_lookup_add(known, bag, "description"@);
        lemma_lookup_free(bag, among(Self::names()), "thumbnailUrl"@);
        lemma_lookup_add(known, bag, "thumbnailUrl"@);
        lemma_lookup_free(bag, among(Self::names()), "url"@);
        lemma_lookup_add(known, bag, "url"@);
        assert(without(known + bag, among(Self::names())) =~= v.dynamic_fields);
    }

    proof fn encoded_is_object(v: ModAssetV) {
    }

    proof fn decoded_is_valid(j: JsonV) {
        if let JsonV::Obj(f) = j {
            lemma_without(f, among(Self::names()));
        }
    }

    proof fn unknown_fields_kept(f: Fields, g: Fields) {
        Self::lemma_names();
        assert(lookup(f, "id"@) == lookup(g, "id"@));
        assert(lookup(f, "modId"@) == lookup(g, "modId"@));
        assert(lookup(f, "title"@) == lookup(g, "title"@));
        assert(lookup(f, "description"@) == lookup(g, "description"@));
        assert(lookup(f, "thumbnailUrl"@) == lookup(g, "thumbnailUrl"@));
        assert(lookup(f, "url"@) == lookup(g, "url"@));
        lemma_without(f, among(Self::names()));
    }
}

impl ModAsset {
    /// The known names are the listed ones, and no two of them are the
    /// same.
    pub proof fn lemma_names()
        ensures
            among(Self::names())("id"@),
            among(Self::names())("modId"@),
            among(Self::names())("title"@),
            among(Self::names())("description"@),
            among(Self::names())("thumbnailUrl"@),
            among(Self::names())("url"@),
            "id"@ != "modId"@,
            "id"@ != "title"@,
            "id"@ != "description"@,
            "id"@ != "thumbnailUrl"@,
            "id"@ != "url"@,
            "modId"@ != "title"@,
            "modId"@ != "description"@,
            "modId"@ != "thumbnailUrl"@,
            "modId"@ != "url"@,
            "title"@ != "description"@,
            "title"@ != "thumbnailUrl"@,
            "title"@ != "url"@,
            "description"@ != "thumbnailUrl"@,
            "description"@ != "url"@,
            "thumbnailUrl"@ != "url"@,
    {
        reveal_strlit("id");
        assert(Self::names()[0] == "id" && "id"@.len() == 2);
        reveal_strlit("modId");
        assert(Self::names()[1] == "modId" && "modId"@.len() == 5);
        reveal_strlit("title");
        assert(Self::names()[2] == "title" && "title"@.len() == 5);
        reveal_strlit("description");
        assert(Self::names()[3] == "description" && "description"@.len() == 11);
        reveal_strlit("thumbnailUrl");
        assert(Self::names()[4] == "thumbnailUrl" && "thumbnailUrl"@.len() == 12);
        reveal_strlit("url");
        assert(Self::names()[5] == "url" && "url"@.len() == 3);
        assert("modId"@[0] != "title"@[0]);
    }

    /// Under a known name the encoded record holds the known field, whatever
    /// the overflow bag holds under that name.
    pub proof fn lemma_known_wins(v: ModAssetV, key: Seq<char>)
        requires
            among(Self::names())(key),
        ensures
            Self::encoded(v) matches JsonV::Obj(f) && lookup(f, key) == lookup(
                Self::known_fields(v),
                key,
            ),
    {
        let bag = without(v.dynamic_fields, among(Self::names()));
        lemma_without(v.dynamic_fields, among(Self::names()));
        lemma_lookup_free(bag, among(Self::names()), key);
        lemma_lookup_add(Self::known_fields(v), bag, key);
    }

    /// Each known field is found under its name in the encoded known
    /// fields, an absent one is not, and all of their names are known.
    pub proof fn lemma_known_fields(v: ModAssetV)
        ensures
            lookup(Self::known_fields(v), "id"@) == Some(JsonV::Int(v.id as int)),
            lookup(Self::known_fields(v), "modId"@) == Some(JsonV::Int(v.mod_id as int)),
            lookup(Self::known_fields(v), "title"@) == Some(JsonV::Str(v.title)),
            lookup(Self::known_fields(v), "description"@) == Some(JsonV::Str(v.description)),
            lookup(Self::known_fields(v), "thumbnailUrl"@) == Some(JsonV::Str(v.thumbnail_url)),
            lookup(Self::known_fields(v), "url"@) == Some(JsonV::Str(v.url)),
            without(Self::known_fields(v), among(Self::names())) == Seq::<(Seq<char>, JsonV)>::empty(),
    {
        broadcast use lemma_lookup_push, lemma_without_push;

        Self::lemma_names();
        assert(without(Self::known_fields(v), among(Self::names())) =~= Seq::<(Seq<char>, JsonV)>::empty());
    }
}

} // verus!
