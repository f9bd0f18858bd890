//! Categories and classes.

use vstd::prelude::*;
use crate::error::{DecodeError, JsonKind};
use crate::json::{
    Fields, Json, JsonV, Member, among, find, free_of, lemma_lookup_add, lemma_lookup_free,
    lemma_lookup_push, lemma_view_unfold, lemma_without, lemma_without_add, lemma_without_push,
    lookup, pairs_view, put, without,
};
use crate::schema::{
    Entity, append_fields, get_opt_bool, get_opt_u32, get_text, get_u32, malformed, opt_bool,
    opt_u32, req_text, req_u32, unknown_fields,
};

verus! {

/// A category of mods, or a class of categories.
#[derive(Debug, PartialEq)]
pub struct Category {
    /// The category's number.
    pub id: u32,
    /// The game that the category belongs to.
    pub game_id: u32,
    pub name: String,
    pub slug: String,
    pub url: String,
    pub icon_url: String,
    pub date_modified: String,
    /// Whether this is a class; absent in some payloads.
    pub is_class: Option<bool>,
    /// The class above the category, where it has one.
    pub class_id: Option<u32>,
    /// The category above this one, where it has one.
    pub parent_category_id: Option<u32>,
    /// The place in the listing, where one is given.
    pub display_index: Option<u32>,
    /// The fields of the payload that the record does not know.
    pub dynamic_fields: Vec<Member>,
}

/// The model of a [`Category`].
pub struct CategoryV {
    pub id: u32,
    pub game_id: u32,
    pub name: Seq<char>,
    pub slug: Seq<char>,
    pub url: Seq<char>,
    pub icon_url: Seq<char>,
    pub date_modified: Seq<char>,
    pub is_class: Option<bool>,
    pub class_id: Option<u32>,
    pub parent_category_id: Option<u32>,
    pub display_index: Option<u32>,
    pub dynamic_fields: Fields,
}

impl View for Category {
    type V = CategoryV;

    open spec fn view(&self) -> CategoryV {
        CategoryV {
            id: self.id,
            game_id: self.game_id,
            name: self.name@,
            slug: self.slug@,
            url: self.url@,
            icon_url: self.icon_url@,
            date_modified: self.date_modified@,
            is_class: self.is_class,
            class_id: self.class_id,
            parent_category_id: self.parent_category_id,
            display_index: self.display_index,
            dynamic_fields: pairs_view(self.dynamic_fields@),
        }
    }
}

impl Category {
    /// The known fields of a record as they are encoded, in declaration
    /// order; an absent optional field is left out.
    pub open spec fn known_fields(v: CategoryV) -> Fields {
        let s = Seq::<(Seq<char>, JsonV)>::empty();
        let s = s.push(("id"@, JsonV::Int(v.id as int)));
        let s = s.push(("gameId"@, JsonV::Int(v.game_id as int)));
        let s = s.push(("name"@, JsonV::Str(v.name)));
        let s = s.push(("slug"@, JsonV::Str(v.slug)));
        let s = s.push(("url"@, JsonV::Str(v.url)));
        let s = s.push(("iconUrl"@, JsonV::Str(v.icon_url)));
        let s = s.push(("dateModified"@, JsonV::Str(v.date_modified)));
        let s = match v.is_class {
            Some(x) => s.push(("isClass"@, JsonV::Bool(x))),
            None => s,
        };
        let s = match v.class_id {
            Some(x) => s.push(("classId"@, JsonV::Int(x as int))),
            None => s,
        };
        let s = match v.parent_category_id {
            Some(x) => s.push(("parentCategoryId"@, JsonV::Int(x as int))),
            None => s,
        };
        let s = match v.display_index {
            Some(x) => s.push(("displayIndex"@, JsonV::Int(x as int))),
            None => s,
        };
        s
    }

    /// The value that the overflow bag holds under `key`: the first one,
    /// where the payload held several.
    pub fn extra(&self, key: &str) -> (r: Option<&Json>)
        ensures
            match r {
                Some(j) => lookup(self@.dynamic_fields, key@) == Some(j@),
                None => lookup(self@.dynamic_fields, key@) is None,
            },
    {
        find(&self.dynamic_fields, key)
    }
}

impl Entity for Category {
    open spec fn names() -> Seq<&'static str> {
        seq![
            "id",
            "gameId",
            "name",
            "slug",
            "url",
            "iconUrl",
            "dateModified",
            "isClass",
            "classId",
            "parentCategoryId",
            "displayIndex",
        ]
    }

    open spec fn decoded(j: JsonV) -> Result<CategoryV, DecodeError> {
        match j {
            JsonV::Obj(f) => {
                let id = req_u32(f, "id");
                let game_id = req_u32(f, "gameId");
                let name = req_text(f, "name");
                let slug = req_text(f, "slug");
                let url = req_text(f, "url");
                let icon_url = req_text(f, "iconUrl");
                let date_modified = req_text(f, "dateModified");
                let is_class = opt_bool(f, "isClass");
                let class_id = opt_u32(f, "classId");
                let parent_category_id = opt_u32(f, "parentCategoryId");
                let display_index = opt_u32(f, "displayIndex");
                if id is Err {
                    Err(id->Err_0)
                } else if game_id is Err {
                    Err(game_id->Err_0)
                } else if name is Err {
                    Err(name->Err_0)
                } else if slug is Err {
                    Err(slug->Err_0)
                } else if url is Err {
                    Err(url->Err_0)
                } else if icon_url is Err {
                    Err(icon_url->Err_0)
                } else if date_modified is Err {
                    Err(date_modified->Err_0)
                } else if is_class is Err {
                    Err(is_class->Err_0)
                } else if class_id is Err {
                    Err(class_id->Err_0)
                } else if parent_category_id is Err {
                    Err(parent_category_id->Err_0)
                } else if display_index is Err {
                    Err(display_index->Err_0)
                } else {
                    Ok(
                        CategoryV {
                            id: id->Ok_0,
                            game_id: game_id->Ok_0,
                            name: name->Ok_0,
                            slug: slug->Ok_0,
                            url: url->Ok_0,
                            icon_url: icon_url->Ok_0,
                            date_modified: date_modified->Ok_0,
                            is_class: is_class->Ok_0,
                            class_id: class_id->Ok_0,
                            parent_category_id: parent_category_id->Ok_0,
                            display_index: display_index->Ok_0,
                            dynamic_fields: without(f, among(Self::names())),
                        },
                    )
                }
            },
            _ => Err(malformed("$", JsonKind::Object)),
        }
    }

    open spec fn encoded(v: CategoryV) -> JsonV {
        JsonV::Obj(Self::known_fields(v) + without(v.dynamic_fields, among(Self::names())))
    }

    open spec fn overflow(v: CategoryV) -> Fields {
        v.dynamic_fields
    }

    open spec fn with_overflow(v: CategoryV, bag: Fields) -> CategoryV {
        CategoryV { dynamic_fields: bag, ..v }
    }

    open spec fn valid(v: CategoryV) -> bool {
        free_of(v.dynamic_fields, among(Self::names()))
    }

    fn field_names() -> (r: Vec<&'static str>) {
        let mut r: Vec<&'static str> = Vec::new();
        r.push("id");
        r.push("gameId");
        r.push("name");
        r.push("slug");
        r.push("url");
        r.push("iconUrl");
        r.push("dateModified");
        r.push("isClass");
        r.push("classId");
        r.push("parentCategoryId");
        r.push("displayIndex");
        proof {
            assert(r@ =~= Self::names());
        }
        r
    }

    fn decode(j: &Json) -> (r: Result<Category, DecodeError>) {
        match j {
            Json::Object(fields) => {
                proof {
                    lemma_view_unfold(*j);
                }
                let id = get_u32(fields, "id")?;
                let game_id = get_u32(fields, "gameId")?;
                let name = get_text(fields, "name")?;
                let slug = get_text(fields, "slug")?;
                let url = get_text(fields, "url")?;
                let icon_url = get_text(fields, "iconUrl")?;
                let date_modified = get_text(fields, "dateModified")?;
                let is_class = get_opt_bool(fields, "isClass")?;
                let class_id = get_opt_u32(fields, "classId")?;
                let parent_category_id = get_opt_u32(fields, "parentCategoryId")?;
                let display_index = get_opt_u32(fields, "displayIndex")?;
                let dynamic_fields = unknown_fields(fields, &Self::field_names());
                Ok(Category { id, game_id, name, slug, url, icon_url, date_modified, is_class, class_id, parent_category_id, display_index, dynamic_fields })
            },
            _ => Err(DecodeError::MalformedField { path: "$", expected: JsonKind::Object }),
        }
    }

    fn encode(&self) -> (j: Json) {
        let mut out: Vec<Member> = Vec::new();
        proof {
            assert(pairs_view(out@) =~= Seq::<(Seq<char>, JsonV)>::empty());
        }
        put(&mut out, "id", Json::Int(self.id as i128));
        put(&mut out, "gameId", Json::Int(self.game_id as i128));
        put(&mut out, "name", Json::Str(self.name.clone()));
        put(&mut out, "slug", Json::Str(self.slug.clone()));
        put(&mut out, "url", Json::Str(self.url.clone()));
        put(&mut out, "iconUrl", Json::Str(self.icon_url.clone()));
        put(&mut out, "dateModified", Json::Str(self.date_modified.clone()));
        if let Some(x) = self.is_class {
            put(&mut out, "isClass", Json::Bool(x));
        }
        if let Some(x) = self.class_id {
            put(&mut out, "classId", Json::Int(x as i128));
        }
        if let Some(x) = self.parent_category_id {
            put(&mut out, "parentCategoryId", Json::Int(x as i128));
        }
        if let Some(x) = self.display_index {
            put(&mut out, "displayIndex", Json::Int(x as i128));
        }
        append_fields(&mut out, unknown_fields(&self.dynamic_fields, &Self::field_names()));
        let j = Json::Object(out);
        proof {
            lemma_view_unfold(j);
        }
        j
    }

    proof fn round_trip(v: CategoryV) {
        Self::lemma_known_fields(v);
        let known = Self::known_fields(v);
        let bag = without(v.dynamic_fields, among(Self::names()));
        lemma_without(v.dynamic_fields, among(Self::names()));
        lemma_without_add(known, bag, among(Self::names()));
        Self::lemma_names();
        lemma_lookup_free(bag, among(Self::names()), "id"@);
        lemma_lookup_add(known, bag, "id"@);
        lemma_lookup_free(bag, among(Self::names()), "gameId"@);
        lemma_lookup_add(known, bag, "gameId"@);
        lemma_lookup_free(bag, among(Self::names()), "name"@);
        lemma_lookup_add(known, bag, "name"@);
        lemma_lookup_free(bag, among(Self::names()), "slug"@);
        lemma_lookup_add(known, bag, "slug"@);
        lemma_lookup_free(bag, among(Self::names()), "url"@);
        lemma_lookup_add(known, bag, "url"@);
        lemma_lookup_free(bag, among(Self::names()), "iconUrl"@);
        lemma_lookup_add(known, bag, "iconUrl"@);
        lemma_lookup_free(bag, among(Self::names()), "dateModified"@);
        lemma_lookup_add(known, bag, "dateModified"@);
        lemma_lookup_free(bag, among(Self::names()), "isClass"@);
        lemma_lookup_add(known, bag, "isClass"@);
        lemma_lookup_free(bag, among(Self::names()), "classId"@);
        lemma_lookup_add(known, bag, "classId"@);
        lemma_lookup_free(bag, among(Self::names()), "parentCategoryId"@);
        lemma_lookup_add(known, bag, "parentCategoryId"@);
        lemma_lookup_free(bag, among(Self::names()), "displayIndex"@);
        lemma_lookup_add(known, bag, "displayIndex"@);
        assert(without(known + bag, among(Self::names())) =~= v.dynamic_fields);
    }

    proof fn encoded_is_object(v: CategoryV) {
    }

    proof fn decoded_is_valid(j: JsonV) {
        if let JsonV::Obj(f) = j {
            lemma_without(f, among(Self::names()));
        }
    }

    proof fn unknown_fields_kept(f: Fields, g: Fields) {
        Self::lemma_names();
        assert(lookup(f, "id"@) == lookup(g, "id"@));
        assert(lookup(f, "gameId"@) == lookup(g, "gameId"@));
        assert(lookup(f, "name"@) == lookup(g, "name"@));
        assert(lookup(f, "slug"@) == lookup(g, "slug"@));
        assert(lookup(f, "url"@) == lookup(g, "url"@));
        assert(lookup(f, "iconUrl"@) == lookup(g, "iconUrl"@));
        assert(lookup(f, "dateModified"@) == lookup(g, "dateModified"@));
        assert(lookup(f, "isClass"@) == lookup(g, "isClass"@));
        assert(lookup(f, "classId"@) == lookup(g, "classId"@));
        assert(lookup(f, "parentCategoryId"@) == lookup(g, "parentCategoryId"@));
        assert(lookup(f, "displayIndex"@) == lookup(g, "displayIndex"@));
        lemma_without(f, among(Self::names()));
    }
}

impl Category {
    /// The known names are the listed ones, and no two of them are the
    /// same.
    pub proof fn lemma_names()
        ensures
            among(Self::names())("id"@),
            among(Self::names())("gameId"@),
            among(Self::names())("name"@),
            among(Self::names())("slug"@),
            among(Self::names())("url"@),
            among(Self::names())("iconUrl"@),
            among(Self::names())("dateModified"@),
            among(Self::names())("isClass"@),
            among(Self::names())("classId"@),
            among(Self::names())("parentCategoryId"@),
            among(Self::names())("displayIndex"@),
            "id"@ != "gameId"@,
            "id"@ != "name"@,
            "id"@ != "slug"@,
            "id"@ != "url"@,
            "id"@ != "iconUrl"@,
            "id"@ != "dateModified"@,
            "id"@ != "isClass"@,
            "id"@ != "classId"@,
            "id"@ != "parentCategoryId"@,
            "id"@ != "displayIndex"@,
            "gameId"@ != "name"@,
            "gameId"@ != "slug"@,
            "gameId"@ != "url"@,
            "gameId"@ != "iconUrl"@,
            "gameId"@ != "dateModified"@,
            "gameId"@ != "isClass"@,
            "gameId"@ != "classId"@,
            "gameId"@ != "parentCategoryId"@,
            "gameId"@ != "displayIndex"@,
            "name"@ != "slug"@,
            "name"@ != "url"@,
            "name"@ != "iconUrl"@,
            "name"@ != "dateModified"@,
            "name"@ != "isClass"@,
            "name"@ != "classId"@,
            "name"@ != "parentCategoryId"@,
            "name"@ != "displayIndex"@,
            "slug"@ != "url"@,
            "slug"@ != "iconUrl"@,
            "slug"@ != "dateModified"@,
            "slug"@ != "isClass"@,
            "slug"@ != "classId"@,
            "slug"@ != "parentCategoryId"@,
            "slug"@ != "displayIndex"@,
            "url"@ != "iconUrl"@,
            "url"@ != "dateModified"@,
            "url"@ != "isClass"@,
            "url"@ != "classId"@,
            "url"@ != "parentCategoryId"@,
            "url"@ != "displayIndex"@,
            "iconUrl"@ != "dateModified"@,
            "iconUrl"@ != "isClass"@,
            "iconUrl"@ != "classId"@,
            "iconUrl"@ != "parentCategoryId"@,
            "iconUrl"@ != "displayIndex"@,
            "dateModified"@ != "isClass"@,
            "dateModified"@ != "classId"@,
            "dateModified"@ != "parentCategoryId"@,
            "dateModified"@ != "displayIndex"@,
            "isClass"@ != "classId"@,
            "isClass"@ != "parentCategoryId"@,
            "isClass"@ != "displayIndex"@,
            "classId"@ != "parentCategoryId"@,
            "classId"@ != "displayIndex"@,
            "parentCategoryId"@ != "displayIndex"@,
    {
        reveal_strlit("id");
        assert(Self::names()[0] == "id" && "id"@.len() == 2);
        reveal_strlit("gameId");
        assert(Self::names()[1] == "gameId" && "gameId"@.len() == 6);
        reveal_strlit("name");
        assert(Self::names()[2] == "name" && "name"@.len() == 4);
        reveal_strlit("slug");
        assert(Self::names()[3] == "slug" && "slug"@.len() == 4);
        reveal_strlit("url");
        assert(Self::names()[4] == "url" && "url"@.len() == 3);
        reveal_strlit("iconUrl");
        assert(Self::names()[5] == "iconUrl" && "iconUrl"@.len() == 7);
        reveal_strlit("dateModified");
        assert(Self::names()[6] == "dateModified" && "dateModified"@.len() == 12);
        reveal_strlit("isClass");
        assert(Self::names()[7] == "isClass" && "isClass"@.len() == 7);
        reveal_strlit("classId");
        assert(Self::names()[8] == "classId" && "classId"@.len() == 7);
        reveal_strlit("parentCategoryId");
        assert(Self::names()[9] == "parentCategoryId" && "parentCategoryId"@.len() == 16);
        reveal_strlit("displayIndex");
        assert(Self::names()[10] == "displayIndex" && "displayIndex"@.len() == 12);
        assert("name"@[0] != "slug"@[0]);
        assert("iconUrl"@[1] != "isClass"@[1]);
        assert("iconUrl"@[0] != "classId"@[0]);
        assert("dateModified"@[1] != "displayIndex"@[1]);
        assert("isClass"@[0] != "classId"@[0]);
    }

    /// Under a known name the encoded record holds the known field, whatever
    /// the overflow bag holds under that name.
    pub proof fn lemma_known_wins(v: CategoryV, key: Seq<char>)
        requires
            among(Self::names())(key),
        ensures
            Self::encoded(v) matches JsonV::Obj(f) && lookup(f, key) == lookup(
                Self::known_fields(v),
                key,
            ),
    {
        let bag = without(v.dynamic_fields, among(Self::names()));
        lemma_without(v.dynamic_fields, among(Self::names()));
        lemma_lookup_free(bag, among(Self::names()), key);
        lemma_lookup_add(Self::known_fields(v), bag, key);
    }

    /// Each known field is found under its name in the encoded known
    /// fields, an absent one is not, and all of their names are known.
    pub proof fn lemma_known_fields(v: CategoryV)
        ensures
            lookup(Self::known_fields(v), "id"@) == Some(JsonV::Int(v.id as int)),
            lookup(Self::known_fields(v), "gameId"@) == Some(JsonV::Int(v.game_id as int)),
            lookup(Self::known_fields(v), "name"@) == Some(JsonV::Str(v.name)),
            lookup(Self::known_fields(v), "slug"@) == Some(JsonV::Str(v.slug)),
            lookup(Self::known_fields(v), "url"@) == Some(JsonV::Str(v.url)),
            lookup(Self::known_fields(v), "iconUrl"@) == Some(JsonV::Str(v.icon_url)),
            lookup(Self::known_fields(v), "dateModified"@) == Some(JsonV::Str(v.date_modified)),
            lookup(Self::known_fields(v), "isClass"@) == match v.is_class {
                Some(x) => Some(JsonV::Bool(x)),
                None => None,
            },
            lookup(Self::known_fields(v), "classId"@) == match v.class_id {
                Some(x) => Some(JsonV::Int(x as int)),
                None => None,
            },
            lookup(Self::known_fields(v), "parentCategoryId"@) == match v.parent_category_id {
                Some(x) => Some(JsonV::Int(x as int)),
                None => None,
            },
            lookup(Self::known_fields(v), "displayIndex"@) == match v.display_index {
                Some(x) => Some(JsonV::Int(x as int)),
                None => None,
            },
            without(Self::known_fields(v), among(Self::names())) == Seq::<(Seq<char>, JsonV)>::empty(),
    {
        broadcast use lemma_lookup_push, lemma_without_push;

        Self::lemma_names();
        assert(without(Self::known_fields(v), among(Self::names())) =~= Seq::<(Seq<char>, JsonV)>::empty());
    }
}

} // verus!
