//! Mod files, their hashes and their dependencies.

use vstd::prelude::*;
use crate::error::{DecodeError, JsonKind};
use crate::json::{
    Fields, Json, JsonV, Member, among, find, free_of, lemma_lookup_add, lemma_lookup_free,
    lemma_lookup_push, lemma_view_unfold, lemma_without, lemma_without_add, lemma_without_push,
    lookup, pairs_view, put, without,
};
use crate::mod_loader::ModLoaderType;
use crate::schema::{
    Entity, all_valid, append_fields, encode_all, encode_items, encode_texts, get_list,
    get_opt_u32, get_opt_u64, get_text, get_texts, get_u32, get_u64, lemma_decode_all_valid,
    lemma_round_trip_all, lemma_round_trip_texts, malformed, opt_u32, opt_u64, req_list, req_text,
    req_texts, req_u32, req_u64, texts_json, unknown_fields, views,
};

verus! {

/// A file of a mod.
#[derive(Debug, PartialEq)]
pub struct File {
    pub id: u32,
    pub game_id: u32,
    pub mod_id: u32,
    pub display_name: String,
    pub file_name: String,
    pub release_type: FileReleaseType,
    pub file_status: FileStatus,
    /// The file's digests, one pair for each algorithm as a rule.
    pub hashes: Vec<FileHash>,
    pub file_date: String,
    pub file_length: u64,
    pub download_count: u64,
    /// The size once unpacked; absent in some payloads.
    pub file_size_on_disk: Option<u64>,
    pub download_url: String,
    pub game_versions: Vec<String>,
    pub dependencies: Vec<FileDependency>,
    /// The fields of the payload that the record does not know.
    pub dynamic_fields: Vec<Member>,
}

/// The model of a [`File`].
pub struct FileV {
    pub id: u32,
    pub game_id: u32,
    pub mod_id: u32,
    pub display_name: Seq<char>,
    pub file_name: Seq<char>,
    pub release_type: FileReleaseType,
    pub file_status: FileStatus,
    pub hashes: Seq<FileHashV>,
    pub file_date: Seq<char>,
    pub file_length: u64,
    pub download_count: u64,
    pub file_size_on_disk: Option<u64>,
    pub download_url: Seq<char>,
    pub game_versions: Seq<Seq<char>>,
    pub dependencies: Seq<FileDependencyV>,
    pub dynamic_fields: Fields,
}

impl View for File {
    type V = FileV;

    open spec fn view(&self) -> FileV {
        FileV {
            id: self.id,
            game_id: self.game_id,
            mod_id: self.mod_id,
            display_name: self.display_name@,
            file_name: self.file_name@,
            release_type: self.release_type,
            file_status: self.file_status,
            hashes: views(self.hashes@),
            file_date: self.file_date@,
            file_length: self.file_length,
            download_count: self.download_count,
            file_size_on_disk: self.file_size_on_disk,
            download_url: self.download_url@,
            game_versions: views(self.game_versions@),
            dependencies: views(self.dependencies@),
            dynamic_fields: pairs_view(self.dynamic_fields@),
        }
    }
}

impl File {
    /// The known fields of a record as they are encoded, in declaration
    /// order; an absent optional field is left out.
    pub open spec fn known_fields(v: FileV) -> Fields {
        let s = Seq::<(Seq<char>, JsonV)>::empty();
        let s = s.push(("id"@, JsonV::Int(v.id as int)));
        let s = s.push(("gameId"@, JsonV::Int(v.game_id as int)));
        let s = s.push(("modId"@, JsonV::Int(v.mod_id as int)));
        let s = s.push(("displayName"@, JsonV::Str(v.display_name)));
        let s = s.push(("fileName"@, JsonV::Str(v.file_name)));
        let s = s.push(("releaseType"@, JsonV::Int(v.release_type.wire() as int)));
        let s = s.push(("fileStatus"@, JsonV::Int(v.file_status.wire() as int)));
        let s = s.push(("hashes"@, JsonV::Arr(encode_all::<FileHash>(v.hashes))));
        let s = s.push(("fileDate"@, JsonV::Str(v.file_date)));
        let s = s.push(("fileLength"@, JsonV::Int(v.file_length as int)));
        let s = s.push(("downloadCount"@, JsonV::Int(v.download_count as int)));
        let s = match v.file_size_on_disk {
            Some(x) => s.push(("fileSizeOnDisk"@, JsonV::Int(x as int))),
            None => s,
        };
        let s = s.push(("downloadUrl"@, JsonV::Str(v.download_url)));
        let s = s.push(("gameVersions"@, texts_json(v.game_versions)));
        let s = s.push(("dependencies"@, JsonV::Arr(encode_all::<FileDependency>(v.dependencies))));
        s
    }

    /// The value that the overflow bag holds under `key`: the first one,
    /// where the payload held several.
    pub fn extra(&self, key: &str) -> (r: Option<&Json>)
        ensures
            match r {
                Some(j) => lookup(self@.dynamic_fields, key@) == Some(j@),
                None => lookup(self@.dynamic_fields, key@) is None,
            },
    {
        find(&self.dynamic_fields, key)
    }
}

impl Entity for File {
    open spec fn names() -> Seq<&'static str> {
        seq![
            "id",
            "gameId",
            "modId",
            "displayName",
            "fileName",
            "releaseType",
            "fileStatus",
            "hashes",
            "fileDate",
            "fileLength",
            "downloadCount",
            "fileSizeOnDisk",
            "downloadUrl",
            "gameVersions",
            "dependencies",
        ]
    }

    open spec fn decoded(j: JsonV) -> Result<FileV, DecodeError> {
        match j {
            JsonV::Obj(f) => {
                let id = req_u32(f, "id");
                let game_id = req_u32(f, "gameId");
                let mod_id = req_u32(f, "modId");
                let display_name = req_text(f, "displayName");
                let file_name = req_text(f, "fileName");
                let release_type = match req_u64(f, "releaseType") {
                    Ok(code) => FileReleaseType::of_wire(code),
                    Err(e) => Err(e),
                };
                let file_status = match req_u64(f, "fileStatus") {
                    Ok(code) => FileStatus::of_wire(code),
                    Err(e) => Err(e),
                };
                let hashes = req_list::<FileHash>(f, "hashes");
                let file_date = req_text(f, "fileDate");
                let file_length = req_u64(f, "fileLength");
                let download_count = req_u64(f, "downloadCount");
                let file_size_on_disk = opt_u64(f, "fileSizeOnDisk");
                let download_url = req_text(f, "downloadUrl");
                let game_versions = req_texts(f, "gameVersions");
                let dependencies = req_list::<FileDependency>(f, "dependencies");
                if id is Err {
                    Err(id->Err_0)
                } else if game_id is Err {
                    Err(game_id->Err_0)
                } else if mod_id is Err {
                    Err(mod_id->Err_0)
                } else if display_name is Err {
                    Err(display_name->Err_0)
                } else if file_name is Err {
                    Err(file_name->Err_0)
                } else if release_type is Err {
                    Err(release_type->Err_0)
                } else if file_status is Err {
                    Err(file_status->Err_0)
                } else if hashes is Err {
                    Err(hashes->Err_0)
                } else if file_date is Err {
                    Err(file_date->Err_0)
                } else if file_length is Err {
                    Err(file_length->Err_0)
                } else if download_count is Err {
                    Err(download_count->Err_0)
                } else if file_size_on_disk is Err {
                    Err(file_size_on_disk->Err_0)
                } else if download_url is Err {
                    Err(download_url->Err_0)
                } else if game_versions is Err {
                    Err(game_versions->Err_0)
                } else if dependencies is Err {
                    Err(dependencies->Err_0)
                } else {
                    Ok(
                        FileV {
                            id: id->Ok_0,
                            game_id: game_id->Ok_0,
                            mod_id: mod_id->Ok_0,
                            display_name: display_name->Ok_0,
                            file_name: file_name->Ok_0,
                            release_type: release_type->Ok_0,
                            file_status: file_status->Ok_0,
                            hashes: hashes->Ok_0,
                            file_date: file_date->Ok_0,
                            file_length: file_length->Ok_0,
                            download_count: download_count->Ok_0,
                            file_size_on_disk: file_size_on_disk->Ok_0,
                            download_url: download_url->Ok_0,
                            game_versions: game_versions->Ok_0,
                            dependencies: dependencies->Ok_0,
                            dynamic_fields: without(f, among(Self::names())),
                        },
                    )
                }
            },
            _ => Err(malformed("$", JsonKind::Object)),
        }
    }

    open spec fn encoded(v: FileV) -> JsonV {
        JsonV::Obj(Self::known_fields(v) + without(v.dynamic_fields, among(Self::names())))
    }

    open spec fn overflow(v: FileV) -> Fields {
        v.dynamic_fields
    }

    open spec fn with_overflow(v: FileV, bag: Fields) -> FileV {
        FileV { dynamic_fields: bag, ..v }
    }

    open spec fn valid(v: FileV) -> bool {
        free_of(v.dynamic_fields, among(Self::names()))
        && all_valid::<FileHash>(v.hashes)
        && all_valid::<FileDependency>(v.dependencies)
    }

    fn field_names() -> (r: Vec<&'static str>) {
        let mut r: Vec<&'static str> = Vec::new();
        r.push("id");
        r.push("gameId");
        r.push("modId");
        r.push("displayName");
        r.push("fileName");
        r.push("releaseType");
        r.push("fileStatus");
        r.push("hashes");
        r.push("fileDate");
        r.push("fileLength");
        r.push("downloadCount");
        r.push("fileSizeOnDisk");
        r.push("downloadUrl");
        r.push("gameVersions");
        r.push("dependencies");
        proof {
            assert(r@ =~= Self::names());
        }
        r
    }

    fn decode(j: &Json) -> (r: Result<File, DecodeError>) {
        match j {
            Json::Object(fields) => {
                proof {
                    lemma_view_unfold(*j);
                }
                let id = get_u32(fields, "id")?;
                let game_id = get_u32(fields, "gameId")?;
                let mod_id = get_u32(fields, "modId")?;
                let display_name = get_text(fields, "displayName")?;
                let file_name = get_text(fields, "fileName")?;
                let release_type = FileReleaseType::decode(get_u64(fields, "releaseType")?)?;
                let file_status = FileStatus::decode(get_u64(fields, "fileStatus")?)?;
                let hashes = get_list::<FileHash>(fields, "hashes")?;
                let file_date = get_text(fields, "fileDate")?;
                let file_length = get_u64(fields, "fileLength")?;
                let download_count = get_u64(fields, "downloadCount")?;
                let file_size_on_disk = get_opt_u64(fields, "fileSizeOnDisk")?;
                let download_url = get_text(fields, "downloadUrl")?;
                let game_versions = get_texts(fields, "gameVersions")?;
                let dependencies = get_list::<FileDependency>(fields, "dependencies")?;
                let dynamic_fields = unknown_fields(fields, &Self::field_names());
                Ok(File { id, game_id, mod_id, display_name, file_name, release_type, file_status, hashes, file_date, file_length, download_count, file_size_on_disk, download_url, game_versions, dependencies, dynamic_fields })
            },
            _ => Err(DecodeError::MalformedField { path: "$", expected: JsonKind::Object }),
        }
    }

    fn encode(&self) -> (j: Json) {
        let mut out: Vec<Member> = Vec::new();
        proof {
            assert(pairs_view(out@) =~= Seq::<(Seq<char>, JsonV)>::empty());
        }
        put(&mut out, "id", Json::Int(self.id as i128));
        put(&mut out, "gameId", Json::Int(self.game_id as i128));
        put(&mut out, "modId", Json::Int(self.mod_id as i128));
        put(&mut out, "displayName", Json::Str(self.display_name.clone()));
        put(&mut out, "fileName", Json::Str(self.file_name.clone()));
        put(&mut out, "releaseType", Json::Int(self.release_type.encode() as i128));
        put(&mut out, "fileStatus", Json::Int(self.file_status.encode() as i128));
        put(&mut out, "hashes", encode_items::<FileHash>(&self.hashes));
        put(&mut out, "fileDate", Json::Str(self.file_date.clone()));
        put(&mut out, "fileLength", Json::Int(self.file_length as i128));
        put(&mut out, "downloadCount", Json::Int(self.download_count as i128));
        if let Some(x) = self.file_size_on_disk {
            put(&mut out, "fileSizeOnDisk", Json::Int(x as i128));
        }
        put(&mut out, "downloadUrl", Json::Str(self.download_url.clone()));
        put(&mut out, "gameVersions", encode_texts(&self.game_versions));
        put(&mut out, "dependencies", encode_items::<FileDependency>(&self.dependencies));
        append_fields(&mut out, unknown_fields(&self.dynamic_fields, &Self::field_names()));
        let j = Json::Object(out);
        proof {
            lemma_view_unfold(j);
        }
        j
    }

    proof fn round_trip(v: FileV) {
        Self::lemma_known_fields(v);
        FileReleaseType::lemma_code_round_trip(v.release_type);
        FileStatus::lemma_code_round_trip(v.file_status);
        lemma_round_trip_all::<FileHash>(v.hashes);
        lemma_round_trip_texts(v.game_versions);
        lemma_round_trip_all::<FileDependency>(v.dependencies);
        let known = Self::known_fields(v);
        let bag = without(v.dynamic_fields, among(Self::names()));
        lemma_without(v.dynamic_fields, among(Self::names()));
        lemma_without_add(known, bag, among(Self::names()));
        Self::lemma_names();
        lemma_lookup_free(bag, among(Self::names()), "id"@);
        lemma_lookup_add(known, bag, "id"@);
        lemma_lookup_free(bag, among(Self::names()), "gameId"@);
        lemma_lookup_add(known, bag, "gameId"@);
        lemma_lookup_free(bag, among(Self::names()), "modId"@);
        lemma_lookup_add(known, bag, "modId"@);
        lemma_lookup_free(bag, among(Self::names()), "displayName"@);
        lemma_lookup_add(known, bag, "displayName"@);
        lemma_lookup_free(bag, among(Self::names()), "fileName"@);
        lemma_lookup_add(known, bag, "fileName"@);
        lemma_lookup_free(bag, among(Self::names()), "releaseType"@);
        lemma_lookup_add(known, bag, "releaseType"@);
        lemma_lookup_free(bag, among(Self::names()), "fileStatus"@);
        lemma_lookup_add(known, bag, "fileStatus"@);
        lemma_lookup_free(bag, among(Self::names()), "hashes"@);
        lemma_lookup_add(known, bag, "hashes"@);
        lemma_lookup_free(bag, among(Self::names()), "fileDate"@);
        lemma_lookup_add(known, bag, "fileDate"@);
        lemma_lookup_free(bag, among(Self::names()), "fileLength"@);
        lemma_lookup_add(known, bag, "fileLength"@);
        lemma_lookup_free(bag, among(Self::names()), "downloadCount"@);
        lemma_lookup_add(known, bag, "downloadCount"@);
        lemma_lookup_free(bag, among(Self::names()), "fileSizeOnDisk"@);
        lemma_lookup_add(known, bag, "fileSizeOnDisk"@);
        lemma_lookup_free(bag, among(Self::names()), "downloadUrl"@);
        lemma_lookup_add(known, bag, "downloadUrl"@);
        lemma_lookup_free(bag, among(Self::names()), "gameVersions"@);
        lemma_lookup_add(known, bag, "gameVersions"@);
        lemma_lookup_free(bag, among(Self::names()), "dependencies"@);
        lemma_lookup_add(known, bag, "dependencies"@);
        assert(without(known + bag, among(Self::names())) =~= v.dynamic_fields);
    }

    proof fn encoded_is_object(v: FileV) {
    }

    proof fn decoded_is_valid(j: JsonV) {
        if let JsonV::Obj(f) = j {
            lemma_without(f, among(Self::names()));
            if let Some(JsonV::Arr(items)) = lookup(f, "hashes"@) {
                lemma_decode_all_valid::<FileHash>(items);
            }
            if let Some(JsonV::Arr(items)) = lookup(f, "dependencies"@) {
                lemma_decode_all_valid::<FileDependency>(items);
            }
        }
    }

    proof fn unknown_fields_kept(f: Fields, g: Fields) {
        Self::lemma_names();
        assert(lookup(f, "id"@) == lookup(g, "id"@));
        assert(lookup(f, "gameId"@) == lookup(g, "gameId"@));
        assert(lookup(f, "modId"@) == lookup(g, "modId"@));
        assert(lookup(f, "displayName"@) == lookup(g, "displayName"@));
        assert(lookup(f, "fileName"@) == lookup(g, "fileName"@));
        assert(lookup(f, "releaseType"@) == lookup(g, "releaseType"@));
        assert(lookup(f, "fileStatus"@) == lookup(g, "fileStatus"@));
        assert(lookup(f, "hashes"@) == lookup(g, "hashes"@));
        assert(lookup(f, "fileDate"@) == lookup(g, "fileDate"@));
        assert(lookup(f, "fileLength"@) == lookup(g, "fileLength"@));
        assert(lookup(f, "downloadCount"@) == lookup(g, "downloadCount"@));
        assert(lookup(f, "fileSizeOnDisk"@) == lookup(g, "fileSizeOnDisk"@));
        assert(lookup(f, "downloadUrl"@) == lookup(g, "downloadUrl"@));
        assert(lookup(f, "gameVersions"@) == lookup(g, "gameVersions"@));
        assert(lookup(f, "dependencies"@) == lookup(g, "dependencies"@));
        lemma_without(f, among(Self::names()));
    }
}

impl File {
    /// The known names are the listed ones, and no two of them are the
    /// same.
    pub proof fn lemma_names()
        ensures
            among(Self::names())("id"@),
            among(Self::names())("gameId"@),
            among(Self::names())("modId"@),
            among(Self::names())("displayName"@),
            among(Self::names())("fileName"@),
            among(Self::names())("releaseType"@),
            among(Self::names())("fileStatus"@),
            among(Self::names())("hashes"@),
            among(Self::names())("fileDate"@),
            among(Self::names())("fileLength"@),
            among(Self::names())("downloadCount"@),
            among(Self::names())("fileSizeOnDisk"@),
            among(Self::names())("downloadUrl"@),
            among(Self::names())("gameVersions"@),
            among(Self::names())("dependencies"@),
            "id"@ != "gameId"@,
            "id"@ != "modId"@,
            "id"@ != "displayName"@,
            "id"@ != "fileName"@,
            "id"@ != "releaseType"@,
            "id"@ != "fileStatus"@,
            "id"@ != "hashes"@,
            "id"@ != "fileDate"@,
            "id"@ != "fileLength"@,
            "id"@ != "downloadCount"@,
            "id"@ != "fileSizeOnDisk"@,
            "id"@ != "downloadUrl"@,
            "id"@ != "gameVersions"@,
            "id"@ != "dependencies"@,
            "gameId"@ != "modId"@,
            "gameId"@ != "displayName"@,
            "gameId"@ != "fileName"@,
            "gameId"@ != "releaseType"@,
            "gameId"@ != "fileStatus"@,
            "gameId"@ != "hashes"@,
            "gameId"@ != "fileDate"@,
            "gameId"@ != "fileLength"@,
            "gameId"@ != "downloadCount"@,
            "gameId"@ != "fileSizeOnDisk"@,
            "gameId"@ != "downloadUrl"@,
            "gameId"@ != "gameVersions"@,
            "gameId"@ != "dependencies"@,
            "modId"@ != "displayName"@,
            "modId"@ != "fileName"@,
            "modId"@ != "releaseType"@,
            "modId"@ != "fileStatus"@,
            "modId"@ != "hashes"@,
            "modId"@ != "fileDate"@,
            "modId"@ != "fileLength"@,
            "modId"@ != "downloadCount"@,
            "modId"@ != "fileSizeOnDisk"@,
            "modId"@ != "downloadUrl"@,
            "modId"@ != "gameVersions"@,
            "modId"@ != "dependencies"@,
            "displayName"@ != "fileName"@,
            "displayName"@ != "releaseType"@,
            "displayName"@ != "fileStatus"@,
            "displayName"@ != "hashes"@,
            "displayName"@ != "fileDate"@,
            "displayName"@ != "fileLength"@,
            "displayName"@ != "downloadCount"@,
            "displayName"@ != "fileSizeOnDisk"@,
            "displayName"@ != "downloadUrl"@,
            "displayName"@ != "gameVersions"@,
            "displayName"@ != "dependencies"@,
            "fileName"@ != "releaseType"@,
            "fileName"@ != "fileStatus"@,
            "fileName"@ != "hashes"@,
            "fileName"@ != "fileDate"@,
            "fileName"@ != "fileLength"@,
            "fileName"@ != "downloadCount"@,
            "fileName"@ != "fileSizeOnDisk"@,
            "fileName"@ != "downloadUrl"@,
            "fileName"@ != "gameVersions"@,
            "fileName"@ != "dependencies"@,
            "releaseType"@ != "fileStatus"@,
            "releaseType"@ != "hashes"@,
            "releaseType"@ != "fileDate"@,
            "releaseType"@ != "fileLength"@,
            "releaseType"@ != "downloadCount"@,
            "releaseType"@ != "fileSizeOnDisk"@,
            "releaseType"@ != "downloadUrl"@,
            "releaseType"@ != "gameVersions"@,
            "releaseType"@ != "dependencies"@,
            "fileStatus"@ != "hashes"@,
            "fileStatus"@ != "fileDate"@,
            "fileStatus"@ != "fileLength"@,
            "fileStatus"@ != "downloadCount"@,
            "fileStatus"@ != "fileSizeOnDisk"@,
            "fileStatus"@ != "downloadUrl"@,
            "fileStatus"@ != "gameVersions"@,
            "fileStatus"@ != "dependencies"@,
            "hashes"@ != "fileDate"@,
            "hashes"@ != "fileLength"@,
            "hashes"@ != "downloadCount"@,
            "hashes"@ != "fileSizeOnDisk"@,
            "hashes"@ != "downloadUrl"@,
            "hashes"@ != "gameVersions"@,
            "hashes"@ != "dependencies"@,
            "fileDate"@ != "fileLength"@,
            "fileDate"@ != "downloadCount"@,
            "fileDate"@ != "fileSizeOnDisk"@,
            "fileDate"@ != "downloadUrl"@,
            "fileDate"@ != "gameVersions"@,
            "fileDate"@ != "dependencies"@,
            "fileLength"@ != "downloadCount"@,
            "fileLength"@ != "fileSizeOnDisk"@,
            "fileLength"@ != "downloadUrl"@,
            "fileLength"@ != "gameVersions"@,
            "fileLength"@ != "dependencies"@,
            "downloadCount"@ != "fileSizeOnDisk"@,
            "downloadCount"@ != "downloadUrl"@,
            "downloadCount"@ != "gameVersions"@,
            "downloadCount"@ != "dependencies"@,
            "fileSizeOnDisk"@ != "downloadUrl"@,
            "fileSizeOnDisk"@ != "gameVersions"@,
            "fileSizeOnDisk"@ != "dependencies"@,
            "downloadUrl"@ != "gameVersions"@,
            "downloadUrl"@ != "dependencies"@,
            "gameVersions"@ != "dependencies"@,
    {
        reveal_strlit("id");
        assert(Self::names()[0] == "id" && "id"@.len() == 2);
        reveal_strlit("gameId");
        assert(Self::names()[1] == "gameId" && "gameId"@.len() == 6);
        reveal_strlit("modId");
        assert(Self::names()[2] == "modId" && "modId"@.len() == 5);
        reveal_strlit("displayName");
        assert(Self::names()[3] == "displayName" && "displayName"@.len() == 11);
        reveal_strlit("fileName");
        assert(Self::names()[4] == "fileName" && "fileName"@.len() == 8);
        reveal_strlit("releaseType");
        assert(Self::names()[5] == "releaseType" && "releaseType"@.len() == 11);
        reveal_strlit("fileStatus");
        assert(Self::names()[6] == "fileStatus" && "fileStatus"@.len() == 10);
        reveal_strlit("hashes");
        assert(Self::names()[7] == "hashes" && "hashes"@.len() == 6);
        reveal_strlit("fileDate");
        assert(Self::names()[8] == "fileDate" && "fileDate"@.len() == 8);
        reveal_strlit("fileLength");
        assert(Self::names()[9] == "fileLength" && "fileLength"@.len() == 10);
        reveal_strlit("downloadCount");
        assert(Self::names()[10] == "downloadCount" && "downloadCount"@.len() == 13);
        reveal_strlit("fileSizeOnDisk");
        assert(Self::names()[11] == "fileSizeOnDisk" && "fileSizeOnDisk"@.len() == 14);
        reveal_strlit("downloadUrl");
        assert(Self::names()[12] == "downloadUrl" && "downloadUrl"@.len() == 11);
        reveal_strlit("gameVersions");
        assert(Self::names()[13] == "gameVersions" && "gameVersions"@.len() == 12);
        reveal_strlit("dependencies");
        assert(Self::names()[14] == "dependencies" && "dependencies"@.len() == 12);
        assert("gameId"@[0] != "hashes"@[0]);
        assert("displayName"@[0] != "releaseType"@[0]);
        assert("displayName"@[1] != "downloadUrl"@[1]);
        assert("fileName"@[4] != "fileDate"@[4]);
        assert("releaseType"@[0] != "downloadUrl"@[0]);
        assert("fileStatus"@[4] != "fileLength"@[4]);
        assert("gameVersions"@[0] != "dependencies"@[0]);
    }

    /// Under a known name the encoded record holds the known field, whatever
    /// the overflow bag holds under that name.
    pub proof fn lemma_known_wins(v: FileV, key: Seq<char>)
        requires
            among(Self::names())(key),
        ensures
            Self::encoded(v) matches JsonV::Obj(f) && lookup(f, key) == lookup(
                Self::known_fields(v),
                key,
            ),
    {
        let bag = without(v.dynamic_fields, among(Self::names()));
        lemma_without(v.dynamic_fields, among(Self::names()));
        lemma_lookup_free(bag, among(Self::names()), key);
        lemma_lookup_add(Self::known_fields(v), bag, key);
    }

    /// Each known field is found under its name in the encoded known
    /// fields, an absent one is not, and all of their names are known.
    pub proof fn lemma_known_fields(v: FileV)
        ensures
            lookup(Self::known_fields(v), "id"@) == Some(JsonV::Int(v.id as int)),
            lookup(Self::known_fields(v), "gameId"@) == Some(JsonV::Int(v.game_id as int)),
            lookup(Self::known_fields(v), "modId"@) == Some(JsonV::Int(v.mod_id as int)),
            lookup(Self::known_fields(v), "displayName"@) == Some(JsonV::Str(v.display_name)),
            lookup(Self::known_fields(v), "fileName"@) == Some(JsonV::Str(v.file_name)),
            lookup(Self::known_fields(v), "releaseType"@) == Some(JsonV::Int(v.release_type.wire() as int)),
            lookup(Self::known_fields(v), "fileStatus"@) == Some(JsonV::Int(v.file_status.wire() as int)),
            lookup(Self::known_fields(v), "hashes"@) == Some(JsonV::Arr(encode_all::<FileHash>(v.hashes))),
            lookup(Self::known_fields(v), "fileDate"@) == Some(JsonV::Str(v.file_date)),
            lookup(Self::known_fields(v), "fileLength"@) == Some(JsonV::Int(v.file_length as int)),
            lookup(Self::known_fields(v), "downloadCount"@) == Some(JsonV::Int(v.download_count as int)),
            lookup(Self::known_fields(v), "fileSizeOnDisk"@) == match v.file_size_on_disk {
                Some(x) => Some(JsonV::Int(x as int)),
                None => None,
            },
            lookup(Self::known_fields(v), "downloadUrl"@) == Some(JsonV::Str(v.download_url)),
            lookup(Self::known_fields(v), "gameVersions"@) == Some(texts_json(v.game_versions)),
            lookup(Self::known_fields(v), "dependencies"@) == Some(JsonV::Arr(encode_all::<FileDependency>(v.dependencies))),
            without(Self::known_fields(v), among(Self::names())) == Seq::<(Seq<char>, JsonV)>::empty(),
    {
        broadcast use lemma_lookup_push, lemma_without_push;

        Self::lemma_names();
        assert(without(Self::known_fields(v), among(Self::names())) =~= Seq::<(Seq<char>, JsonV)>::empty());
    }
}

/// A file as the index of a mod's latest files lists it.
#[derive(Debug, PartialEq)]
pub struct FileIndex {
    pub game_version: String,
    pub file_id: u32,
    pub filename: String,
    pub release_type: FileReleaseType,
    pub game_version_type: Option<u32>,
    pub mod_loader: ModLoaderType,
    /// The fields of the payload that the record does not know.
    pub dynamic_fields: Vec<Member>,
}

/// The model of a [`FileIndex`].
pub struct FileIndexV {
    pub game_version: Seq<char>,
    pub file_id: u32,
    pub filename: Seq<char>,
    pub release_type: FileReleaseType,
    pub game_version_type: Option<u32>,
    pub mod_loader: ModLoaderType,
    pub dynamic_fields: Fields,
}

impl View for FileIndex {
    type V = FileIndexV;

    open spec fn view(&self) -> FileIndexV {
        FileIndexV {
            game_version: self.game_version@,
            file_id: self.file_id,
            filename: self.filename@,
            release_type: self.release_type,
            game_version_type: self.game_version_type,
            mod_loader: self.mod_loader,
            dynamic_fields: pairs_view(self.dynamic_fields@),
        }
    }
}

impl FileIndex {
    /// The known fields of a record as they are encoded, in declaration
    /// order; an absent optional field is left out.
    pub open spec fn known_fields(v: FileIndexV) -> Fields {
        let s = Seq::<(Seq<char>, JsonV)>::empty();
        let s = s.push(("gameVersion"@, JsonV::Str(v.game_version)));
        let s = s.push(("fileId"@, JsonV::Int(v.file_id as int)));
        let s = s.push(("filename"@, JsonV::Str(v.filename)));
        let s = s.push(("releaseType"@, JsonV::Int(v.release_type.wire() as int)));
        let s = match v.game_version_type {
            Some(x) => s.push(("gameVersionType"@, JsonV::Int(x as int))),
            None => s,
        };
        let s = s.push(("modLoader"@, JsonV::Int(v.mod_loader.wire() as int)));
        s
    }

    /// The value that the overflow bag holds under `key`: the first one,
    /// where the payload held several.
    pub fn extra(&self, key: &str) -> (r: Option<&Json>)
        ensures
            match r {
                Some(j) => lookup(self@.dynamic_fields, key@) == Some(j@),
                None => lookup(self@.dynamic_fields, key@) is None,
            },
    {
        find(&self.dynamic_fields, key)
    }
}

impl Entity for FileIndex {
    open spec fn names() -> Seq<&'static str> {
        seq![
            "gameVersion",
            "fileId",
            "filename",
            "releaseType",
            "gameVersionType",
            "modLoader",
        ]
    }

    open spec fn decoded(j: JsonV) -> Result<FileIndexV, DecodeError> {
        match j {
            JsonV::Obj(f) => {
                let game_version = req_text(f, "gameVersion");
                let file_id = req_u32(f, "fileId");
                let filename = req_text(f, "filename");
                let release_type = match req_u64(f, "releaseType") {
                    Ok(code) => FileReleaseType::of_wire(code),
                    Err(e) => Err(e),
                };
                let game_version_type = opt_u32(f, "gameVersionType");
                let mod_loader = match req_u64(f, "modLoader") {
                    Ok(code) => ModLoaderType::of_wire(code),
                    Err(e) => Err(e),
                };
                if game_version is Err {
                    Err(game_version->Err_0)
                } else if file_id is Err {
                    Err(file_id->Err_0)
                } else if filename is Err {
                    Err(filename->Err_0)
                } else if release_type is Err {
                    Err(release_type->Err_0)
                } else if game_version_type is Err {
                    Err(game_version_type->Err_0)
                } else if mod_loader is Err {
                    Err(mod_loader->Err_0)
                } else {
                    Ok(
                        FileIndexV {
                            game_version: game_version->Ok_0,
                            file_id: file_id->Ok_0,
                            filename: filename->Ok_0,
                            release_type: release_type->Ok_0,
                            game_version_type: game_version_type->Ok_0,
                            mod_loader: mod_loader->Ok_0,
                            dynamic_fields: without(f, among(Self::names())),
                        },
                    )
                }
            },
            _ => Err(malformed("$", JsonKind::Object)),
        }
    }

    open spec fn encoded(v: FileIndexV) -> JsonV {
        JsonV::Obj(Self::known_fields(v) + without(v.dynamic_fields, among(Self::names())))
    }

    open spec fn overflow(v: FileIndexV) -> Fields {
        v.dynamic_fields
    }

    open spec fn with_overflow(v: FileIndexV, bag: Fields) -> FileIndexV {
        FileIndexV { dynamic_fields: bag, ..v }
    }

    open spec fn valid(v: FileIndexV) -> bool {
        free_of(v.dynamic_fields, among(Self::names()))
    }

    fn field_names() -> (r: Vec<&'static str>) {
        let mut r: Vec<&'static str> = Vec::new();
        r.push("gameVersion");
        r.push("fileId");
        r.push("filename");
        r.push("releaseType");
        r.push("gameVersionType");
        r.push("modLoader");
        proof {
            assert(r@ =~= Self::names());
        }
        r
    }

    fn decode(j: &Json) -> (r: Result<FileIndex, DecodeError>) {
        match j {
            Json::Object(fields) => {
                proof {
                    lemma_view_unfold(*j);
                }
                let game_version = get_text(fields, "gameVersion")?;
                let file_id = get_u32(fields, "fileId")?;
                let filename = get_text(fields, "filename")?;
                let release_type = FileReleaseType::decode(get_u64(fields, "releaseType")?)?;
                let game_version_type = get_opt_u32(fields, "gameVersionType")?;
                let mod_loader = ModLoaderType::decode(get_u64(fields, "modLoader")?)?;
                let dynamic_fields = unknown_fields(fields, &Self::field_names());
                Ok(FileIndex { game_version, file_id, filename, release_type, game_version_type, mod_loader, dynamic_fields })
            },
            _ => Err(DecodeError::MalformedField { path: "$", expected: JsonKind::Object }),
        }
    }

    fn encode(&self) -> (j: Json) {
        let mut out: Vec<Member> = Vec::new();
        proof {
            assert(pairs_view(out@) =~= Seq::<(Seq<char>, JsonV)>::empty());
        }
        put(&mut out, "gameVersion", Json::Str(self.game_version.clone()));
        put(&mut out, "fileId", Json::Int(self.file_id as i128));
        put(&mut out, "filename", Json::Str(self.filename.clone()));
        put(&mut out, "releaseType", Json::Int(self.release_type.encode() as i128));
        if let Some(x) = self.game_version_type {
            put(&mut out, "gameVersionType", Json::Int(x as i128));
        }
        put(&mut out, "modLoader", Json::Int(self.mod_loader.encode() as i128));
        append_fields(&mut out, unknown_fields(&self.dynamic_fields, &Self::field_names()));
        let j = Json::Object(out);
        proof {
            lemma_view_unfold(j);
        }
        j
    }

    proof fn round_trip(v: FileIndexV) {
        Self::lemma_known_fields(v);
        FileReleaseType::lemma_code_round_trip(v.release_type);
        ModLoaderType::lemma_code_round_trip(v.mod_loader);
        let known = Self::known_fields(v);
        let bag = without(v.dynamic_fields, among(Self::names()));
        lemma_without(v.dynamic_fields, among(Self::names()));
        lemma_without_add(known, bag, among(Self::names()));
        Self::lemma_names();
        lemma_lookup_free(bag, among(Self::names()), "gameVersion"@);
        lemma_lookup_add(known, bag, "gameVersion"@);
        lemma_lookup_free(bag, among(Self::names()), "fileId"@);
        lemma_lookup_add(known, bag, "fileId"@);
        lemma_lookup_free(bag, among(Self::names()), "filename"@);
        lemma_lookup_add(known, bag, "filename"@);
        lemma_lookup_free(bag, among(Self::names()), "releaseType"@);
        lemma_lookup_add(known, bag, "releaseType"@);
        lemma_lookup_free(bag, among(Self::names()), "gameVersionType"@);
        lemma_lookup_add(known, bag, "gameVersionType"@);
        lemma_lookup_free(bag, among(Self::names()), "modLoader"@);
        lemma_lookup_add(known, bag, "modLoader"@);
        assert(without(known + bag, among(Self::names())) =~= v.dynamic_fields);
    }

    proof fn encoded_is_object(v: FileIndexV) {
    }

    proof fn decoded_is_valid(j: JsonV) {
        if let JsonV::Obj(f) = j {
            lemma_without(f, among(Self::names()));
        }
    }

    proof fn unknown_fields_kept(f: Fields, g: Fields) {
        Self::lemma_names();
        assert(lookup(f, "gameVersion"@) == lookup(g, "gameVersion"@));
        assert(lookup(f, "fileId"@) == lookup(g, "fileId"@));
        assert(lookup(f, "filename"@) == lookup(g, "filename"@));
        assert(lookup(f, "releaseType"@) == lookup(g, "releaseType"@));
        assert(lookup(f, "gameVersionType"@) == lookup(g, "gameVersionType"@));
        assert(lookup(f, "modLoader"@) == lookup(g, "modLoader"@));
        lemma_without(f, among(Self::names()));
    }
}

impl FileIndex {
    /// The known names are the listed ones, and no two of them are the
    /// same.
    pub proof fn lemma_names()
        ensures
            among(Self::names())("gameVersion"@),
            among(Self::names())("fileId"@),
            among(Self::names())("filename"@),
            among(Self::names())("releaseType"@),
            among(Self::names())("gameVersionType"@),
            among(Self::names())("modLoader"@),
            "gameVersion"@ != "fileId"@,
            "gameVersion"@ != "filename"@,
            "gameVersion"@ != "releaseType"@,
            "gameVersion"@ != "gameVersionType"@,
            "gameVersion"@ != "modLoader"@,
            "fileId"@ != "filename"@,
            "fileId"@ != "releaseType"@,
            "fileId"@ != "gameVersionType"@,
            "fileId"@ != "modLoader"@,
            "filename"@ != "releaseType"@,
            "filename"@ != "gameVersionType"@,
            "filename"@ != "modLoader"@,
            "releaseType"@ != "gameVersionType"@,
            "releaseType"@ != "modLoader"@,
            "gameVersionType"@ != "modLoader"@,
    {
        reveal_strlit("gameVersion");
        assert(Self::names()[0] == "gameVersion" && "gameVersion"@.len() == 11);
        reveal_strlit("fileId");
        assert(Self::names()[1] == "fileId" && "fileId"@.len() == 6);
        reveal_strlit("filename");
        assert(Self::names()[2] == "filename" && "filename"@.len() == 8);
        reveal_strlit("releaseType");
        assert(Self::names()[3] == "releaseType" && "releaseType"@.len() == 11);
        reveal_strlit("gameVersionType");
        assert(Self::names()[4] == "gameVersionType" && "gameVersionType"@.len() == 15);
        reveal_strlit("modLoader");
        assert(Self::names()[5] == "modLoader" && "modLoader"@.len() == 9);
        assert("gameVersion"@[0] != "releaseType"@[0]);
    }

    /// Under a known name the encoded record holds the known field, whatever
    /// the overflow bag holds under that name.
    pub proof fn lemma_known_wins(v: FileIndexV, key: Seq<char>)
        requires
            among(Self::names())(key),
        ensures
            Self::encoded(v) matches JsonV::Obj(f) && lookup(f, key) == lookup(
                Self::known_fields(v),
                key,
            ),
    {
        let bag = without(v.dynamic_fields, among(Self::names()));
        lemma_without(v.dynamic_fields, among(Self::names()));
        lemma_lookup_free(bag, among(Self::names()), key);
        lemma_lookup_add(Self::known_fields(v), bag, key);
    }

    /// Each known field is found under its name in the encoded known
    /// fields, an absent one is not, and all of their names are known.
    pub proof fn lemma_known_fields(v: FileIndexV)
        ensures
            lookup(Self::known_fields(v), "gameVersion"@) == Some(JsonV::Str(v.game_version)),
            lookup(Self::known_fields(v), "fileId"@) == Some(JsonV::Int(v.file_id as int)),
            lookup(Self::known_fields(v), "filename"@) == Some(JsonV::Str(v.filename)),
            lookup(Self::known_fields(v), "releaseType"@) == Some(JsonV::Int(v.release_type.wire() as int)),
            lookup(Self::known_fields(v), "gameVersionType"@) == match v.game_version_type {
                Some(x) => Some(JsonV::Int(x as int)),
                None => None,
            },
            lookup(Self::known_fields(v), "modLoader"@) == Some(JsonV::Int(v.mod_loader.wire() as int)),
            without(Self::known_fields(v), among(Self::names())) == Seq::<(Seq<char>, JsonV)>::empty(),
    {
        broadcast use lemma_lookup_push, lemma_without_push;

        Self::lemma_names();
        assert(without(Self::known_fields(v), among(Self::names())) =~= Seq::<(Seq<char>, JsonV)>::empty());
    }
}

/// How settled a file is.
#[derive(Clone, Copy, Debug, PartialEq, Eq, Structural)]
pub enum FileReleaseType {
    Release,
    Beta,
    Alpha,
}

impl FileReleaseType {
    /// The wire code of a variant.
    pub open spec fn wire(self) -> u64 {
        match self {
            FileReleaseType::Release => 1,
            FileReleaseType::Beta => 2,
            FileReleaseType::Alpha => 3,
        }
    }

    /// The variant that a wire code stands for; a code outside the table
    /// is a failure, never a default.
    pub open spec fn of_wire(code: u64) -> Result<FileReleaseType, DecodeError> {
        if code == 1 {
            Ok(FileReleaseType::Release)
        } else if code == 2 {
            Ok(FileReleaseType::Beta)
        } else if code == 3 {
            Ok(FileReleaseType::Alpha)
        } else {
            Err(DecodeError::UnrecognizedCode { value: code, enum_name: "FileReleaseType" })
        }
    }

    pub fn encode(&self) -> (code: u64)
        ensures
            code == self.wire(),
    {
        match self {
            FileReleaseType::Release => 1,
            FileReleaseType::Beta => 2,
            FileReleaseType::Alpha => 3,
        }
    }

    pub fn decode(code: u64) -> (r: Result<FileReleaseType, DecodeError>)
        ensures
            r == Self::of_wire(code),
    {
        match code {
            1 => Ok(FileReleaseType::Release),
            2 => Ok(FileReleaseType::Beta),
            3 => Ok(FileReleaseType::Alpha),
            _ => Err(DecodeError::UnrecognizedCode { value: code, enum_name: "FileReleaseType" }),
        }
    }

    /// Every variant has a code, and decoding that code gives the variant
    /// back.
    pub proof fn lemma_code_round_trip(v: FileReleaseType)
        ensures
            Self::of_wire(v.wire()) == Ok::<FileReleaseType, DecodeError>(v),
    {
    }

    /// A code decodes to the one variant that has it, and every other
    /// code is reported with its value and the enumeration's name.
    pub proof fn lemma_decode_exact(code: u64)
        ensures
            match Self::of_wire(code) {
                Ok(v) => v.wire() == code,
                Err(e) => e == (DecodeError::UnrecognizedCode { value: code, enum_name: "FileReleaseType" })
                    && forall|v: FileReleaseType| v.wire() != code,
            },
    {
    }
}

/// Where a file stands in the site's processing.
#[derive(Clone, Copy, Debug, PartialEq, Eq, Structural)]
pub enum FileStatus {
    Processing,
    ChangesRequired,
    UnderReview,
    Approved,
    Rejected,
    MalwareDetected,
    Deleted,
    Archived,
    Testing,
    Released,
    ReadyForReview,
    Deprecated,
    Baking,
    AwaitingPublishing,
    FailedPublishing,
    Cooking,
    Cooked,
    UnderManualReview,
    ScanningForMalware,
    ProcessingFile,
    PendingRelease,
    ReadyForCooking,
    PostProcessing,
}

impl FileStatus {
    /// The wire code of a variant.
    pub open spec fn wire(self) -> u64 {
        match self {
            FileStatus::Processing => 1,
            FileStatus::ChangesRequired => 2,
            FileStatus::UnderReview => 3,
            FileStatus::Approved => 4,
            FileStatus::Rejected => 5,
            FileStatus::MalwareDetected => 6,
            FileStatus::Deleted => 7,
            FileStatus::Archived => 8,
            FileStatus::Testing => 9,
            FileStatus::Released => 10,
            FileStatus::ReadyForReview => 11,
            FileStatus::Deprecated => 12,
            FileStatus::Baking => 13,
            FileStatus::AwaitingPublishing => 14,
            FileStatus::FailedPublishing => 15,
            FileStatus::Cooking => 16,
            FileStatus::Cooked => 17,
            FileStatus::UnderManualReview => 18,
            FileStatus::ScanningForMalware => 19,
            FileStatus::ProcessingFile => 20,
            FileStatus::PendingRelease => 21,
            FileStatus::ReadyForCooking => 22,
            FileStatus::PostProcessing => 23,
        }
    }

    /// The variant that a wire code stands for; a code outside the table
    /// is a failure, never a default.
    pub open spec fn of_wire(code: u64) -> Result<FileStatus, DecodeError> {
        if code == 1 {
            Ok(FileStatus::Processing)
        } else if code == 2 {
            Ok(FileStatus::ChangesRequired)
        } else if code == 3 {
            Ok(FileStatus::UnderReview)
        } else if code == 4 {
            Ok(FileStatus::Approved)
        } else if code == 5 {
            Ok(FileStatus::Rejected)
        } else if code == 6 {
            Ok(FileStatus::MalwareDetected)
        } else if code == 7 {
            Ok(FileStatus::Deleted)
        } else if code == 8 {
            Ok(FileStatus::Archived)
        } else if code == 9 {
            Ok(FileStatus::Testing)
        } else if code == 10 {
            Ok(FileStatus::Released)
        } else if code == 11 {
            Ok(FileStatus::ReadyForReview)
        } else if code == 12 {
            Ok(FileStatus::Deprecated)
        } else if code == 13 {
            Ok(FileStatus::Baking)
        } else if code == 14 {
            Ok(FileStatus::AwaitingPublishing)
        } else if code == 15 {
            Ok(FileStatus::FailedPublishing)
        } else if code == 16 {
            Ok(FileStatus::Cooking)
        } else if code == 17 {
            Ok(FileStatus::Cooked)
        } else if code == 18 {
            Ok(FileStatus::UnderManualReview)
        } else if code == 19 {
            Ok(FileStatus::ScanningForMalware)
        } else if code == 20 {
            Ok(FileStatus::ProcessingFile)
        } else if code == 21 {
            Ok(FileStatus::PendingRelease)
        } else if code == 22 {
            Ok(FileStatus::ReadyForCooking)
        } else if code == 23 {
            Ok(FileStatus::PostProcessing)
        } else {
            Err(DecodeError::UnrecognizedCode { value: code, enum_name: "FileStatus" })
        }
    }

    pub fn encode(&self) -> (code: u64)
        ensures
            code == self.wire(),
    {
        match self {
            FileStatus::Processing => 1,
            FileStatus::ChangesRequired => 2,
            FileStatus::UnderReview => 3,
            FileStatus::Approved => 4,
            FileStatus::Rejected => 5,
            FileStatus::MalwareDetected => 6,
            FileStatus::Deleted => 7,
            FileStatus::Archived => 8,
            FileStatus::Testing => 9,
            FileStatus::Released => 10,
            FileStatus::ReadyForReview => 11,
            FileStatus::Deprecated => 12,
            FileStatus::Baking => 13,
            FileStatus::AwaitingPublishing => 14,
            FileStatus::FailedPublishing => 15,
            FileStatus::Cooking => 16,
            FileStatus::Cooked => 17,
            FileStatus::UnderManualReview => 18,
            FileStatus::ScanningForMalware => 19,
            FileStatus::ProcessingFile => 20,
            FileStatus::PendingRelease => 21,
            FileStatus::ReadyForCooking => 22,
            FileStatus::PostProcessing => 23,
        }
    }

    pub fn decode(code: u64) -> (r: Result<FileStatus, DecodeError>)
        ensures
            r == Self::of_wire(code),
    {
        match code {
            1 => Ok(FileStatus::Processing),
            2 => Ok(FileStatus::ChangesRequired),
            3 => Ok(FileStatus::UnderReview),
            4 => Ok(FileStatus::Approved),
            5 => Ok(FileStatus::Rejected),
            6 => Ok(FileStatus::MalwareDetected),
            7 => Ok(FileStatus::Deleted),
            8 => Ok(FileStatus::Archived),
            9 => Ok(FileStatus::Testing),
            10 => Ok(FileStatus::Released),
            11 => Ok(FileStatus::ReadyForReview),
            12 => Ok(FileStatus::Deprecated),
            13 => Ok(FileStatus::Baking),
            14 => Ok(FileStatus::AwaitingPublishing),
            15 => Ok(FileStatus::FailedPublishing),
            16 => Ok(FileStatus::Cooking),
            17 => Ok(FileStatus::Cooked),
            18 => Ok(FileStatus::UnderManualReview),
            19 => Ok(FileStatus::ScanningForMalware),
            20 => Ok(FileStatus::ProcessingFile),
            21 => Ok(FileStatus::PendingRelease),
            22 => Ok(FileStatus::ReadyForCooking),
            23 => Ok(FileStatus::PostProcessing),
            _ => Err(DecodeError::UnrecognizedCode { value: code, enum_name: "FileStatus" }),
        }
    }

    /// Every variant has a code, and decoding that code gives the variant
    /// back.
    pub proof fn lemma_code_round_trip(v: FileStatus)
        ensures
            Self::of_wire(v.wire()) == Ok::<FileStatus, DecodeError>(v),
    {
    }

    /// A code decodes to the one variant that has it, and every other
    /// code is reported with its value and the enumeration's name.
    pub proof fn lemma_decode_exact(code: u64)
        ensures
            match Self::of_wire(code) {
                Ok(v) => v.wire() == code,
                Err(e) => e == (DecodeError::UnrecognizedCode { value: code, enum_name: "FileStatus" })
                    && forall|v: FileStatus| v.wire() != code,
            },
    {
    }
}

/// A digest of a file and the algorithm that made it.
#[derive(Debug, PartialEq)]
pub struct FileHash {
    pub value: String,
    pub algo: HashAlgo,
    /// The fields of the payload that the record does not know.
    pub dynamic_fields: Vec<Member>,
}

/// The model of a [`FileHash`].
pub struct FileHashV {
    pub value: Seq<char>,
    pub algo: HashAlgo,
    pub dynamic_fields: Fields,
}

impl View for FileHash {
    type V = FileHashV;

    open spec fn view(&self) -> FileHashV {
        FileHashV {
            value: self.value@,
            algo: self.algo,
            dynamic_fields: pairs_view(self.dynamic_fields@),
        }
    }
}

impl FileHash {
    /// The known fields of a record as they are encoded, in declaration
    /// order; an absent optional field is left out.
    pub open spec fn known_fields(v: FileHashV) -> Fields {
        let s = Seq::<(Seq<char>, JsonV)>::empty();
        let s = s.push(("value"@, JsonV::Str(v.value)));
        let s = s.push(("algo"@, JsonV::Int(v.algo.wire() as int)));
        s
    }

    /// The value that the overflow bag holds under `key`: the first one,
    /// where the payload held several.
    pub fn extra(&self, key: &str) -> (r: Option<&Json>)
        ensures
            match r {
                Some(j) => lookup(self@.dynamic_fields, key@) == Some(j@),
                None => lookup(self@.dynamic_fields, key@) is None,
            },
    {
        find(&self.dynamic_fields, key)
    }
}

impl Entity for FileHash {
    open spec fn names() -> Seq<&'static str> {
        seq![
            "value",
            "algo",
        ]
    }

    open spec fn decoded(j: JsonV) -> Result<FileHashV, DecodeError> {
        match j {
            JsonV::Obj(f) => {
                let value = req_text(f, "value");
                let algo = match req_u64(f, "algo") {
                    Ok(code) => HashAlgo::of_wire(code),
                    Err(e) => Err(e),
                };
                if value is Err {
                    Err(value->Err_0)
                } else if algo is Err {
                    Err(algo->Err_0)
                } else {
                    Ok(
                        FileHashV {
                            value: value->Ok_0,
                            algo: algo->Ok_0,
                            dynamic_fields: without(f, among(Self::names())),
                        },
                    )
                }
            },
            _ => Err(malformed("$", JsonKind::Object)),
        }
    }

    open spec fn encoded(v: FileHashV) -> JsonV {
        JsonV::Obj(Self::known_fields(v) + without(v.dynamic_fields, among(Self::names())))
    }

    open spec fn overflow(v: FileHashV) -> Fields {
        v.dynamic_fields
    }

    open spec fn with_overflow(v: FileHashV, bag: Fields) -> FileHashV {
        FileHashV { dynamic_fields: bag, ..v }
    }

    open spec fn valid(v: FileHashV) -> bool {
        free_of(v.dynamic_fields, among(Self::names()))
    }

    fn field_names() -> (r: Vec<&'static str>) {
        let mut r: Vec<&'static str> = Vec::new();
        r.push("value");
        r.push("algo");
        proof {
            assert(r@ =~= Self::names());
        }
        r
    }

    fn decode(j: &Json) -> (r: Result<FileHash, DecodeError>) {
        match j {
            Json::Object(fields) => {
                proof {
                    lemma_view_unfold(*j);
                }
                let value = get_text(fields, "value")?;
                let algo = HashAlgo::decode(get_u64(fields, "algo")?)?;
                let dynamic_fields = unknown_fields(fields, &Self::field_names());
                Ok(FileHash { value, algo, dynamic_fields })
            },
            _ => Err(DecodeError::MalformedField { path: "$", expected: JsonKind::Object }),
        }
    }

    fn encode(&self) -> (j: Json) {
        let mut out: Vec<Member> = Vec::new();
        proof {
            assert(pairs_view(out@) =~= Seq::<(Seq<char>, JsonV)>::empty());
        }
        put(&mut out, "value", Json::Str(self.value.clone()));
        put(&mut out, "algo", Json::Int(self.algo.encode() as i128));
        append_fields(&mut out, unknown_fields(&self.dynamic_fields, &Self::field_names()));
        let j = Json::Object(out);
        proof {
            lemma_view_unfold(j);
        }
        j
    }

    proof fn round_trip(v: FileHashV) {
        Self::lemma_known_fields(v);
        HashAlgo::lemma_code_round_trip(v.algo);
        let known = Self::known_fields(v);
        let bag = without(v.dynamic_fields, among(Self::names()));
        lemma_without(v.dynamic_fields, among(Self::names()));
        lemma_without_add(known, bag, among(Self::names()));
        Self::lemma_names();
        lemma_lookup_free(bag, among(Self::names()), "value"@);
        lemma_lookup_add(known, bag, "value"@);
        lemma_lookup_free(bag, among(Self::names()), "algo"@);
        lemma_lookup_add(known, bag, "algo"@);
        assert(without(known + bag, among(Self::names())) =~= v.dynamic_fields);
    }

    proof fn encoded_is_object(v: FileHashV) {
    }

    proof fn decoded_is_valid(j: JsonV) {
        if let JsonV::Obj(f) = j {
            lemma_without(f, among(Self::names()));
        }
    }

    proof fn unknown_fields_kept(f: Fields, g: Fields) {
        Self::lemma_names();
        assert(lookup(f, "value"@) == lookup(g, "value"@));
        assert(lookup(f, "algo"@) == lookup(g, "algo"@));
        lemma_without(f, among(Self::names()));
    }
}

impl FileHash {
    /// The known names are the listed ones, and no two of them are the
    /// same.
    pub proof fn lemma_names()
        ensures
            among(Self::names())("value"@),
            among(Self::names())("algo"@),
            "value"@ != "algo"@,
    {
        reveal_strlit("value");
        assert(Self::names()[0] == "value" && "value"@.len() == 5);
        reveal_strlit("algo");
        assert(Self::names()[1] == "algo" && "algo"@.len() == 4);
    }

    /// Under a known name the encoded record holds the known field, whatever
    /// the overflow bag holds under that name.
    pub proof fn lemma_known_wins(v: FileHashV, key: Seq<char>)
        requires
            among(Self::names())(key),
        ensures
            Self::encoded(v) matches JsonV::Obj(f) && lookup(f, key) == lookup(
                Self::known_fields(v),
                key,
            ),
    {
        let bag = without(v.dynamic_fields, among(Self::names()));
        lemma_without(v.dynamic_fields, among(Self::names()));
        lemma_lookup_free(bag, among(Self::names()), key);
        lemma_lookup_add(Self::known_fields(v), bag, key);
    }

    /// Each known field is found under its name in the encoded known
    /// fields, an absent one is not, and all of their names are known.
    pub proof fn lemma_known_fields(v: FileHashV)
        ensures
            lookup(Self::known_fields(v), "value"@) == Some(JsonV::Str(v.value)),
            lookup(Self::known_fields(v), "algo"@) == Some(JsonV::Int(v.algo.wire() as int)),
            without(Self::known_fields(v), among(Self::names())) == Seq::<(Seq<char>, JsonV)>::empty(),
    {
        broadcast use lemma_lookup_push, lemma_without_push;

        Self::lemma_names();
        assert(without(Self::known_fields(v), among(Self::names())) =~= Seq::<(Seq<char>, JsonV)>::empty());
    }
}

/// The algorithm of a digest.
#[derive(Clone, Copy, Debug, PartialEq, Eq, Structural)]
pub enum HashAlgo {
    Sha1,
    Md5,
}

impl HashAlgo {
    /// The wire code of a variant.
    pub open spec fn wire(self) -> u64 {
        match self {
            HashAlgo::Sha1 => 1,
            HashAlgo::Md5 => 2,
        }
    }

    /// The variant that a wire code stands for; a code outside the table
    /// is a failure, never a default.
    pub open spec fn of_wire(code: u64) -> Result<HashAlgo, DecodeError> {
        if code == 1 {
            Ok(HashAlgo::Sha1)
        } else if code == 2 {
            Ok(HashAlgo::Md5)
        } else {
            Err(DecodeError::UnrecognizedCode { value: code, enum_name: "HashAlgo" })
        }
    }

    pub fn encode(&self) -> (code: u64)
        ensures
            code == self.wire(),
    {
        match self {
            HashAlgo::Sha1 => 1,
            HashAlgo::Md5 => 2,
        }
    }

    pub fn decode(code: u64) -> (r: Result<HashAlgo, DecodeError>)
        ensures
            r == Self::of_wire(code),
    {
        match code {
            1 => Ok(HashAlgo::Sha1),
            2 => Ok(HashAlgo::Md5),
            _ => Err(DecodeError::UnrecognizedCode { value: code, enum_name: "HashAlgo" }),
        }
    }

    /// Every variant has a code, and decoding that code gives the variant
    /// back.
    pub proof fn lemma_code_round_trip(v: HashAlgo)
        ensures
            Self::of_wire(v.wire()) == Ok::<HashAlgo, DecodeError>(v),
    {
    }

    /// A code decodes to the one variant that has it, and every other
    /// code is reported with its value and the enumeration's name.
    pub proof fn lemma_decode_exact(code: u64)
        ensures
            match Self::of_wire(code) {
                Ok(v) => v.wire() == code,
                Err(e) => e == (DecodeError::UnrecognizedCode { value: code, enum_name: "HashAlgo" })
                    && forall|v: HashAlgo| v.wire() != code,
            },
    {
    }
}

/// A mod that a file relates to.
#[derive(Debug, PartialEq)]
pub struct FileDependency {
    pub mod_id: u32,
    pub relation_type: FileRelationType,
    /// The fields of the payload that the record does not know.
    pub dynamic_fields: Vec<Member>,
}

/// The model of a [`FileDependency`].
pub struct FileDependencyV {
    pub mod_id: u32,
    pub relation_type: FileRelationType,
    pub dynamic_fields: Fields,
}

impl View for FileDependency {
    type V = FileDependencyV;

    open spec fn view(&self) -> FileDependencyV {
        FileDependencyV {
            mod_id: self.mod_id,
            relation_type: self.relation_type,
            dynamic_fields: pairs_view(self.dynamic_fields@),
        }
    }
}

impl FileDependency {
    /// The known fields of a record as they are encoded, in declaration
    /// order; an absent optional field is left out.
    pub open spec fn known_fields(v: FileDependencyV) -> Fields {
        let s = Seq::<(Seq<char>, JsonV)>::empty();
        let s = s.push(("modId"@, JsonV::Int(v.mod_id as int)));
        let s = s.push(("relationType"@, JsonV::Int(v.relation_type.wire() as int)));
        s
    }

    /// The value that the overflow bag holds under `key`: the first one,
    /// where the payload held several.
    pub fn extra(&self, key: &str) -> (r: Option<&Json>)
        ensures
            match r {
                Some(j) => lookup(self@.dynamic_fields, key@) == Some(j@),
                None => lookup(self@.dynamic_fields, key@) is None,
            },
    {
        find(&self.dynamic_fields, key)
    }
}

impl Entity for FileDependency {
    open spec fn names() -> Seq<&'static str> {
        seq![
            "modId",
            "relationType",
        ]
    }

    open spec fn decoded(j: JsonV) -> Result<FileDependencyV, DecodeError> {
        match j {
            JsonV::Obj(f) => {
                let mod_id = req_u32(f, "modId");
                let relation_type = match req_u64(f, "relationType") {
                    Ok(code) => FileRelationType::of_wire(code),
                    Err(e) => Err(e),
                };
                if mod_id is Err {
                    Err(mod_id->Err_0)
                } else if relation_type is Err {
                    Err(relation_type->Err_0)
                } else {
                    Ok(
                        FileDependencyV {
                            mod_id: mod_id->Ok_0,
                            relation_type: relation_type->Ok_0,
                            dynamic_fields: without(f, among(Self::names())),
                        },
                    )
                }
            },
            _ => Err(malformed("$", JsonKind::Object)),
        }
    }

    open spec fn encoded(v: FileDependencyV) -> JsonV {
        JsonV::Obj(Self::known_fields(v) + without(v.dynamic_fields, among(Self::names())))
    }

    open spec fn overflow(v: FileDependencyV) -> Fields {
        v.dynamic_fields
    }

    open spec fn with_overflow(v: FileDependencyV, bag: Fields) -> FileDependencyV {
        FileDependencyV { dynamic_fields: bag, ..v }
    }

    open spec fn valid(v: FileDependencyV) -> bool {
        free_of(v.dynamic_fields, among(Self::names()))
    }

    fn field_names() -> (r: Vec<&'static str>) {
        let mut r: Vec<&'static str> = Vec::new();
        r.push("modId");
        r.push("relationType");
        proof {
            assert(r@ =~= Self::names());
        }
        r
    }

    fn decode(j: &Json) -> (r: Result<FileDependency, DecodeError>) {
        match j {
            Json::Object(fields) => {
                proof {
                    lemma_view_unfold(*j);
                }
                let mod_id = get_u32(fields, "modId")?;
                let relation_type = FileRelationType::decode(get_u64(fields, "relationType")?)?;
                let dynamic_fields = unknown_fields(fields, &Self::field_names());
                Ok(FileDependency { mod_id, relation_type, dynamic_fields })
            },
            _ => Err(DecodeError::MalformedField { path: "$", expected: JsonKind::Object }),
        }
    }

    fn encode(&self) -> (j: Json) {
        let mut out: Vec<Member> = Vec::new();
        proof {
            assert(pairs_view(out@) =~= Seq::<(Seq<char>, JsonV)>::empty());
        }
        put(&mut out, "modId", Json::Int(self.mod_id as i128));
        put(&mut out, "relationType", Json::Int(self.relation_type.encode() as i128));
        append_fields(&mut out, unknown_fields(&self.dynamic_fields, &Self::field_names()));
        let j = Json::Object(out);
        proof {
            lemma_view_unfold(j);
        }
        j
    }

    proof fn round_trip(v: FileDependencyV) {
        Self::lemma_known_fields(v);
        FileRelationType::lemma_code_round_trip(v.relation_type);
        let known = Self::known_fields(v);
        let bag = without(v.dynamic_fields, among(Self::names()));
        lemma_without(v.dynamic_fields, among(Self::names()));
        lemma_without_add(known, bag, among(Self::names()));
        Self::lemma_names();
        lemma_lookup_free(bag, among(Self::names()), "modId"@);
        lemma_lookup_add(known, bag, "modId"@);
        lemma_lookup_free(bag, among(Self::names()), "relationType"@);
        lemma_lookup_add(known, bag, "relationType"@);
        assert(without(known + bag, among(Self::names())) =~= v.dynamic_fields);
    }

    proof fn encoded_is_object(v: FileDependencyV) {
    }

    proof fn decoded_is_valid(j: JsonV) {
        if let JsonV::Obj(f) = j {
            lemma_without(f, among(Self::names()));
        }
    }

    proof fn unknown_fields_kept(f: Fields, g: Fields) {
        Self::lemma_names();
        assert(lookup(f, "modId"@) == lookup(g, "modId"@));
        assert(lookup(f, "relationType"@) == lookup(g, "relationType"@));
        lemma_without(f, among(Self::names()));
    }
}

impl FileDependency {
    /// The known names are the listed ones, and no two of them are the
    /// same.
    pub proof fn lemma_names()
        ensures
            among(Self::names())("modId"@),
            among(Self::names())("relationType"@),
            "modId"@ != "relationType"@,
    {
        reveal_strlit("modId");
        assert(Self::names()[0] == "modId" && "modId"@.len() == 5);
        reveal_strlit("relationType");
        assert(Self::names()[1] == "relationType" && "relationType"@.len() == 12);
    }

    /// Under a known name the encoded record holds the known field, whatever
    /// the overflow bag holds under that name.
    pub proof fn lemma_known_wins(v: FileDependencyV, key: Seq<char>)
        requires
            among(Self::names())(key),
        ensures
            Self::encoded(v) matches JsonV::Obj(f) && lookup(f, key) == lookup(
                Self::known_fields(v),
                key,
            ),
    {
        let bag = without(v.dynamic_fields, among(Self::names()));
        lemma_without(v.dynamic_fields, among(Self::names()));
        lemma_lookup_free(bag, among(Self::names()), key);
        lemma_lookup_add(Self::known_fields(v), bag, key);
    }

    /// Each known field is found under its name in the encoded known
    /// fields, an absent one is not, and all of their names are known.
    pub proof fn lemma_known_fields(v: FileDependencyV)
        ensures
            lookup(Self::known_fields(v), "modId"@) == Some(JsonV::Int(v.mod_id as int)),
            lookup(Self::known_fields(v), "relationType"@) == Some(JsonV::Int(v.relation_type.wire() as int)),
            without(Self::known_fields(v), among(Self::names())) == Seq::<(Seq<char>, JsonV)>::empty(),
    {
        broadcast use lemma_lookup_push, lemma_without_push;

        Self::lemma_names();
        assert(without(Self::known_fields(v), among(Self::names())) =~= Seq::<(Seq<char>, JsonV)>::empty());
    }
}

/// How a file relates to another mod.
#[derive(Clone, Copy, Debug, PartialEq, Eq, Structural)]
pub enum FileRelationType {
    EmbeddedLibrary,
    OptionalDependency,
    RequiredDependency,
    Tool,
    Incompatible,
    Include,
}

impl FileRelationType {
    /// The wire code of a variant.
    pub open spec fn wire(self) -> u64 {
        match self {
            FileRelationType::EmbeddedLibrary => 1,
            FileRelationType::OptionalDependency => 2,
            FileRelationType::RequiredDependency => 3,
            FileRelationType::Tool => 4,
            FileRelationType::Incompatible => 5,
            FileRelationType::Include => 6,
        }
    }

    /// The variant that a wire code stands for; a code outside the table
    /// is a failure, never a default.
    pub open spec fn of_wire(code: u64) -> Result<FileRelationType, DecodeError> {
        if code == 1 {
            Ok(FileRelationType::EmbeddedLibrary)
        } else if code == 2 {
            Ok(FileRelationType::OptionalDependency)
        } else if code == 3 {
            Ok(FileRelationType::RequiredDependency)
        } else if code == 4 {
            Ok(FileRelationType::Tool)
        } else if code == 5 {
            Ok(FileRelationType::Incompatible)
        } else if code == 6 {
            Ok(FileRelationType::Include)
        } else {
            Err(DecodeError::UnrecognizedCode { value: code, enum_name: "FileRelationType" })
        }
    }

    pub fn encode(&self) -> (code: u64)
        ensures
            code == self.wire(),
    {
        match self {
            FileRelationType::EmbeddedLibrary => 1,
            FileRelationType::OptionalDependency => 2,
            FileRelationType::RequiredDependency => 3,
            FileRelationType::Tool => 4,
            FileRelationType::Incompatible => 5,
            FileRelationType::Include => 6,
        }
    }

    pub fn decode(code: u64) -> (r: Result<FileRelationType, DecodeError>)
        ensures
            r == Self::of_wire(code),
    {
        match code {
            1 => Ok(FileRelationType::EmbeddedLibrary),
            2 => Ok(FileRelationType::OptionalDependency),
            3 => Ok(FileRelationType::RequiredDependency),
            4 => Ok(FileRelationType::Tool),
            5 => Ok(FileRelationType::Incompatible),
            6 => Ok(FileRelationType::Include),
            _ => Err(DecodeError::UnrecognizedCode { value: code, enum_name: "FileRelationType" }),
        }
    }

    /// Every variant has a code, and decoding that code gives the variant
    /// back.
    pub proof fn lemma_code_round_trip(v: FileRelationType)
        ensures
            Self::of_wire(v.wire()) == Ok::<FileRelationType, DecodeError>(v),
    {
    }

    /// A code decodes to the one variant that has it, and every other
    /// code is reported with its value and the enumeration's name.
    pub proof fn lemma_decode_exact(code: u64)
        ensures
            match Self::of_wire(code) {
                Ok(v) => v.wire() == code,
                Err(e) => e == (DecodeError::UnrecognizedCode { value: code, enum_name: "FileRelationType" })
                    && forall|v: FileRelationType| v.wire() != code,
            },
    {
    }
}

/// The digest of the first hash pair made with `algo`, if there is one.
pub open spec fn first_digest(hashes: Seq<FileHashV>, algo: HashAlgo) -> Option<Seq<char>>
    decreases hashes.len(),
{
    if hashes.len() == 0 {
        None
    } else if hashes[0].algo == algo {
        Some(hashes[0].value)
    } else {
        first_digest(hashes.drop_first(), algo)
    }
}

/// A digest that is found belongs to a pair of the sequence made with the
/// algorithm asked for, and no earlier pair was made with it; none is found
/// only where no pair was made with it.
pub proof fn lemma_first_digest(hashes: Seq<FileHashV>, algo: HashAlgo)
    ensures
        match first_digest(hashes, algo) {
            Some(d) => exists|i: int|
                0 <= i < hashes.len() && hashes[i].algo == algo && hashes[i].value == d && (forall|
                    k: int,
                | 0 <= k < i ==> (#[trigger] hashes[k]).algo != algo),
            None => forall|k: int| 0 <= k < hashes.len() ==> (#[trigger] hashes[k]).algo != algo,
        },
    decreases hashes.len(),
{
    if hashes.len() > 0 && hashes[0].algo != algo {
        let rest = hashes.drop_first();
        lemma_first_digest(rest, algo);
        match first_digest(rest, algo) {
            Some(d) => {
                let i = choose|i: int|
                    0 <= i < rest.len() && rest[i].algo == algo && rest[i].value == d && (forall|
                        k: int,
                    | 0 <= k < i ==> (#[trigger] rest[k]).algo != algo);
                assert(hashes[i + 1] == rest[i]);
                assert forall|k: int| 0 <= k < i + 1 implies (#[trigger] hashes[k]).algo != algo by {
                    if k > 0 {
                        assert(hashes[k] == rest[k - 1]);
                    }
                }
            },
            None => {
                assert forall|k: int| 0 <= k < hashes.len() implies (#[trigger] hashes[k]).algo
                    != algo by {
                    if k > 0 {
                        assert(hashes[k] == rest[k - 1]);
                    }
                }
            },
        }
    } else if hashes.len() > 0 {
        assert(hashes[0].algo == algo);
    }
}

impl File {
    /// The digest that the file carries for `algo`: that of the first hash
    /// pair made with it, and none where there is no such pair.
    pub fn digest(&self, algo: HashAlgo) -> (r: Option<String>)
        ensures
            match r {
                Some(d) => first_digest(self@.hashes, algo) == Some(d@),
                None => first_digest(self@.hashes, algo) is None,
            },
    {
        let ghost all = self@.hashes;
        let mut i: usize = 0;
        proof {
            assert(all.skip(0) =~= all);
        }
        while i < self.hashes.len()
            invariant
                i <= self.hashes.len(),
                all == views(self.hashes@),
                first_digest(all, algo) == first_digest(all.skip(i as int), algo),
            decreases self.hashes.len() - i,
        {
            proof {
                assert(all.skip(i as int).drop_first() =~= all.skip(i + 1));
            }
            if self.hashes[i].algo == algo {
                return Some(self.hashes[i].value.clone());
            }
            i += 1;
        }
        None
    }

    /// A payload without `fileSizeOnDisk` decodes with the size absent, not
    /// with a size of zero; with the field, the size is the one given.
    pub proof fn lemma_size_on_disk(f: Fields)
        ensures
            lookup(f, "fileSizeOnDisk"@) is None ==> (File::decoded(JsonV::Obj(f)) matches Ok(v)
                ==> v.file_size_on_disk is None),
            lookup(f, "fileSizeOnDisk"@) matches Some(JsonV::Int(n)) ==> (File::decoded(
                JsonV::Obj(f),
            ) matches Ok(v) ==> v.file_size_on_disk == Some(n as u64)),
    {
    }

    /// The file's MD5 digest, if it carries one.
    pub fn md5(&self) -> (r: Option<String>)
        ensures
            match r {
                Some(d) => first_digest(self@.hashes, HashAlgo::Md5) == Some(d@),
                None => first_digest(self@.hashes, HashAlgo::Md5) is None,
            },
    {
        self.digest(HashAlgo::Md5)
    }

    /// The file's SHA-1 digest, if it carries one.
    pub fn sha1(&self) -> (r: Option<String>)
        ensures
            match r {
                Some(d) => first_digest(self@.hashes, HashAlgo::Sha1) == Some(d@),
                None => first_digest(self@.hashes, HashAlgo::Sha1) is None,
            },
    {
        self.digest(HashAlgo::Sha1)
    }
}

} // verus!
