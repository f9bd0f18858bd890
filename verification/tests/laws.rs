use curseforge::api::{categories_query, categories_url, mod_url, search_mods_url};
use curseforge::categories::Category;
use curseforge::client::{ClientBuilder, CURSE_FORGE_BASE_URL};
use curseforge::error::{DecodeError, JsonKind};
use curseforge::files::{
    File, FileDependency, FileHash, FileIndex, FileRelationType, FileReleaseType, FileStatus,
    HashAlgo,
};
use curseforge::games::{CoreApiStatus, CoreStatus, Game};
use curseforge::json::{Json, Member};
use curseforge::mod_loader::ModLoaderType;
use curseforge::mods::{Mod, ModStatus};
use curseforge::pagination::Pagination;
use curseforge::parameters::{GetModFilesParameters, SearchModsParameters, SortField, SortOrder};
use curseforge::parse::parse;
use curseforge::response::{
    decode_list, decode_list_text, decode_paginated, decode_paginated_text, decode_single,
    decode_single_text, encode_list, encode_paginated, encode_single, DataResponse,
    PaginationResponse,
};
use curseforge::schema::Entity;
use curseforge::versions::{GameVersionType, GameVersionTypeStatus, GameVersionsByType};

const MODS: &str = r#"{"id": 6, "gameId": 432, "name": "Mods", "slug": "mc-mods",
    "url": "https://www.curseforge.com/minecraft/mc-mods",
    "iconUrl": "https://media.forgecdn.net/avatars/52/101/636111139584399357.png",
    "dateModified": "2023-08-05T12:43:53.26Z", "isClass": true, "displayIndex": 1}"#;

const CREATE: &str = r#"{"id": 6484, "gameId": 432, "name": "Create", "slug": "create",
    "url": "https://www.curseforge.com/minecraft/mc-mods/mc-addons/create",
    "iconUrl": "https://media.forgecdn.net/avatars/834/490/638225251884617502.png",
    "dateModified": "2023-06-16T15:13:08.513Z", "classId": 6, "parentCategoryId": 426,
    "displayIndex": 2}"#;

const FILE: &str = r#"{"id": 3835119, "gameId": 432, "modId": 245755, "isAvailable": true,
    "displayName": "waystones", "fileName": "waystones.jar", "releaseType": 1, "fileStatus": 4,
    "hashes": [{"value": "679b3c87f9145400ffb7fa81b2f918443cba72df", "algo": 1},
               {"value": "591352d7c666d2607ad4c473bb48ad10", "algo": 2}],
    "fileDate": "2022-06-16T20:25:04.053Z", "fileLength": 359351, "downloadCount": 252131,
    "downloadUrl": "https://edge.forgecdn.net/files/3835/119/waystones.jar",
    "gameVersions": ["Forge", "1.19"],
    "dependencies": [{"modId": 531761, "relationType": 3}],
    "fileFingerprint": 2580803773, "rating": 4.5}"#;

fn member(name: &str, value: Json) -> Member {
    Member { name: name.to_string(), value }
}

fn text(s: &str) -> Json {
    Json::Str(s.to_string())
}

fn category(text: &str) -> Result<Category, DecodeError> {
    Category::decode(&parse(text).unwrap())
}

fn plain_search(game_id: u32) -> SearchModsParameters {
    SearchModsParameters {
        game_id,
        class_id: None,
        category_id: None,
        game_version: None,
        search_filter: None,
        sort_field: None,
        sort_order: None,
        mod_loader_type: None,
        game_version_type_id: None,
        slug: None,
        index: None,
        page_size: None,
    }
}

#[test]
fn parse_reads_every_kind_of_value() {
    let j = parse(r#"{"b": [1, "x", null, true, -7], "a": 1.5}"#).unwrap();
    assert_eq!(
        j,
        Json::Object(vec![
            member("a", Json::Real("1.5".to_string())),
            member(
                "b",
                Json::Array(vec![
                    Json::Int(1),
                    text("x"),
                    Json::Null,
                    Json::Bool(true),
                    Json::Int(-7)
                ])
            ),
        ])
    );
    assert_eq!(parse("18446744073709551615"), Some(Json::Int(18446744073709551615)));
}

#[test]
fn parse_refuses_what_is_not_json() {
    assert_eq!(parse("{\"a\": "), None);
    assert_eq!(parse(""), None);
    assert_eq!(parse("{} {}"), None);
}

#[test]
fn dup_copies_a_value() {
    let j = parse(FILE).unwrap();
    assert_eq!(j.dup(), j);
}

#[test]
fn category_round_trip() {
    let v = category(CREATE).unwrap();
    assert_eq!(Category::decode(&v.encode()), Ok(v));
    let w = category(MODS).unwrap();
    assert_eq!(Category::decode(&w.encode()), Ok(w));
}

#[test]
fn file_round_trip_keeps_the_overflow_bag() {
    let file = File::decode(&parse(FILE).unwrap()).unwrap();
    let again = File::decode(&file.encode()).unwrap();
    assert_eq!(again, file);
    assert_eq!(again.dynamic_fields, file.dynamic_fields);
    assert_eq!(again.extra("rating"), Some(&Json::Real("4.5".to_string())));
    assert_eq!(again.extra("fileFingerprint"), Some(&Json::Int(2580803773)));
    assert_eq!(again.extra("isAvailable"), Some(&Json::Bool(true)));
}

#[test]
fn encode_writes_known_fields_in_declaration_order() {
    let v = category(CREATE).unwrap();
    let names: Vec<String> = match v.encode() {
        Json::Object(fields) => fields.into_iter().map(|m| m.name).collect(),
        _ => panic!("a record is encoded into an object"),
    };
    assert_eq!(
        names,
        vec![
            "id",
            "gameId",
            "name",
            "slug",
            "url",
            "iconUrl",
            "dateModified",
            "classId",
            "parentCategoryId",
            "displayIndex"
        ]
    );
}

#[test]
fn known_field_wins_over_a_bag_entry_of_its_name() {
    let mut v = category(CREATE).unwrap();
    v.dynamic_fields.push(member("id", Json::Int(1)));
    v.dynamic_fields.push(member("isClass", Json::Bool(true)));
    v.dynamic_fields.push(member("vendor", text("x")));
    let again = Category::decode(&v.encode()).unwrap();
    assert_eq!(again.id, 6484);
    assert_eq!(again.is_class, None);
    assert_eq!(again.dynamic_fields, vec![member("vendor", text("x"))]);
}

#[test]
fn unknown_keys_never_fail_and_are_kept() {
    let j = parse(
        r#"{"zeta": [1, 2], "id": 6, "gameId": 432, "name": "Mods", "slug": "mc-mods",
        "url": "u", "iconUrl": "i", "dateModified": "d", "alpha": {"deep": null}}"#,
    )
    .unwrap();
    let v = Category::decode(&j).unwrap();
    assert_eq!(v.extra("zeta"), Some(&Json::Array(vec![Json::Int(1), Json::Int(2)])));
    assert_eq!(
        v.extra("alpha"),
        Some(&Json::Object(vec![member("deep", Json::Null)]))
    );
    assert_eq!(v.extra("id"), None);
    assert_eq!(v.dynamic_fields.len(), 2);
}

#[test]
fn nested_records_keep_their_unknown_keys() {
    let j = parse(
        r#"{"value": "abc", "algo": 2, "salt": "s"}"#,
    )
    .unwrap();
    let h = FileHash::decode(&j).unwrap();
    assert_eq!(h.algo, HashAlgo::Md5);
    assert_eq!(h.extra("salt"), Some(&text("s")));
}

#[test]
fn file_status_99_is_unrecognized() {
    assert_eq!(
        FileStatus::decode(99),
        Err(DecodeError::UnrecognizedCode { value: 99, enum_name: "FileStatus" })
    );
    assert_eq!(
        FileStatus::decode(0),
        Err(DecodeError::UnrecognizedCode { value: 0, enum_name: "FileStatus" })
    );
    assert_eq!(
        FileStatus::decode(24),
        Err(DecodeError::UnrecognizedCode { value: 24, enum_name: "FileStatus" })
    );
}

#[test]
fn every_code_decodes_to_the_variant_that_encodes_to_it() {
    for code in 1..=23u64 {
        assert_eq!(FileStatus::decode(code).unwrap().encode(), code);
    }
    for code in 0..=6u64 {
        assert_eq!(ModLoaderType::decode(code).unwrap().encode(), code);
    }
    for code in 1..=12u64 {
        assert_eq!(SortField::decode(code).unwrap().encode(), code);
    }
    for code in 1..=10u64 {
        assert_eq!(ModStatus::decode(code).unwrap().encode(), code);
    }
    for code in 1..=6u64 {
        assert_eq!(CoreStatus::decode(code).unwrap().encode(), code);
        assert_eq!(FileRelationType::decode(code).unwrap().encode(), code);
    }
    assert_eq!(FileStatus::decode(23), Ok(FileStatus::PostProcessing));
    assert_eq!(FileStatus::Processing.encode(), 1);
    assert_eq!(ModLoaderType::decode(0), Ok(ModLoaderType::Any));
    assert_eq!(ModLoaderType::NeoForge.encode(), 6);
    assert_eq!(HashAlgo::decode(1), Ok(HashAlgo::Sha1));
    assert_eq!(HashAlgo::decode(2), Ok(HashAlgo::Md5));
    assert_eq!(FileReleaseType::decode(3), Ok(FileReleaseType::Alpha));
    assert_eq!(CoreApiStatus::decode(2), Ok(CoreApiStatus::Public));
    assert_eq!(GameVersionTypeStatus::decode(2), Ok(GameVersionTypeStatus::Deleted));
    assert_eq!(SortField::Popularity.encode(), 2);
    assert_eq!(
        ModLoaderType::decode(7),
        Err(DecodeError::UnrecognizedCode { value: 7, enum_name: "ModLoaderType" })
    );
    assert_eq!(
        HashAlgo::decode(3),
        Err(DecodeError::UnrecognizedCode { value: 3, enum_name: "HashAlgo" })
    );
}

#[test]
fn unrecognized_code_inside_a_record_aborts_the_decode() {
    let j = parse(&FILE.replace("\"fileStatus\": 4", "\"fileStatus\": 99")).unwrap();
    assert_eq!(
        File::decode(&j),
        Err(DecodeError::UnrecognizedCode { value: 99, enum_name: "FileStatus" })
    );
    let j = parse(&FILE.replace("\"algo\": 2", "\"algo\": 9")).unwrap();
    assert_eq!(
        File::decode(&j),
        Err(DecodeError::UnrecognizedCode { value: 9, enum_name: "HashAlgo" })
    );
}

#[test]
fn missing_required_field_is_reported_by_name() {
    let j = parse(r#"{"id": 6, "gameId": 432, "slug": "mc-mods"}"#).unwrap();
    assert_eq!(
        Category::decode(&j),
        Err(DecodeError::MissingRequiredField { name: "name" })
    );
    assert_eq!(
        Category::decode(&parse("{}").unwrap()),
        Err(DecodeError::MissingRequiredField { name: "id" })
    );
}

#[test]
fn malformed_field_is_reported_with_the_expected_kind() {
    let j = parse(&MODS.replace("\"id\": 6", "\"id\": \"6\"")).unwrap();
    assert_eq!(
        Category::decode(&j),
        Err(DecodeError::MalformedField { path: "id", expected: JsonKind::Integer })
    );
    let j = parse(&MODS.replace("\"id\": 6", "\"id\": 4294967296")).unwrap();
    assert_eq!(
        Category::decode(&j),
        Err(DecodeError::MalformedField { path: "id", expected: JsonKind::Integer })
    );
    let j = parse(&MODS.replace("\"id\": 6", "\"id\": -1")).unwrap();
    assert_eq!(
        Category::decode(&j),
        Err(DecodeError::MalformedField { path: "id", expected: JsonKind::Integer })
    );
    let j = parse(&MODS.replace("\"id\": 6", "\"id\": 4294967295")).unwrap();
    assert_eq!(Category::decode(&j).unwrap().id, 4294967295);
    let j = parse(&MODS.replace("\"name\": \"Mods\"", "\"name\": 5")).unwrap();
    assert_eq!(
        Category::decode(&j),
        Err(DecodeError::MalformedField { path: "name", expected: JsonKind::Text })
    );
    let j = parse(&MODS.replace("\"isClass\": true", "\"isClass\": 1")).unwrap();
    assert_eq!(
        Category::decode(&j),
        Err(DecodeError::MalformedField { path: "isClass", expected: JsonKind::Bool })
    );
    let j = parse(&FILE.replace("[\"Forge\", \"1.19\"]", "[\"Forge\", 19]")).unwrap();
    assert_eq!(
        File::decode(&j),
        Err(DecodeError::MalformedField { path: "gameVersions", expected: JsonKind::Text })
    );
    let j = parse(&FILE.replace("[\"Forge\", \"1.19\"]", "\"Forge\"")).unwrap();
    assert_eq!(
        File::decode(&j),
        Err(DecodeError::MalformedField { path: "gameVersions", expected: JsonKind::Array })
    );
    assert_eq!(
        Category::decode(&parse("[]").unwrap()),
        Err(DecodeError::MalformedField { path: "$", expected: JsonKind::Object })
    );
}

#[test]
fn first_failing_field_in_declaration_order_is_reported() {
    let j = parse(r#"{"slug": 1, "name": 2, "id": 6, "gameId": 432}"#).unwrap();
    assert_eq!(
        Category::decode(&j),
        Err(DecodeError::MalformedField { path: "name", expected: JsonKind::Text })
    );
}

#[test]
fn null_optional_field_is_absent() {
    let j = parse(&CREATE.replace("\"classId\": 6", "\"classId\": null")).unwrap();
    assert_eq!(Category::decode(&j).unwrap().class_id, None);
}

#[test]
fn file_without_size_on_disk_has_none() {
    let file = File::decode(&parse(FILE).unwrap()).unwrap();
    assert_eq!(file.file_size_on_disk, None);
    let with = FILE.replace("\"fileLength\": 359351", "\"fileLength\": 359351, \"fileSizeOnDisk\": 0");
    let file = File::decode(&parse(&with).unwrap()).unwrap();
    assert_eq!(file.file_size_on_disk, Some(0));
    assert_eq!(file.game_versions, vec!["Forge".to_string(), "1.19".to_string()]);
    assert_eq!(file.dependencies.len(), 1);
    assert_eq!(file.dependencies[0].mod_id, 531761);
    assert_eq!(file.dependencies[0].relation_type, FileRelationType::RequiredDependency);
    assert_eq!(file.download_count, 252131);
}

#[test]
fn digest_finds_the_first_pair_of_an_algorithm() {
    let file = File::decode(&parse(FILE).unwrap()).unwrap();
    assert_eq!(
        file.digest(HashAlgo::Sha1),
        Some("679b3c87f9145400ffb7fa81b2f918443cba72df".to_string())
    );
    assert_eq!(
        file.digest(HashAlgo::Md5),
        Some("591352d7c666d2607ad4c473bb48ad10".to_string())
    );
    assert_eq!(file.sha1(), Some("679b3c87f9145400ffb7fa81b2f918443cba72df".to_string()));
    assert_eq!(file.md5(), Some("591352d7c666d2607ad4c473bb48ad10".to_string()));
}

#[test]
fn digest_is_absent_without_a_pair() {
    let only_sha1 = FILE.replace(
        ",\n               {\"value\": \"591352d7c666d2607ad4c473bb48ad10\", \"algo\": 2}",
        "",
    );
    let file = File::decode(&parse(&only_sha1).unwrap()).unwrap();
    assert_eq!(file.hashes.len(), 1);
    assert_eq!(file.md5(), None);
    assert!(file.sha1().is_some());
    let none = FILE.replace("\"algo\": 1", "\"algo\": 2");
    let file = File::decode(&parse(&none).unwrap()).unwrap();
    assert_eq!(file.sha1(), None);
    assert_eq!(file.md5(), Some("679b3c87f9145400ffb7fa81b2f918443cba72df".to_string()));
}

#[test]
fn build_query_for_popularity_descending() {
    let mut p = plain_search(432);
    p.sort_field = Some(SortField::Popularity);
    p.sort_order = Some(SortOrder::desc);
    assert_eq!(p.build(), "gameId=432&sortField=2&sortOrder=desc");
    assert_eq!(p.build(), p.build());
}

#[test]
fn build_query_with_every_filter() {
    let p = SearchModsParameters {
        game_id: 432,
        class_id: Some(6),
        category_id: Some(0),
        game_version: Some("1.20.1".to_string()),
        search_filter: Some("just enough items & more/é~".to_string()),
        sort_field: Some(SortField::Rating),
        sort_order: Some(SortOrder::asc),
        mod_loader_type: Some(ModLoaderType::NeoForge),
        game_version_type_id: Some(4294967295),
        slug: Some("jei_x-y".to_string()),
        index: Some(10),
        page_size: Some(50),
    };
    assert_eq!(
        p.build(),
        "gameId=432&classId=6&categoryId=0&gameVersion=1.20.1\
         &searchFilter=just%20enough%20items%20%26%20more%2F%C3%A9~&sortField=12&sortOrder=asc\
         &modLoaderType=6&gameVersionTypeId=4294967295&slug=jei_x-y&index=10&pageSize=50"
    );
}

#[test]
fn build_query_leaves_out_absent_filters() {
    assert_eq!(plain_search(0).build(), "gameId=0");
    let mut p = plain_search(1);
    p.sort_order = Some(SortOrder::asc);
    assert_eq!(p.build(), "gameId=1&sortOrder=asc");
    let mut p = plain_search(1);
    p.search_filter = Some(String::new());
    assert_eq!(p.build(), "gameId=1&searchFilter=");
    assert_eq!(GetModFilesParameters {}.build(), "");
}

#[test]
fn categories_address() {
    assert_eq!(categories_query(432, None, None), "?gameId=432");
    assert_eq!(
        categories_query(432, Some(6), Some(true)),
        "?gameId=432&classId=6&classesOnly=true"
    );
    assert_eq!(categories_query(432, None, Some(false)), "?gameId=432&classesOnly=false");
    assert_eq!(
        categories_url("https://api.curseforge.com", 432, Some(6), None),
        "https://api.curseforge.com/v1/categories?gameId=432&classId=6"
    );
    assert_eq!(mod_url("http://localhost", 238222), "http://localhost/v1/mods/238222");
    assert_eq!(mod_url("", 0), "/v1/mods/0");
    let mut p = plain_search(432);
    p.index = Some(100);
    assert_eq!(
        search_mods_url("http://localhost", &p),
        "http://localhost/v1/mods/search?gameId=432&index=100"
    );
}

#[test]
fn paginated_envelope_of_two_categories() {
    let body = format!(
        r#"{{"data": [{}, {}], "pagination": {{"index": 0, "pageSize": 50, "resultCount": 2, "totalCount": 2}}}}"#,
        MODS, CREATE
    );
    let resp: PaginationResponse<Category> = decode_paginated(&parse(&body).unwrap()).unwrap();
    assert_eq!(resp.data.len(), 2);
    assert_eq!(resp.data[0].id, 6);
    assert_eq!(resp.data[1].id, 6484);
    assert_eq!(
        resp.pagination,
        Pagination { index: 0, page_size: 50, result_count: 2, total_count: 2 }
    );
    assert_eq!(decode_paginated_text::<Category>(&body), Ok(resp));
}

#[test]
fn envelope_shape_is_enforced() {
    let single = parse(&format!(r#"{{"data": {}}}"#, MODS)).unwrap();
    let list = parse(&format!(r#"{{"data": [{}]}}"#, MODS)).unwrap();
    assert_eq!(decode_list::<Category>(&single), Err(DecodeError::EnvelopeShapeMismatch));
    assert_eq!(decode_single::<Category>(&list), Err(DecodeError::EnvelopeShapeMismatch));
    assert_eq!(decode_paginated::<Category>(&single), Err(DecodeError::EnvelopeShapeMismatch));
    assert_eq!(decode_paginated::<Category>(&list), Err(DecodeError::EnvelopeShapeMismatch));
    let no_data = parse(r#"{"pagination": {}}"#).unwrap();
    assert_eq!(decode_single::<Category>(&no_data), Err(DecodeError::EnvelopeShapeMismatch));
    assert_eq!(decode_list::<Category>(&no_data), Err(DecodeError::EnvelopeShapeMismatch));
    assert_eq!(decode_single::<Category>(&Json::Null), Err(DecodeError::EnvelopeShapeMismatch));
    let half = parse(r#"{"data": [], "pagination": {"index": 0, "pageSize": 50}}"#).unwrap();
    assert_eq!(decode_paginated::<Category>(&half), Err(DecodeError::EnvelopeShapeMismatch));
    assert_eq!(decode_single_text::<Category>("not json"), Err(DecodeError::EnvelopeShapeMismatch));
    assert_eq!(decode_list_text::<Category>("["), Err(DecodeError::EnvelopeShapeMismatch));
    assert_eq!(decode_paginated_text::<Category>(""), Err(DecodeError::EnvelopeShapeMismatch));
}

#[test]
fn envelopes_decode_in_their_own_shape() {
    let single = format!(r#"{{"data": {}}}"#, MODS);
    let resp: DataResponse<Category> = decode_single_text(&single).unwrap();
    assert_eq!(resp.data.name, "Mods");
    let list = format!(r#"{{"data": [{}, {}], "extra": 1}}"#, CREATE, MODS);
    let resp = decode_list_text::<Category>(&list).unwrap();
    assert_eq!(resp.data.len(), 2);
    assert_eq!(resp.data[0].name, "Create");
    assert_eq!(resp.data[1].name, "Mods");
    let empty = decode_list_text::<Category>(r#"{"data": []}"#).unwrap();
    assert_eq!(empty.data.len(), 0);
}

#[test]
fn failure_inside_an_envelope_is_handed_on() {
    let broken = MODS.replace("\"slug\": \"mc-mods\",", "");
    let list = format!(r#"{{"data": [{}, {}]}}"#, CREATE, broken);
    assert_eq!(
        decode_list_text::<Category>(&list),
        Err(DecodeError::MissingRequiredField { name: "slug" })
    );
    let single = format!(r#"{{"data": {}}}"#, broken);
    assert_eq!(
        decode_single_text::<Category>(&single),
        Err(DecodeError::MissingRequiredField { name: "slug" })
    );
}

#[test]
fn envelope_round_trip() {
    let a = category(MODS).unwrap();
    let b = category(CREATE).unwrap();
    let page = Pagination { index: 50, page_size: 50, result_count: 2, total_count: 10000000000 };
    let resp = PaginationResponse { data: vec![a, b], pagination: page };
    assert_eq!(decode_paginated::<Category>(&encode_paginated(&resp)), Ok(resp));
    let resp = DataResponse { data: vec![category(MODS).unwrap()] };
    assert_eq!(decode_list::<Category>(&encode_list(&resp)), Ok(resp));
    let resp = DataResponse { data: category(CREATE).unwrap() };
    assert_eq!(decode_single::<Category>(&encode_single(&resp)), Ok(resp));
}

#[test]
fn pagination_round_trip() {
    let p = Pagination { index: -1, page_size: 2147483647, result_count: 0, total_count: -9223372036854775808 };
    assert_eq!(Pagination::decode(&p.encode()), Ok(p));
    assert_eq!(
        Pagination::decode(&parse(r#"{"index": 0, "pageSize": 2147483648}"#).unwrap()),
        Err(DecodeError::MalformedField { path: "pageSize", expected: JsonKind::Integer })
    );
    assert_eq!(
        Pagination::decode(&parse(r#"{"index": 0, "pageSize": 1, "resultCount": 1}"#).unwrap()),
        Err(DecodeError::MissingRequiredField { name: "totalCount" })
    );
}

#[test]
fn game_round_trip() {
    let j = parse(
        r#"{"id": 432, "name": "Minecraft", "slug": "minecraft", "dateModified": "d",
        "assets": {"iconUrl": "a", "tileUrl": "b", "coverUrl": "c", "banner": 1},
        "status": 6, "apiStatus": 2}"#,
    )
    .unwrap();
    let game = Game::decode(&j).unwrap();
    assert_eq!(game.assets.cover_url, "c");
    assert_eq!(game.assets.extra("banner"), Some(&Json::Int(1)));
    assert_eq!(Game::decode(&game.encode()), Ok(game));
    let bad = parse(
        r#"{"id": 432, "name": "Minecraft", "slug": "minecraft", "dateModified": "d",
        "assets": [], "status": 6, "apiStatus": 2}"#,
    )
    .unwrap();
    assert_eq!(
        Game::decode(&bad),
        Err(DecodeError::MalformedField { path: "assets", expected: JsonKind::Object })
    );
}

#[test]
fn versions_and_indexes_decode() {
    let j = parse(r#"{"type": 68441, "versions": ["1.19", "1.20"]}"#).unwrap();
    let v = GameVersionsByType::decode(&j).unwrap();
    assert_eq!(v.version_type, 68441);
    assert_eq!(v.versions, vec!["1.19".to_string(), "1.20".to_string()]);
    let j = parse(
        r#"{"id": 1, "gameId": 432, "name": "n", "slug": "s", "isSyncable": false, "status": 1}"#,
    )
    .unwrap();
    let t = GameVersionType::decode(&j).unwrap();
    assert_eq!(t.is_syncable, false);
    assert_eq!(t.status, GameVersionTypeStatus::Normal);
    assert_eq!(GameVersionType::decode(&t.encode()), Ok(t));
    let j = parse(
        r#"{"gameVersion": "1.19", "fileId": 7, "filename": "f.jar", "releaseType": 2,
        "gameVersionType": 73407, "modLoader": 4}"#,
    )
    .unwrap();
    let i = FileIndex::decode(&j).unwrap();
    assert_eq!(i.release_type, FileReleaseType::Beta);
    assert_eq!(i.mod_loader, ModLoaderType::Fabric);
    assert_eq!(i.game_version_type, Some(73407));
    let d = FileDependency {
        mod_id: 9,
        relation_type: FileRelationType::Tool,
        dynamic_fields: vec![],
    };
    assert_eq!(
        d.encode(),
        Json::Object(vec![member("modId", Json::Int(9)), member("relationType", Json::Int(4))])
    );
}

#[test]
fn mod_list_failure_names_the_inner_field() {
    let j = parse(
        r#"{"id": 1, "gameId": 432, "name": "n", "slug": "s", "summary": "", "status": 4,
        "downloadCount": 1, "primaryCategoryId": 1, "categories": [{"id": 1}]}"#,
    )
    .unwrap();
    assert_eq!(Mod::decode(&j), Err(DecodeError::MissingRequiredField { name: "gameId" }));
}

#[test]
fn test_build() {
    let settings = ClientBuilder::new().resolve("fallback");
    assert_eq!(settings.base_url, CURSE_FORGE_BASE_URL);
    assert_eq!(settings.base_url, "https://api.curseforge.com");
    assert_eq!(settings.api_key, "fallback");
}

#[test]
fn builder_keeps_what_was_set() {
    let settings = ClientBuilder::new().base_url("http://localhost:1").api_key("k").resolve("d");
    assert_eq!(settings.base_url, "http://localhost:1");
    assert_eq!(settings.api_key, "k");
    let settings = ClientBuilder::new().api_key("k2").resolve("d");
    assert_eq!(settings.base_url, "https://api.curseforge.com");
    assert_eq!(settings.api_key, "k2");
}
