use furse::common_structs::{
    decode_category, decode_pagination, decode_sortable_game_version, Pagination,
};
use furse::envelope::{decode_envelope, encode_envelope};
use furse::error::Error;
use furse::file_structs::{
    decode_file, decode_file_dependency, decode_file_hash, decode_file_index,
};
use furse::json::Json;
use furse::mod_structs::{
    decode_mod, decode_mod_asset, decode_mod_author, decode_mod_links, ModStatus,
};

fn s(v: &str) -> Json {
    Json::Str(v.to_string())
}

fn e(k: &str, v: Json) -> (String, Json) {
    (k.to_string(), v)
}

fn with_extra_key(j: Json) -> Json {
    match j {
        Json::Obj(mut entries) => {
            entries.push(e("unexpectedExtra", Json::Int(0)));
            Json::Obj(entries)
        }
        other => other,
    }
}

fn pagination_json() -> Json {
    Json::Obj(vec![
        e("index", Json::Int(0)),
        e("pageSize", Json::Int(50)),
        e("resultCount", Json::Int(2)),
        e("totalCount", Json::Int(7)),
    ])
}

fn category_json() -> Json {
    Json::Obj(vec![
        e("id", Json::Int(12)),
        e("gameId", Json::Int(432)),
        e("name", s("Technology")),
        e("slug", Json::Null),
        e("url", s("https://example.invalid/categories/technology")),
        e("iconUrl", s("https://example.invalid/icons/technology.png")),
        e("dateModified", s("0001-01-01T00:00:00")),
        e("isClass", Json::Bool(false)),
        e("classId", Json::Int(6)),
        e("parentCategoryId", Json::Null),
        e("displayIndex", Json::Int(1)),
    ])
}

fn sortable_game_version_json() -> Json {
    Json::Obj(vec![
        e("gameVersionName", s("1.18")),
        e("gameVersionPadded", s("0000000001.0000000018")),
        e("gameVersion", s("1.18")),
        e("gameVersionReleaseDate", s("2021-11-30T00:00:00Z")),
        e("gameVersionTypeId", Json::Null),
    ])
}

fn file_hash_json() -> Json {
    Json::Obj(vec![e("value", s("deadbeef")), e("algo", Json::Int(1))])
}

fn file_dependency_json() -> Json {
    Json::Obj(vec![e("modId", Json::Int(306612)), e("relationType", Json::Int(3))])
}

fn file_index_json() -> Json {
    Json::Obj(vec![
        e("gameVersion", s("1.18")),
        e("fileId", Json::Int(3606078)),
        e("filename", s("terralith.jar")),
        e("releaseType", Json::Int(1)),
        e("gameVersionTypeId", Json::Null),
        e("modLoader", Json::Int(4)),
    ])
}

fn file_json(id: u64) -> Json {
    Json::Obj(vec![
        e("id", Json::Int(id)),
        e("modId", Json::Int(513688)),
        e("displayName", s("Terralith v2")),
        e("fileName", s("terralith.jar")),
        e("releaseType", Json::Int(1)),
        e("hashes", Json::Arr(vec![file_hash_json()])),
        e("fileDate", s("2021-11-05T10:11:12Z")),
        e("fileLength", Json::Int(1024)),
        e("downloadUrl", s("https://example.invalid/terralith.jar")),
        e("isAvailable", Json::Bool(true)),
        e("gameVersions", Json::Arr(vec![s("1.18")])),
        e("sortableGameVersions", Json::Arr(vec![sortable_game_version_json()])),
        e("dependencies", Json::Arr(vec![file_dependency_json()])),
        e("fileFingerprint", Json::Int(42)),
    ])
}

fn mod_links_json() -> Json {
    Json::Obj(vec![
        e("websiteUrl", s("https://example.invalid/terralith")),
        e("wikiUrl", Json::Null),
        e("issuesUrl", s("https://example.invalid/terralith/issues")),
        e("sourceUrl", Json::Null),
    ])
}

fn mod_author_json() -> Json {
    Json::Obj(vec![
        e("id", Json::Int(101)),
        e("name", s("Starmute")),
        e("url", s("https://example.invalid/members/starmute")),
    ])
}

fn mod_asset_json() -> Json {
    Json::Obj(vec![
        e("id", Json::Int(55)),
        e("modId", Json::Int(513688)),
        e("title", s("Logo")),
        e("description", s("The mod logo")),
        e("thumbnailUrl", s("https://example.invalid/logo-thumb.png")),
        e("url", s("https://example.invalid/logo.png")),
    ])
}

fn mod_json() -> Json {
    Json::Obj(vec![
        e("id", Json::Int(513688)),
        e("gameId", Json::Int(432)),
        e("name", s("Terralith")),
        e("slug", s("terralith")),
        e("links", mod_links_json()),
        e("summary", s("A world generation datapack")),
        e("status", Json::Int(4)),
        e("downloadCount", Json::Int(1000000)),
        e("isFeatured", Json::Bool(true)),
        e("primaryCategoryId", Json::Int(12)),
        e("categories", Json::Arr(vec![category_json()])),
        e("classId", Json::Int(6)),
        e("authors", Json::Arr(vec![mod_author_json()])),
        e("logo", mod_asset_json()),
        e("screenshots", Json::Arr(vec![])),
        e("mainFileId", Json::Int(3606078)),
        e("latestFiles", Json::Arr(vec![file_json(3606078)])),
        e("latestFilesIndexes", Json::Arr(vec![file_index_json()])),
        e("dateCreated", s("2021-04-12T08:00:00Z")),
        e("dateModified", s("2024-01-02T03:04:05Z")),
        e("dateReleased", s("2023-12-01T12:00:00Z")),
        e("allowModDistribution", Json::Bool(true)),
        e("gamePopularityRank", Json::Int(3)),
        e("isAvailable", Json::Bool(true)),
        e("thumbsUpCount", Json::Int(9000)),
    ])
}

#[test]
fn envelope_round_trips_payload_without_pagination() {
    let payload = mod_json();
    let wrapped = encode_envelope(mod_json(), None);
    let (data, pagination) = decode_envelope(wrapped).unwrap();
    assert_eq!(data, payload);
    assert_eq!(pagination, None);
}

#[test]
fn envelope_round_trips_payload_with_pagination() {
    let p = Pagination { index: 0, page_size: 50, result_count: 2, total_count: 7 };
    let wrapped = encode_envelope(s("hello"), Some(p));
    let (data, pagination) = decode_envelope(wrapped).unwrap();
    assert_eq!(data, s("hello"));
    assert_eq!(pagination, Some(p));
}

#[test]
fn envelope_rejects_unknown_key() {
    let wrapped = with_extra_key(encode_envelope(s("hello"), None));
    assert!(matches!(decode_envelope(wrapped), Err(Error::DecodeError { .. })));
}

#[test]
fn envelope_requires_data() {
    let j = Json::Obj(vec![e("pagination", Json::Null)]);
    assert!(matches!(decode_envelope(j), Err(Error::DecodeError { .. })));
}

#[test]
fn pagination_decodes_exactly() {
    let p = decode_pagination(&pagination_json()).unwrap();
    assert_eq!(p, Pagination { index: 0, page_size: 50, result_count: 2, total_count: 7 });
}

#[test]
fn category_decodes_with_lenient_date_and_null_slug() {
    let c = decode_category(&category_json()).unwrap();
    assert_eq!(c.id, 12);
    assert_eq!(c.slug, None);
    assert_eq!(c.date_modified.year, 1);
    assert_eq!(c.date_modified.month, 1);
    assert_eq!(c.date_modified.day, 1);
    assert_eq!(c.is_class, Some(false));
    assert_eq!(c.class_id, Some(6));
    assert_eq!(c.parent_category_id, None);
}

#[test]
fn file_decodes_exactly() {
    let f = decode_file(&file_json(3606078)).unwrap();
    assert_eq!(f.id, 3606078);
    assert_eq!(f.mod_id, 513688);
    assert_eq!(f.file_name, "terralith.jar");
    assert_eq!(f.hashes.len(), 1);
    assert_eq!(f.hashes[0].value, "deadbeef");
    assert_eq!(f.file_date.year, 2021);
    assert_eq!(f.file_date.month, 11);
    assert_eq!(f.download_url.as_deref(), Some("https://example.invalid/terralith.jar"));
    assert!(f.is_available);
    assert_eq!(f.game_versions, vec!["1.18".to_string()]);
    assert_eq!(f.dependencies[0].mod_id, 306612);
    assert_eq!(f.file_fingerprint, 42);
}

#[test]
fn file_without_download_url_reads_as_none() {
    let j = match file_json(1) {
        Json::Obj(entries) => Json::Obj(
            entries
                .into_iter()
                .map(|(k, v)| {
                    if k == "downloadUrl" {
                        (k, Json::Null)
                    } else {
                        (k, v)
                    }
                })
                .collect(),
        ),
        other => other,
    };
    let f = decode_file(&j).unwrap();
    assert_eq!(f.download_url, None);
}

#[test]
fn mod_decodes_exactly() {
    let m = decode_mod(&mod_json()).unwrap();
    assert_eq!(m.id, 513688);
    assert_eq!(m.name, "Terralith");
    assert_eq!(m.status, ModStatus::Approved);
    assert_eq!(m.links.wiki_url, None);
    assert_eq!(m.authors[0].name, "Starmute");
    assert!(m.logo.is_some());
    assert_eq!(m.screenshots.len(), 0);
    assert_eq!(m.latest_files[0].id, 3606078);
    assert_eq!(m.latest_files_indexes[0].mod_loader, Some(furse::common_structs::ModLoaderType::Fabric));
    assert_eq!(m.date_created.year, 2021);
    assert_eq!(m.thumbs_up_count, Some(9000));
}

#[test]
fn mistyped_field_fails_decoding() {
    let j = Json::Obj(vec![
        e("index", s("zero")),
        e("pageSize", Json::Int(50)),
        e("resultCount", Json::Int(2)),
        e("totalCount", Json::Int(7)),
    ]);
    assert!(matches!(decode_pagination(&j), Err(Error::DecodeError { .. })));
}

#[test]
fn duplicate_key_fails_decoding() {
    let j = Json::Obj(vec![
        e("index", Json::Int(0)),
        e("index", Json::Int(1)),
        e("pageSize", Json::Int(50)),
        e("resultCount", Json::Int(2)),
        e("totalCount", Json::Int(7)),
    ]);
    assert!(matches!(decode_pagination(&j), Err(Error::DecodeError { .. })));
}

#[test]
fn every_entity_rejects_one_unknown_key() {
    assert!(matches!(
        decode_pagination(&with_extra_key(pagination_json())),
        Err(Error::DecodeError { .. })
    ));
    assert!(matches!(
        decode_category(&with_extra_key(category_json())),
        Err(Error::DecodeError { .. })
    ));
    assert!(matches!(
        decode_sortable_game_version(&with_extra_key(sortable_game_version_json())),
        Err(Error::DecodeError { .. })
    ));
    assert!(matches!(
        decode_file_hash(&with_extra_key(file_hash_json())),
        Err(Error::DecodeError { .. })
    ));
    assert!(matches!(
        decode_file_dependency(&with_extra_key(file_dependency_json())),
        Err(Error::DecodeError { .. })
    ));
    assert!(matches!(
        decode_file_index(&with_extra_key(file_index_json())),
        Err(Error::DecodeError { .. })
    ));
    assert!(matches!(
        decode_file(&with_extra_key(file_json(1))),
        Err(Error::DecodeError { .. })
    ));
    assert!(matches!(
        decode_mod_links(&with_extra_key(mod_links_json())),
        Err(Error::DecodeError { .. })
    ));
    assert!(matches!(
        decode_mod_author(&with_extra_key(mod_author_json())),
        Err(Error::DecodeError { .. })
    ));
    assert!(matches!(
        decode_mod_asset(&with_extra_key(mod_asset_json())),
        Err(Error::DecodeError { .. })
    ));
    assert!(matches!(
        decode_mod(&with_extra_key(mod_json())),
        Err(Error::DecodeError { .. })
    ));
}

#[test]
fn unknown_status_code_fails_decoding() {
    let j = match mod_json() {
        Json::Obj(entries) => Json::Obj(
            entries
                .into_iter()
                .map(|(k, v)| if k == "status" { (k, Json::Int(99)) } else { (k, v) })
                .collect(),
        ),
        other => other,
    };
    assert!(matches!(decode_mod(&j), Err(Error::DecodeError { .. })));
}
