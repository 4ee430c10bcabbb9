use furse::error::Error;
use furse::file_structs::{File, FileHash};
use furse::json::Json;
use furse::file_calls::reorder_files;
use furse::request::Furse;
use furse::timestamp::Timestamp;

fn client() -> Furse {
    Furse::new("test-api-key".to_string())
}

fn mk_file(id: u64) -> File {
    File {
        id,
        mod_id: 513688,
        display_name: format!("file {id}"),
        file_name: format!("file-{id}.jar"),
        release_type: 1,
        hashes: vec![FileHash { value: "deadbeef".to_string(), algo: 1 }],
        file_date: Timestamp { year: 2021, month: 11, day: 5, hour: 10, minute: 11, second: 12, nanosecond: 0 },
        file_length: 1024,
        download_url: None,
        is_available: true,
        game_versions: vec!["1.18".to_string()],
        sortable_game_versions: vec![],
        dependencies: vec![],
        file_fingerprint: 42,
    }
}

#[test]
fn batch_fetch_restores_requested_order() {
    let ids = vec![3144153u64, 3778436u64];
    let response = vec![mk_file(3778436), mk_file(3144153)];
    let out = reorder_files(&ids, response);
    assert_eq!(out.len(), 2);
    assert_eq!(out[0].id, 3144153);
    assert_eq!(out[1].id, 3778436);
}

#[test]
fn batch_fetch_omits_unanswered_ids() {
    let ids = vec![1u64, 2u64, 3u64];
    let response = vec![mk_file(3), mk_file(1)];
    let out = reorder_files(&ids, response);
    assert_eq!(out.len(), 2);
    assert_eq!(out[0].id, 1);
    assert_eq!(out[1].id, 3);
}

#[test]
fn batch_fetch_does_not_duplicate_a_single_entity() {
    let ids = vec![5u64, 5u64];
    let response = vec![mk_file(5)];
    let out = reorder_files(&ids, response);
    assert_eq!(out.len(), 1);
    assert_eq!(out[0].id, 5);
}

#[test]
fn batch_fetch_consumes_duplicates_pairwise() {
    let ids = vec![5u64, 5u64];
    let mut a = mk_file(5);
    a.file_length = 1;
    let mut b = mk_file(5);
    b.file_length = 2;
    let out = reorder_files(&ids, vec![a, b]);
    assert_eq!(out.len(), 2);
    assert_eq!(out[0].id, 5);
    assert_eq!(out[1].id, 5);
    assert_ne!(out[0].file_length, out[1].file_length);
}

#[test]
fn non_2xx_status_yields_request_error_with_original_status() {
    let c = client();
    match c.get_mod(404, "mod not found") {
        Err(Error::RequestError { status, body }) => {
            assert_eq!(status, 404);
            assert_eq!(body, "mod not found");
        }
        other => panic!("expected a request error, got {:?}", other.map(|m| m.id)),
    }
    assert!(matches!(
        c.get_mod_description(500, "oops"),
        Err(Error::RequestError { status: 500, .. })
    ));
    assert!(matches!(
        c.get_files(&vec![1], 403, "forbidden"),
        Err(Error::RequestError { status: 403, .. })
    ));
}

#[test]
fn success_status_with_unparseable_body_is_a_decode_error() {
    let c = client();
    assert!(matches!(c.get_mod(200, "not json"), Err(Error::DecodeError { .. })));
    assert!(matches!(
        c.get_mod_description(200, "{\"nope\":1}"),
        Err(Error::DecodeError { .. })
    ));
}

#[test]
fn description_interpreter_returns_the_string_payload() {
    let c = client();
    let out = c.get_mod_description(200, "{\"data\":\"<p>Terralith</p>\"}").unwrap();
    assert_eq!(out, "<p>Terralith</p>");
}

#[test]
fn changelog_interpreter_returns_the_string_payload() {
    let c = client();
    let out = c
        .get_mod_file_changelog(200, "{\"data\":\"performance improvements\",\"pagination\":null}")
        .unwrap();
    assert_eq!(out, "performance improvements");
}

#[test]
fn download_url_interpreter_returns_the_url_text() {
    let c = client();
    let out = c.file_download_url(200, "{\"data\":\"https://edge.example.invalid/t.jar\"}").unwrap();
    assert_eq!(out, "https://edge.example.invalid/t.jar");
}

#[test]
fn file_interpreter_decodes_a_full_body() {
    let c = client();
    let body = r#"{"data":{"id":3606078,"modId":513688,"displayName":"Terralith v2.0.12","fileName":"Terralith_v2.0.12.jar","releaseType":1,"hashes":[{"value":"deadbeef","algo":1}],"fileDate":"2021-11-05T10:11:12Z","fileLength":1024,"downloadUrl":"https://edge.example.invalid/t.jar","isAvailable":true,"gameVersions":["1.18"],"sortableGameVersions":[{"gameVersionName":"1.18","gameVersionPadded":"0000000001.0000000018","gameVersion":"1.18","gameVersionReleaseDate":"2021-11-30T00:00:00Z","gameVersionTypeId":null}],"dependencies":[{"modId":306612,"relationType":3}],"fileFingerprint":42}}"#;
    let f = c.get_mod_file(200, body).unwrap();
    assert_eq!(f.id, 3606078);
    assert!(f.file_name.contains("v2.0.12"));
    assert_eq!(f.file_date.year, 2021);
    assert_eq!(f.dependencies[0].relation_type, 3);
}

#[test]
fn file_interpreter_rejects_an_unknown_field_in_the_body() {
    let c = client();
    let body = r#"{"data":{"id":1,"surprise":true}}"#;
    assert!(matches!(c.get_mod_file(200, body), Err(Error::DecodeError { .. })));
}

#[test]
fn file_list_interpreter_applies_requested_order() {
    let c = client();
    let body = r#"{"data":[
        {"id":3778436,"modId":513688,"displayName":"b","fileName":"b.jar","releaseType":1,"hashes":[],"fileDate":"2021-11-05T10:11:12Z","fileLength":1,"downloadUrl":null,"isAvailable":true,"gameVersions":[],"sortableGameVersions":[],"dependencies":[],"fileFingerprint":1},
        {"id":3144153,"modId":513688,"displayName":"a","fileName":"a.jar","releaseType":1,"hashes":[],"fileDate":"2021-06-01T00:00:00Z","fileLength":2,"downloadUrl":null,"isAvailable":true,"gameVersions":[],"sortableGameVersions":[],"dependencies":[],"fileFingerprint":2}
    ]}"#;
    let ids = vec![3144153u64, 3778436u64];
    let files = c.get_files(&ids, 200, body).unwrap();
    assert_eq!(files.len(), 2);
    assert_eq!(files[0].id, 3144153);
    assert_eq!(files[1].id, 3778436);
}

#[test]
fn mod_files_interpreter_keeps_server_order() {
    let c = client();
    let body = r#"{"data":[
        {"id":2,"modId":9,"displayName":"b","fileName":"b.jar","releaseType":1,"hashes":[],"fileDate":"2021-11-05T10:11:12Z","fileLength":1,"downloadUrl":null,"isAvailable":true,"gameVersions":[],"sortableGameVersions":[],"dependencies":[],"fileFingerprint":1},
        {"id":1,"modId":9,"displayName":"a","fileName":"a.jar","releaseType":1,"hashes":[],"fileDate":"2021-06-01T00:00:00Z","fileLength":2,"downloadUrl":null,"isAvailable":true,"gameVersions":[],"sortableGameVersions":[],"dependencies":[],"fileFingerprint":2}
    ],"pagination":{"index":0,"pageSize":10000,"resultCount":2,"totalCount":2}}"#;
    let files = c.get_mod_files(200, body).unwrap();
    assert_eq!(files[0].id, 2);
    assert_eq!(files[1].id, 1);
}

#[test]
fn request_builders_produce_expected_urls() {
    let c = client();
    assert_eq!(
        c.get_mod_file_request(513688, 3606078).url,
        "https://api.curseforge.com/v1/mods/513688/files/3606078"
    );
    assert_eq!(
        c.get_mod_files_request(513688).url,
        "https://api.curseforge.com/v1/mods/513688/files?pageSize=10000"
    );
    assert_eq!(
        c.get_mod_file_changelog_request(513688, 3606078).url,
        "https://api.curseforge.com/v1/mods/513688/files/3606078/changelog"
    );
    assert_eq!(
        c.file_download_url_request(513688, 3606078).url,
        "https://api.curseforge.com/v1/mods/513688/files/3606078/download-url"
    );
    assert_eq!(c.get_mod_request(513688).url, "https://api.curseforge.com/v1/mods/513688");
    assert_eq!(
        c.get_mod_description_request(513688).url,
        "https://api.curseforge.com/v1/mods/513688/description"
    );
    assert_eq!(c.get_mods_request(&vec![1, 2]).url, "https://api.curseforge.com/v1/mods");
    assert_eq!(c.get_files_request(&vec![1, 2]).url, "https://api.curseforge.com/v1/mods/files");
    let q = furse::search_query::SearchQuery::default();
    assert_eq!(
        c.search_mods_request(&q).url,
        "https://api.curseforge.com/v1/mods/search?gameId=432&index=0"
    );
}

#[test]
fn batch_request_bodies_carry_the_ids() {
    let c = client();
    let req = c.get_files_request(&vec![3144153, 3778436]);
    let expected = Json::Obj(vec![(
        "fileIds".to_string(),
        Json::Arr(vec![Json::Int(3144153), Json::Int(3778436)]),
    )]);
    assert_eq!(req.body, Some(expected));
    let req = c.get_mods_request(&vec![263420, 317780]);
    let expected = Json::Obj(vec![(
        "modIds".to_string(),
        Json::Arr(vec![Json::Int(263420), Json::Int(317780)]),
    )]);
    assert_eq!(req.body, Some(expected));
    assert_eq!(req.api_key, "test-api-key");
}
