use furse::common_structs::{mod_loader_from, mod_loader_wire, ModLoaderType};
use furse::search_query::{sort_field_wire, ModsSearchSortField, SearchQuery, SortOrder};

#[test]
fn minimal_query_serializes_to_exactly_game_id_and_index() {
    let q = SearchQuery::default();
    assert_eq!(q.game_id, 432);
    assert_eq!(q.index, 0);
    assert_eq!(q.to_query_string(), "gameId=432&index=0");
}

#[test]
fn sort_order_desc_adds_sort_order_key() {
    let q = SearchQuery { sort_order: Some(SortOrder::Desc), ..SearchQuery::default() };
    assert_eq!(q.to_query_string(), "gameId=432&sortOrder=desc&index=0");
}

#[test]
fn absent_fields_produce_no_keys() {
    let q = SearchQuery::default();
    let s = q.to_query_string();
    assert!(!s.contains("classId"));
    assert!(!s.contains("slug"));
    assert!(!s.contains("pageSize"));
    assert!(!s.contains("sortField"));
}

#[test]
fn all_fields_serialize_in_fixed_order() {
    let q = SearchQuery {
        game_id: 432,
        class_id: Some(6),
        category_id: Some(7),
        game_version: Some("1.18".to_string()),
        search_filter: Some("foo".to_string()),
        sort_field: Some(ModsSearchSortField::Popularity),
        sort_order: Some(SortOrder::Asc),
        mod_loader_type: Some(ModLoaderType::Fabric),
        game_version_type_id: Some(9),
        slug: Some("terralith".to_string()),
        index: 20,
        page_size: Some(50),
    };
    assert_eq!(
        q.to_query_string(),
        "gameId=432&classId=6&categoryId=7&gameVersion=1.18&searchFilter=foo\
         &sortField=2&sortOrder=asc&modLoaderType=4&gameVersionTypeId=9\
         &slug=terralith&index=20&pageSize=50"
    );
}

#[test]
fn string_values_are_form_encoded() {
    let q = SearchQuery {
        search_filter: Some("a b&c/d".to_string()),
        ..SearchQuery::default()
    };
    assert_eq!(q.to_query_string(), "gameId=432&searchFilter=a+b%26c%2Fd&index=0");
}

#[test]
fn non_ascii_values_encode_their_utf8_bytes() {
    let q = SearchQuery { slug: Some("café".to_string()), ..SearchQuery::default() };
    assert_eq!(q.to_query_string(), "gameId=432&slug=caf%C3%A9&index=0");
}

#[test]
fn sort_field_wire_codes_are_fixed() {
    assert_eq!(sort_field_wire(&ModsSearchSortField::Featured), 1);
    assert_eq!(sort_field_wire(&ModsSearchSortField::Popularity), 2);
    assert_eq!(sort_field_wire(&ModsSearchSortField::LastUpdated), 3);
    assert_eq!(sort_field_wire(&ModsSearchSortField::Name), 4);
    assert_eq!(sort_field_wire(&ModsSearchSortField::Author), 5);
    assert_eq!(sort_field_wire(&ModsSearchSortField::TotalDownloads), 6);
    assert_eq!(sort_field_wire(&ModsSearchSortField::Category), 7);
    assert_eq!(sort_field_wire(&ModsSearchSortField::GameVersion), 8);
}

#[test]
fn mod_loader_wire_codes_are_fixed() {
    assert_eq!(mod_loader_wire(&ModLoaderType::Any), 0);
    assert_eq!(mod_loader_wire(&ModLoaderType::Forge), 1);
    assert_eq!(mod_loader_wire(&ModLoaderType::Cauldron), 2);
    assert_eq!(mod_loader_wire(&ModLoaderType::LiteLoader), 3);
    assert_eq!(mod_loader_wire(&ModLoaderType::Fabric), 4);
    assert_eq!(mod_loader_wire(&ModLoaderType::Quilt), 5);
    assert_eq!(mod_loader_from(4), Some(ModLoaderType::Fabric));
    assert_eq!(mod_loader_from(6), None);
}

#[test]
fn sort_order_default_is_ascending() {
    assert_eq!(SortOrder::default(), SortOrder::Asc);
}
