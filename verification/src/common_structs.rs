//! Entities shared across endpoints: pagination metadata, categories,
//! sortable game versions and the mod-loader enumeration.

use vstd::prelude::*;
use crate::error::Error;
use crate::json::{
    check_strict, field_opt_bool, field_opt_str, field_opt_u64, field_str, field_u64, get_opt_bool,
    get_opt_str, get_opt_u64, get_str, get_u64, keys_v, lemma_map_opt_all, lemma_map_opt_push,
    lemma_obj_jv, map_opt, opt_str_v, seq_jv, strict_obj, Json, JsonV,
};
use crate::timestamp::{
    field_date_lenient, field_date_strict, get_date_lenient, get_date_strict, Timestamp,
};

verus! {

/// Pagination metadata present on list-returning envelope responses.
#[derive(Debug, Clone, Copy, PartialEq, Eq, Structural)]
pub struct Pagination {
    /// Zero-based index of the first item included in the response.
    pub index: u64,
    /// The requested number of items.
    pub page_size: u64,
    /// The actual number of items included.
    pub result_count: u64,
    /// The total number of items available.
    pub total_count: u64,
}

pub open spec fn pagination_keys() -> Seq<Seq<char>> {
    seq!["index"@, "pageSize"@, "resultCount"@, "totalCount"@]
}

/// The pagination object this document describes, under the closed-schema
/// discipline, if any.
pub open spec fn pagination_of(j: JsonV) -> Option<Pagination> {
    match j {
        JsonV::Obj(o) => {
            if strict_obj(o, pagination_keys()) && field_u64(o, "index"@) is Some && field_u64(
                o,
                "pageSize"@,
            ) is Some && field_u64(o, "resultCount"@) is Some && field_u64(
                o,
                "totalCount"@,
            ) is Some {
                Some(
                    Pagination {
                        index: field_u64(o, "index"@)->0,
                        page_size: field_u64(o, "pageSize"@)->0,
                        result_count: field_u64(o, "resultCount"@)->0,
                        total_count: field_u64(o, "totalCount"@)->0,
                    },
                )
            } else {
                None
            }
        },
        _ => None,
    }
}

/// Decodes a pagination object, rejecting unknown or mistyped fields.
pub fn decode_pagination(j: &Json) -> (r: Result<Pagination, Error>)
    ensures
        match r {
            Ok(p) => pagination_of(j.jv()) == Some(p),
            Err(e) => pagination_of(j.jv()) is None && e matches Error::DecodeError { .. },
        },
{
    let entries = match j {
        Json::Obj(entries) => entries,
        _ => {
            return Err(Error::decode("pagination: expected an object"));
        },
    };
    proof {
        lemma_obj_jv(entries@);
    }
    let allowed: Vec<&str> = vec!["index", "pageSize", "resultCount", "totalCount"];
    proof {
        assert(keys_v(allowed@) =~= pagination_keys());
    }
    if !check_strict(entries, &allowed) {
        return Err(Error::decode("pagination: unexpected or duplicate key"));
    }
    let index = match get_u64(entries, "index") {
        Some(v) => v,
        None => {
            return Err(Error::decode("pagination.index"));
        },
    };
    let page_size = match get_u64(entries, "pageSize") {
        Some(v) => v,
        None => {
            return Err(Error::decode("pagination.pageSize"));
        },
    };
    let result_count = match get_u64(entries, "resultCount") {
        Some(v) => v,
        None => {
            return Err(Error::decode("pagination.resultCount"));
        },
    };
    let total_count = match get_u64(entries, "totalCount") {
        Some(v) => v,
        None => {
            return Err(Error::decode("pagination.totalCount"));
        },
    };
    Ok(Pagination { index, page_size, result_count, total_count })
}

/// The mod loaders the service distinguishes, with fixed wire codes.
#[derive(Debug, Clone, Copy, PartialEq, Eq, Structural)]
pub enum ModLoaderType {
    Any,
    Forge,
    Cauldron,
    LiteLoader,
    Fabric,
    Quilt,
}

/// The fixed integer wire code of each loader.
pub open spec fn mod_loader_code(t: ModLoaderType) -> u64 {
    match t {
        ModLoaderType::Any => 0,
        ModLoaderType::Forge => 1,
        ModLoaderType::Cauldron => 2,
        ModLoaderType::LiteLoader => 3,
        ModLoaderType::Fabric => 4,
        ModLoaderType::Quilt => 5,
    }
}

/// The loader a wire code denotes, if any.
pub open spec fn mod_loader_of(n: u64) -> Option<ModLoaderType> {
    if n == 0 {
        Some(ModLoaderType::Any)
    } else if n == 1 {
        Some(ModLoaderType::Forge)
    } else if n == 2 {
        Some(ModLoaderType::Cauldron)
    } else if n == 3 {
        Some(ModLoaderType::LiteLoader)
    } else if n == 4 {
        Some(ModLoaderType::Fabric)
    } else if n == 5 {
        Some(ModLoaderType::Quilt)
    } else {
        None
    }
}

/// Encoding a loader and reading the code back yields the same loader.
pub proof fn lemma_mod_loader_round_trip(t: ModLoaderType)
    ensures
        mod_loader_of(mod_loader_code(t)) == Some(t),
{
}

/// The wire code of a loader.
pub fn mod_loader_wire(t: &ModLoaderType) -> (r: u64)
    ensures
        r == mod_loader_code(*t),
{
    match t {
        ModLoaderType::Any => 0,
        ModLoaderType::Forge => 1,
        ModLoaderType::Cauldron => 2,
        ModLoaderType::LiteLoader => 3,
        ModLoaderType::Fabric => 4,
        ModLoaderType::Quilt => 5,
    }
}

/// Reads a loader from its wire code.
pub fn mod_loader_from(n: u64) -> (r: Option<ModLoaderType>)
    ensures
        r == mod_loader_of(n),
{
    if n == 0 {
        Some(ModLoaderType::Any)
    } else if n == 1 {
        Some(ModLoaderType::Forge)
    } else if n == 2 {
        Some(ModLoaderType::Cauldron)
    } else if n == 3 {
        Some(ModLoaderType::LiteLoader)
    } else if n == 4 {
        Some(ModLoaderType::Fabric)
    } else if n == 5 {
        Some(ModLoaderType::Quilt)
    } else {
        None
    }
}

/// A category a mod can belong to.
#[derive(Debug, Clone, PartialEq)]
pub struct Category {
    pub id: u64,
    /// The game this category belongs to.
    pub game_id: u64,
    pub name: String,
    /// The URL slug; absent for at least one known top-level category.
    pub slug: Option<String>,
    pub url: String,
    pub icon_url: String,
    /// Last modified date; the one field read by the lenient parser.
    pub date_modified: Timestamp,
    /// Whether this is a top-level class for other categories.
    pub is_class: Option<bool>,
    /// The class this category is under.
    pub class_id: Option<u64>,
    pub parent_category_id: Option<u64>,
    pub display_index: Option<u64>,
}

/// The mathematical view of a `Category`.
pub struct CategoryV {
    pub id: u64,
    pub game_id: u64,
    pub name: Seq<char>,
    pub slug: Option<Seq<char>>,
    pub url: Seq<char>,
    pub icon_url: Seq<char>,
    pub date_modified: Timestamp,
    pub is_class: Option<bool>,
    pub class_id: Option<u64>,
    pub parent_category_id: Option<u64>,
    pub display_index: Option<u64>,
}

impl View for Category {
    type V = CategoryV;

    open spec fn view(&self) -> CategoryV {
        CategoryV {
            id: self.id,
            game_id: self.game_id,
            name: self.name@,
            slug: opt_str_v(self.slug),
            url: self.url@,
            icon_url: self.icon_url@,
            date_modified: self.date_modified,
            is_class: self.is_class,
            class_id: self.class_id,
            parent_category_id: self.parent_category_id,
            display_index: self.display_index,
        }
    }
}

impl DeepView for Category {
    type V = CategoryV;

    open spec fn deep_view(&self) -> CategoryV {
        self.view()
    }
}

pub open spec fn category_keys() -> Seq<Seq<char>> {
    seq![
        "id"@,
        "gameId"@,
        "name"@,
        "slug"@,
        "url"@,
        "iconUrl"@,
        "dateModified"@,
        "isClass"@,
        "classId"@,
        "parentCategoryId"@,
        "displayIndex"@,
    ]
}

/// The category this document describes, under the closed-schema discipline,
/// if any.
pub open spec fn category_of(j: JsonV) -> Option<CategoryV> {
    match j {
        JsonV::Obj(o) => {
            if strict_obj(o, category_keys()) && field_u64(o, "id"@) is Some && field_u64(
                o,
                "gameId"@,
            ) is Some && field_str(o, "name"@) is Some && field_opt_str(o, "slug"@) is Some
                && field_str(o, "url"@) is Some && field_str(o, "iconUrl"@) is Some
                && field_date_lenient(o, "dateModified"@) is Some && field_opt_bool(
                o,
                "isClass"@,
            ) is Some && field_opt_u64(o, "classId"@) is Some && field_opt_u64(
                o,
                "parentCategoryId"@,
            ) is Some && field_opt_u64(o, "displayIndex"@) is Some {
                Some(
                    CategoryV {
                        id: field_u64(o, "id"@)->0,
                        game_id: field_u64(o, "gameId"@)->0,
                        name: field_str(o, "name"@)->0,
                        slug: field_opt_str(o, "slug"@)->0,
                        url: field_str(o, "url"@)->0,
                        icon_url: field_str(o, "iconUrl"@)->0,
                        date_modified: field_date_lenient(o, "dateModified"@)->0,
                        is_class: field_opt_bool(o, "isClass"@)->0,
                        class_id: field_opt_u64(o, "classId"@)->0,
                        parent_category_id: field_opt_u64(o, "parentCategoryId"@)->0,
                        display_index: field_opt_u64(o, "displayIndex"@)->0,
                    },
                )
            } else {
                None
            }
        },
        _ => None,
    }
}

/// Decodes a category, rejecting unknown or mistyped fields.
pub fn decode_category(j: &Json) -> (r: Result<Category, Error>)
    ensures
        match r {
            Ok(c) => category_of(j.jv()) == Some(c@),
            Err(e) => category_of(j.jv()) is None && e matches Error::DecodeError { .. },
        },
{
    let entries = match j {
        Json::Obj(entries) => entries,
        _ => {
            return Err(Error::decode("category: expected an object"));
        },
    };
    proof {
        lemma_obj_jv(entries@);
    }
    let allowed: Vec<&str> = vec![
        "id",
        "gameId",
        "name",
        "slug",
        "url",
        "iconUrl",
        "dateModified",
        "isClass",
        "classId",
        "parentCategoryId",
        "displayIndex",
    ];
    proof {
        assert(keys_v(allowed@) =~= category_keys());
    }
    if !check_strict(entries, &allowed) {
        return Err(Error::decode("category: unexpected or duplicate key"));
    }
    let id = match get_u64(entries, "id") {
        Some(v) => v,
        None => {
            return Err(Error::decode("category.id"));
        },
    };
    let game_id = match get_u64(entries, "gameId") {
        Some(v) => v,
        None => {
            return Err(Error::decode("category.gameId"));
        },
    };
    let name = match get_str(entries, "name") {
        Some(v) => v,
        None => {
            return Err(Error::decode("category.name"));
        },
    };
    let slug = match get_opt_str(entries, "slug") {
        Some(v) => v,
        None => {
            return Err(Error::decode("category.slug"));
        },
    };
    let url = match get_str(entries, "url") {
        Some(v) => v,
        None => {
            return Err(Error::decode("category.url"));
        },
    };
    let icon_url = match get_str(entries, "iconUrl") {
        Some(v) => v,
        None => {
            return Err(Error::decode("category.iconUrl"));
        },
    };
    let date_modified = match get_date_lenient(entries, "dateModified") {
        Ok(v) => v,
        Err(e) => {
            return Err(e);
        },
    };
    let is_class = match get_opt_bool(entries, "isClass") {
        Some(v) => v,
        None => {
            return Err(Error::decode("category.isClass"));
        },
    };
    let class_id = match get_opt_u64(entries, "classId") {
        Some(v) => v,
        None => {
            return Err(Error::decode("category.classId"));
        },
    };
    let parent_category_id = match get_opt_u64(entries, "parentCategoryId") {
        Some(v) => v,
        None => {
            return Err(Error::decode("category.parentCategoryId"));
        },
    };
    let display_index = match get_opt_u64(entries, "displayIndex") {
        Some(v) => v,
        None => {
            return Err(Error::decode("category.displayIndex"));
        },
    };
    Ok(
        Category {
            id,
            game_id,
            name,
            slug,
            url,
            icon_url,
            date_modified,
            is_class,
            class_id,
            parent_category_id,
            display_index,
        },
    )
}

/// A game version with its padded form used for sorting.
#[derive(Debug, Clone, PartialEq)]
pub struct SortableGameVersion {
    /// Original version name.
    pub game_version_name: String,
    /// Padded version used for sorting.
    pub game_version_padded: String,
    /// Clean version.
    pub game_version: String,
    pub game_version_release_date: Timestamp,
    pub game_version_type_id: Option<u64>,
}

/// The mathematical view of a `SortableGameVersion`.
pub struct SortableGameVersionV {
    pub game_version_name: Seq<char>,
    pub game_version_padded: Seq<char>,
    pub game_version: Seq<char>,
    pub game_version_release_date: Timestamp,
    pub game_version_type_id: Option<u64>,
}

impl View for SortableGameVersion {
    type V = SortableGameVersionV;

    open spec fn view(&self) -> SortableGameVersionV {
        SortableGameVersionV {
            game_version_name: self.game_version_name@,
            game_version_padded: self.game_version_padded@,
            game_version: self.game_version@,
            game_version_release_date: self.game_version_release_date,
            game_version_type_id: self.game_version_type_id,
        }
    }
}

impl DeepView for SortableGameVersion {
    type V = SortableGameVersionV;

    open spec fn deep_view(&self) -> SortableGameVersionV {
        self.view()
    }
}

pub open spec fn sortable_game_version_keys() -> Seq<Seq<char>> {
    seq![
        "gameVersionName"@,
        "gameVersionPadded"@,
        "gameVersion"@,
        "gameVersionReleaseDate"@,
        "gameVersionTypeId"@,
    ]
}

/// The sortable game version this document describes, if any.
pub open spec fn sortable_game_version_of(j: JsonV) -> Option<SortableGameVersionV> {
    match j {
        JsonV::Obj(o) => {
            if strict_obj(o, sortable_game_version_keys()) && field_str(
                o,
                "gameVersionName"@,
            ) is Some && field_str(o, "gameVersionPadded"@) is Some && field_str(
                o,
                "gameVersion"@,
            ) is Some && field_date_strict(o, "gameVersionReleaseDate"@) is Some && field_opt_u64(
                o,
                "gameVersionTypeId"@,
            ) is Some {
                Some(
                    SortableGameVersionV {
                        game_version_name: field_str(o, "gameVersionName"@)->0,
                        game_version_padded: field_str(o, "gameVersionPadded"@)->0,
                        game_version: field_str(o, "gameVersion"@)->0,
                        game_version_release_date: field_date_strict(
                            o,
                            "gameVersionReleaseDate"@,
                        )->0,
                        game_version_type_id: field_opt_u64(o, "gameVersionTypeId"@)->0,
                    },
                )
            } else {
                None
            }
        },
        _ => None,
    }
}

/// Decodes a sortable game version, rejecting unknown or mistyped fields.
pub fn decode_sortable_game_version(j: &Json) -> (r: Result<SortableGameVersion, Error>)
    ensures
        match r {
            Ok(v) => sortable_game_version_of(j.jv()) == Some(v@),
            Err(e) => sortable_game_version_of(j.jv()) is None && e matches Error::DecodeError {
                ..
            },
        },
{
    let entries = match j {
        Json::Obj(entries) => entries,
        _ => {
            return Err(Error::decode("sortableGameVersion: expected an object"));
        },
    };
    proof {
        lemma_obj_jv(entries@);
    }
    let allowed: Vec<&str> = vec![
        "gameVersionName",
        "gameVersionPadded",
        "gameVersion",
        "gameVersionReleaseDate",
        "gameVersionTypeId",
    ];
    proof {
        assert(keys_v(allowed@) =~= sortable_game_version_keys());
    }
    if !check_strict(entries, &allowed) {
        return Err(Error::decode("sortableGameVersion: unexpected or duplicate key"));
    }
    let game_version_name = match get_str(entries, "gameVersionName") {
        Some(v) => v,
        None => {
            return Err(Error::decode("sortableGameVersion.gameVersionName"));
        },
    };
    let game_version_padded = match get_str(entries, "gameVersionPadded") {
        Some(v) => v,
        None => {
            return Err(Error::decode("sortableGameVersion.gameVersionPadded"));
        },
    };
    let game_version = match get_str(entries, "gameVersion") {
        Some(v) => v,
        None => {
            return Err(Error::decode("sortableGameVersion.gameVersion"));
        },
    };
    let game_version_release_date = match get_date_strict(entries, "gameVersionReleaseDate") {
        Ok(v) => v,
        Err(e) => {
            return Err(e);
        },
    };
    let game_version_type_id = match get_opt_u64(entries, "gameVersionTypeId") {
        Some(v) => v,
        None => {
            return Err(Error::decode("sortableGameVersion.gameVersionTypeId"));
        },
    };
    Ok(
        SortableGameVersion {
            game_version_name,
            game_version_padded,
            game_version,
            game_version_release_date,
            game_version_type_id,
        },
    )
}

/// The elementwise reading of an array of sortable game versions.
pub open spec fn sortable_game_version_elem_fn() -> spec_fn(JsonV) -> Option<
    SortableGameVersionV,
> {
    |j: JsonV| sortable_game_version_of(j)
}

pub open spec fn sortable_game_version_list_of(s: Seq<JsonV>) -> Option<Seq<SortableGameVersionV>> {
    map_opt(s, sortable_game_version_elem_fn())
}

/// Decodes an array of sortable game versions.
pub fn decode_sortable_game_version_list(v: &Vec<Json>) -> (r: Result<
    Vec<SortableGameVersion>,
    Error,
>)
    ensures
        match r {
            Ok(vs) => sortable_game_version_list_of(seq_jv(v@)) == Some(vs.deep_view()),
            Err(e) => sortable_game_version_list_of(seq_jv(v@)) is None
                && e matches Error::DecodeError { .. },
        },
{
    let mut out: Vec<SortableGameVersion> = Vec::new();
    let mut i: usize = 0;
    while i < v.len()
        invariant
            0 <= i <= v.len(),
            map_opt(seq_jv(v@).take(i as int), sortable_game_version_elem_fn()) == Some(
                out.deep_view(),
            ),
        decreases v.len() - i,
    {
        let ghost prefix = seq_jv(v@).take(i as int);
        let ghost x = seq_jv(v@)[i as int];
        proof {
            assert(x == v@[i as int].jv());
        }
        let elem = match decode_sortable_game_version(&v[i]) {
            Ok(c) => c,
            Err(e) => {
                proof {
                    lemma_map_opt_all(seq_jv(v@), sortable_game_version_elem_fn(), i as int);
                }
                return Err(e);
            },
        };
        proof {
            assert(sortable_game_version_elem_fn()(x) == Some(elem@));
        }
        out.push(elem);
        proof {
            lemma_map_opt_push(prefix, sortable_game_version_elem_fn(), x);
            assert(prefix.push(x) =~= seq_jv(v@).take(i as int + 1));
            assert(out.deep_view() =~= (map_opt(prefix, sortable_game_version_elem_fn())->0).push(
                out[out.len() - 1]@,
            ));
        }
        i += 1;
    }
    proof {
        assert(seq_jv(v@).take(v.len() as int) =~= seq_jv(v@));
    }
    Ok(out)
}

/// The elementwise reading of an array of categories.
pub open spec fn category_elem_fn() -> spec_fn(JsonV) -> Option<CategoryV> {
    |j: JsonV| category_of(j)
}

pub open spec fn category_list_of(s: Seq<JsonV>) -> Option<Seq<CategoryV>> {
    map_opt(s, category_elem_fn())
}

/// Decodes an array of categories.
pub fn decode_category_list(v: &Vec<Json>) -> (r: Result<Vec<Category>, Error>)
    ensures
        match r {
            Ok(cs) => category_list_of(seq_jv(v@)) == Some(cs.deep_view()),
            Err(e) => category_list_of(seq_jv(v@)) is None && e matches Error::DecodeError { .. },
        },
{
    let mut out: Vec<Category> = Vec::new();
    let mut i: usize = 0;
    while i < v.len()
        invariant
            0 <= i <= v.len(),
            map_opt(seq_jv(v@).take(i as int), category_elem_fn()) == Some(out.deep_view()),
        decreases v.len() - i,
    {
        let ghost prefix = seq_jv(v@).take(i as int);
        let ghost x = seq_jv(v@)[i as int];
        proof {
            assert(x == v@[i as int].jv());
        }
        let elem = match decode_category(&v[i]) {
            Ok(c) => c,
            Err(e) => {
                proof {
                    lemma_map_opt_all(seq_jv(v@), category_elem_fn(), i as int);
                }
                return Err(e);
            },
        };
        proof {
            assert(category_elem_fn()(x) == Some(elem@));
        }
        out.push(elem);
        proof {
            lemma_map_opt_push(prefix, category_elem_fn(), x);
            assert(prefix.push(x) =~= seq_jv(v@).take(i as int + 1));
            assert(out.deep_view() =~= (map_opt(prefix, category_elem_fn())->0).push(
                out[out.len() - 1]@,
            ));
        }
        i += 1;
    }
    proof {
        assert(seq_jv(v@).take(v.len() as int) =~= seq_jv(v@));
    }
    Ok(out)
}

} // verus!
