//! Mods: the top-level addon entities, their links, authors, assets and
//! lifecycle status.

use vstd::prelude::*;
use crate::error::Error;
use crate::json::{
    check_strict, field_arr, field_bool, field_opt_bool, field_opt_str, field_opt_u64, field_str,
    field_u64, get_arr, get_bool, get_opt_bool, get_opt_str, get_opt_u64, get_str, get_u64, keys_v,
    lemma_map_opt_all, lemma_map_opt_push, lemma_obj_jv, lookup, map_opt, obj_get, obj_jv,
    opt_str_v, seq_jv, strict_obj, Json, JsonV,
};
use crate::common_structs::{
    category_list_of, decode_category_list, Category, CategoryV,
};
use crate::file_structs::{
    decode_file_index_list, decode_file_list, file_index_list_of, file_list_of, File, FileIndex,
    FileIndexV, FileV,
};
use crate::timestamp::{field_date_strict, get_date_strict, Timestamp};

verus! {

/// Relevant links for a mod, such as its issue tracker and wiki.
#[derive(Debug, Clone, PartialEq)]
pub struct ModLinks {
    pub website_url: String,
    pub wiki_url: Option<String>,
    pub issues_url: Option<String>,
    pub source_url: Option<String>,
}

/// The mathematical view of `ModLinks`.
pub struct ModLinksV {
    pub website_url: Seq<char>,
    pub wiki_url: Option<Seq<char>>,
    pub issues_url: Option<Seq<char>>,
    pub source_url: Option<Seq<char>>,
}

impl View for ModLinks {
    type V = ModLinksV;

    open spec fn view(&self) -> ModLinksV {
        ModLinksV {
            website_url: self.website_url@,
            wiki_url: opt_str_v(self.wiki_url),
            issues_url: opt_str_v(self.issues_url),
            source_url: opt_str_v(self.source_url),
        }
    }
}

pub open spec fn mod_links_keys() -> Seq<Seq<char>> {
    seq!["websiteUrl"@, "wikiUrl"@, "issuesUrl"@, "sourceUrl"@]
}

/// The link set this document describes, if any.
pub open spec fn mod_links_of(j: JsonV) -> Option<ModLinksV> {
    match j {
        JsonV::Obj(o) => {
            if strict_obj(o, mod_links_keys()) && field_str(o, "websiteUrl"@) is Some
                && field_opt_str(o, "wikiUrl"@) is Some && field_opt_str(o, "issuesUrl"@) is Some
                && field_opt_str(o, "sourceUrl"@) is Some {
                Some(
                    ModLinksV {
                        website_url: field_str(o, "websiteUrl"@)->0,
                        wiki_url: field_opt_str(o, "wikiUrl"@)->0,
                        issues_url: field_opt_str(o, "issuesUrl"@)->0,
                        source_url: field_opt_str(o, "sourceUrl"@)->0,
                    },
                )
            } else {
                None
            }
        },
        _ => None,
    }
}

/// Decodes a mod's link set, rejecting unknown or mistyped fields.
pub fn decode_mod_links(j: &Json) -> (r: Result<ModLinks, Error>)
    ensures
        match r {
            Ok(l) => mod_links_of(j.jv()) == Some(l@),
            Err(e) => mod_links_of(j.jv()) is None && e matches Error::DecodeError { .. },
        },
{
    let entries = match j {
        Json::Obj(entries) => entries,
        _ => {
            return Err(Error::decode("links: expected an object"));
        },
    };
    proof {
        lemma_obj_jv(entries@);
    }
    let allowed: Vec<&str> = vec!["websiteUrl", "wikiUrl", "issuesUrl", "sourceUrl"];
    proof {
        assert(keys_v(allowed@) =~= mod_links_keys());
    }
    if !check_strict(entries, &allowed) {
        return Err(Error::decode("links: unexpected or duplicate key"));
    }
    let website_url = match get_str(entries, "websiteUrl") {
        Some(v) => v,
        None => {
            return Err(Error::decode("links.websiteUrl"));
        },
    };
    let wiki_url = match get_opt_str(entries, "wikiUrl") {
        Some(v) => v,
        None => {
            return Err(Error::decode("links.wikiUrl"));
        },
    };
    let issues_url = match get_opt_str(entries, "issuesUrl") {
        Some(v) => v,
        None => {
            return Err(Error::decode("links.issuesUrl"));
        },
    };
    let source_url = match get_opt_str(entries, "sourceUrl") {
        Some(v) => v,
        None => {
            return Err(Error::decode("links.sourceUrl"));
        },
    };
    Ok(ModLinks { website_url, wiki_url, issues_url, source_url })
}

/// The lifecycle status of a mod, with fixed wire codes.
#[derive(Debug, Clone, Copy, PartialEq, Eq, Structural)]
pub enum ModStatus {
    New,
    ChangesRequired,
    UnderSoftReview,
    Approved,
    Rejected,
    ChangesMade,
    Inactive,
    Abandoned,
    Deleted,
    UnderReview,
}

/// The fixed integer wire code of each status.
pub open spec fn mod_status_code(s: ModStatus) -> u64 {
    match s {
        ModStatus::New => 1,
        ModStatus::ChangesRequired => 2,
        ModStatus::UnderSoftReview => 3,
        ModStatus::Approved => 4,
        ModStatus::Rejected => 5,
        ModStatus::ChangesMade => 6,
        ModStatus::Inactive => 7,
        ModStatus::Abandoned => 8,
        ModStatus::Deleted => 9,
        ModStatus::UnderReview => 10,
    }
}

/// The status a wire code denotes, if any.
pub open spec fn mod_status_of(n: u64) -> Option<ModStatus> {
    if n == 1 {
        Some(ModStatus::New)
    } else if n == 2 {
        Some(ModStatus::ChangesRequired)
    } else if n == 3 {
        Some(ModStatus::UnderSoftReview)
    } else if n == 4 {
        Some(ModStatus::Approved)
    } else if n == 5 {
        Some(ModStatus::Rejected)
    } else if n == 6 {
        Some(ModStatus::ChangesMade)
    } else if n == 7 {
        Some(ModStatus::Inactive)
    } else if n == 8 {
        Some(ModStatus::Abandoned)
    } else if n == 9 {
        Some(ModStatus::Deleted)
    } else if n == 10 {
        Some(ModStatus::UnderReview)
    } else {
        None
    }
}

/// Encoding a status and reading the code back yields the same status.
pub proof fn lemma_mod_status_round_trip(s: ModStatus)
    ensures
        mod_status_of(mod_status_code(s)) == Some(s),
{
}

/// Reads a status from its wire code.
pub fn mod_status_from(n: u64) -> (r: Option<ModStatus>)
    ensures
        r == mod_status_of(n),
{
    if n == 1 {
        Some(ModStatus::New)
    } else if n == 2 {
        Some(ModStatus::ChangesRequired)
    } else if n == 3 {
        Some(ModStatus::UnderSoftReview)
    } else if n == 4 {
        Some(ModStatus::Approved)
    } else if n == 5 {
        Some(ModStatus::Rejected)
    } else if n == 6 {
        Some(ModStatus::ChangesMade)
    } else if n == 7 {
        Some(ModStatus::Inactive)
    } else if n == 8 {
        Some(ModStatus::Abandoned)
    } else if n == 9 {
        Some(ModStatus::Deleted)
    } else if n == 10 {
        Some(ModStatus::UnderReview)
    } else {
        None
    }
}

/// An author of a mod.
#[derive(Debug, Clone, PartialEq)]
pub struct ModAuthor {
    pub id: u64,
    pub name: String,
    pub url: String,
}

/// The mathematical view of a `ModAuthor`.
pub struct ModAuthorV {
    pub id: u64,
    pub name: Seq<char>,
    pub url: Seq<char>,
}

impl View for ModAuthor {
    type V = ModAuthorV;

    open spec fn view(&self) -> ModAuthorV {
        ModAuthorV { id: self.id, name: self.name@, url: self.url@ }
    }
}

impl DeepView for ModAuthor {
    type V = ModAuthorV;

    open spec fn deep_view(&self) -> ModAuthorV {
        self.view()
    }
}

pub open spec fn mod_author_keys() -> Seq<Seq<char>> {
    seq!["id"@, "name"@, "url"@]
}

/// The author this document describes, if any.
pub open spec fn mod_author_of(j: JsonV) -> Option<ModAuthorV> {
    match j {
        JsonV::Obj(o) => {
            if strict_obj(o, mod_author_keys()) && field_u64(o, "id"@) is Some && field_str(
                o,
                "name"@,
            ) is Some && field_str(o, "url"@) is Some {
                Some(
                    ModAuthorV {
                        id: field_u64(o, "id"@)->0,
                        name: field_str(o, "name"@)->0,
                        url: field_str(o, "url"@)->0,
                    },
                )
            } else {
                None
            }
        },
        _ => None,
    }
}

/// Decodes an author, rejecting unknown or mistyped fields.
pub fn decode_mod_author(j: &Json) -> (r: Result<ModAuthor, Error>)
    ensures
        match r {
            Ok(a) => mod_author_of(j.jv()) == Some(a@),
            Err(e) => mod_author_of(j.jv()) is None && e matches Error::DecodeError { .. },
        },
{
    let entries = match j {
        Json::Obj(entries) => entries,
        _ => {
            return Err(Error::decode("author: expected an object"));
        },
    };
    proof {
        lemma_obj_jv(entries@);
    }
    let allowed: Vec<&str> = vec!["id", "name", "url"];
    proof {
        assert(keys_v(allowed@) =~= mod_author_keys());
    }
    if !check_strict(entries, &allowed) {
        return Err(Error::decode("author: unexpected or duplicate key"));
    }
    let id = match get_u64(entries, "id") {
        Some(v) => v,
        None => {
            return Err(Error::decode("author.id"));
        },
    };
    let name = match get_str(entries, "name") {
        Some(v) => v,
        None => {
            return Err(Error::decode("author.name"));
        },
    };
    let url = match get_str(entries, "url") {
        Some(v) => v,
        None => {
            return Err(Error::decode("author.url"));
        },
    };
    Ok(ModAuthor { id, name, url })
}

pub open spec fn mod_author_elem_fn() -> spec_fn(JsonV) -> Option<ModAuthorV> {
    |j: JsonV| mod_author_of(j)
}

pub open spec fn mod_author_list_of(s: Seq<JsonV>) -> Option<Seq<ModAuthorV>> {
    map_opt(s, mod_author_elem_fn())
}

/// Decodes an array of authors.
pub fn decode_mod_author_list(v: &Vec<Json>) -> (r: Result<Vec<ModAuthor>, Error>)
    ensures
        match r {
            Ok(xs) => mod_author_list_of(seq_jv(v@)) == Some(xs.deep_view()),
            Err(e) => mod_author_list_of(seq_jv(v@)) is None && e matches Error::DecodeError { .. },
        },
{
    let mut out: Vec<ModAuthor> = Vec::new();
    let mut i: usize = 0;
    while i < v.len()
        invariant
            0 <= i <= v.len(),
            map_opt(seq_jv(v@).take(i as int), mod_author_elem_fn()) == Some(out.deep_view()),
        decreases v.len() - i,
    {
        let ghost prefix = seq_jv(v@).take(i as int);
        let ghost x = seq_jv(v@)[i as int];
        proof {
            assert(x == v@[i as int].jv());
        }
        let elem = match decode_mod_author(&v[i]) {
            Ok(c) => c,
            Err(e) => {
                proof {
                    lemma_map_opt_all(seq_jv(v@), mod_author_elem_fn(), i as int);
                }
                return Err(e);
            },
        };
        proof {
            assert(mod_author_elem_fn()(x) == Some(elem@));
        }
        out.push(elem);
        proof {
            lemma_map_opt_push(prefix, mod_author_elem_fn(), x);
            assert(prefix.push(x) =~= seq_jv(v@).take(i as int + 1));
            assert(out.deep_view() =~= (map_opt(prefix, mod_author_elem_fn())->0).push(
                out[out.len() - 1]@,
            ));
        }
        i += 1;
    }
    proof {
        assert(seq_jv(v@).take(v.len() as int) =~= seq_jv(v@));
    }
    Ok(out)
}

/// A media asset of a mod: its logo or a screenshot.
#[derive(Debug, Clone, PartialEq)]
pub struct ModAsset {
    pub id: u64,
    pub mod_id: u64,
    pub title: String,
    pub description: String,
    pub thumbnail_url: String,
    pub url: String,
}

/// The mathematical view of a `ModAsset`.
pub struct ModAssetV {
    pub id: u64,
    pub mod_id: u64,
    pub title: Seq<char>,
    pub description: Seq<char>,
    pub thumbnail_url: Seq<char>,
    pub url: Seq<char>,
}

impl View for ModAsset {
    type V = ModAssetV;

    open spec fn view(&self) -> ModAssetV {
        ModAssetV {
            id: self.id,
            mod_id: self.mod_id,
            title: self.title@,
            description: self.description@,
            thumbnail_url: self.thumbnail_url@,
            url: self.url@,
        }
    }
}

impl DeepView for ModAsset {
    type V = ModAssetV;

    open spec fn deep_view(&self) -> ModAssetV {
        self.view()
    }
}

pub open spec fn mod_asset_keys() -> Seq<Seq<char>> {
    seq!["id"@, "modId"@, "title"@, "description"@, "thumbnailUrl"@, "url"@]
}

/// The asset this document describes, if any.
pub open spec fn mod_asset_of(j: JsonV) -> Option<ModAssetV> {
    match j {
        JsonV::Obj(o) => {
            if strict_obj(o, mod_asset_keys()) && field_u64(o, "id"@) is Some && field_u64(
                o,
                "modId"@,
            ) is Some && field_str(o, "title"@) is Some && field_str(o, "description"@) is Some
                && field_str(o, "thumbnailUrl"@) is Some && field_str(o, "url"@) is Some {
                Some(
                    ModAssetV {
                        id: field_u64(o, "id"@)->0,
                        mod_id: field_u64(o, "modId"@)->0,
                        title: field_str(o, "title"@)->0,
                        description: field_str(o, "description"@)->0,
                        thumbnail_url: field_str(o, "thumbnailUrl"@)->0,
                        url: field_str(o, "url"@)->0,
                    },
                )
            } else {
                None
            }
        },
        _ => None,
    }
}

/// Decodes an asset, rejecting unknown or mistyped fields.
pub fn decode_mod_asset(j: &Json) -> (r: Result<ModAsset, Error>)
    ensures
        match r {
            Ok(a) => mod_asset_of(j.jv()) == Some(a@),
            Err(e) => mod_asset_of(j.jv()) is None && e matches Error::DecodeError { .. },
        },
{
    let entries = match j {
        Json::Obj(entries) => entries,
        _ => {
            return Err(Error::decode("asset: expected an object"));
        },
    };
    proof {
        lemma_obj_jv(entries@);
    }
    let allowed: Vec<&str> = vec!["id", "modId", "title", "description", "thumbnailUrl", "url"];
    proof {
        assert(keys_v(allowed@) =~= mod_asset_keys());
    }
    if !check_strict(entries, &allowed) {
        return Err(Error::decode("asset: unexpected or duplicate key"));
    }
    let id = match get_u64(entries, "id") {
        Some(v) => v,
        None => {
            return Err(Error::decode("asset.id"));
        },
    };
    let mod_id = match get_u64(entries, "modId") {
        Some(v) => v,
        None => {
            return Err(Error::decode("asset.modId"));
        },
    };
    let title = match get_str(entries, "title") {
        Some(v) => v,
        None => {
            return Err(Error::decode("asset.title"));
        },
    };
    let description = match get_str(entries, "description") {
        Some(v) => v,
        None => {
            return Err(Error::decode("asset.description"));
        },
    };
    let thumbnail_url = match get_str(entries, "thumbnailUrl") {
        Some(v) => v,
        None => {
            return Err(Error::decode("asset.thumbnailUrl"));
        },
    };
    let url = match get_str(entries, "url") {
        Some(v) => v,
        None => {
            return Err(Error::decode("asset.url"));
        },
    };
    Ok(ModAsset { id, mod_id, title, description, thumbnail_url, url })
}

pub open spec fn mod_asset_elem_fn() -> spec_fn(JsonV) -> Option<ModAssetV> {
    |j: JsonV| mod_asset_of(j)
}

pub open spec fn mod_asset_list_of(s: Seq<JsonV>) -> Option<Seq<ModAssetV>> {
    map_opt(s, mod_asset_elem_fn())
}

/// Decodes an array of assets.
pub fn decode_mod_asset_list(v: &Vec<Json>) -> (r: Result<Vec<ModAsset>, Error>)
    ensures
        match r {
            Ok(xs) => mod_asset_list_of(seq_jv(v@)) == Some(xs.deep_view()),
            Err(e) => mod_asset_list_of(seq_jv(v@)) is None && e matches Error::DecodeError { .. },
        },
{
    let mut out: Vec<ModAsset> = Vec::new();
    let mut i: usize = 0;
    while i < v.len()
        invariant
            0 <= i <= v.len(),
            map_opt(seq_jv(v@).take(i as int), mod_asset_elem_fn()) == Some(out.deep_view()),
        decreases v.len() - i,
    {
        let ghost prefix = seq_jv(v@).take(i as int);
        let ghost x = seq_jv(v@)[i as int];
        proof {
            assert(x == v@[i as int].jv());
        }
        let elem = match decode_mod_asset(&v[i]) {
            Ok(c) => c,
            Err(e) => {
                proof {
                    lemma_map_opt_all(seq_jv(v@), mod_asset_elem_fn(), i as int);
                }
                return Err(e);
            },
        };
        proof {
            assert(mod_asset_elem_fn()(x) == Some(elem@));
        }
        out.push(elem);
        proof {
            lemma_map_opt_push(prefix, mod_asset_elem_fn(), x);
            assert(prefix.push(x) =~= seq_jv(v@).take(i as int + 1));
            assert(out.deep_view() =~= (map_opt(prefix, mod_asset_elem_fn())->0).push(
                out[out.len() - 1]@,
            ));
        }
        i += 1;
    }
    proof {
        assert(seq_jv(v@).take(v.len() as int) =~= seq_jv(v@));
    }
    Ok(out)
}

/// An optional nested asset field: absent or null reads as `None`.
pub open spec fn field_opt_asset(o: Seq<(Seq<char>, JsonV)>, k: Seq<char>) -> Option<
    Option<ModAssetV>,
> {
    match lookup(o, k) {
        None => Some(None),
        Some(JsonV::Null) => Some(None),
        Some(v) => match mod_asset_of(v) {
            Some(a) => Some(Some(a)),
            None => None,
        },
    }
}

/// A top-level addon entity hosted by the service.
#[derive(Debug, Clone, PartialEq)]
pub struct Mod {
    pub id: u64,
    /// The game this mod is for.
    pub game_id: u64,
    pub name: String,
    /// The slug that appears in the mod's URL.
    pub slug: String,
    pub links: ModLinks,
    pub summary: String,
    pub status: ModStatus,
    pub download_count: u64,
    /// Whether the mod is in the featured list.
    pub is_featured: bool,
    /// The main category chosen by the author.
    pub primary_category_id: u64,
    pub categories: Vec<Category>,
    pub class_id: Option<u64>,
    pub authors: Vec<ModAuthor>,
    pub logo: Option<ModAsset>,
    pub screenshots: Vec<ModAsset>,
    /// The ID of the mod's main file.
    pub main_file_id: u64,
    pub latest_files: Vec<File>,
    pub latest_files_indexes: Vec<FileIndex>,
    pub date_created: Timestamp,
    pub date_modified: Timestamp,
    pub date_released: Timestamp,
    /// Whether distribution of the mod is allowed.
    pub allow_mod_distribution: Option<bool>,
    /// Popularity rank for the game.
    pub game_popularity_rank: u64,
    /// Whether the mod is available for search.
    pub is_available: bool,
    pub thumbs_up_count: Option<u64>,
}

/// The mathematical view of a `Mod`.
pub struct ModV {
    pub id: u64,
    pub game_id: u64,
    pub name: Seq<char>,
    pub slug: Seq<char>,
    pub links: ModLinksV,
    pub summary: Seq<char>,
    pub status: ModStatus,
    pub download_count: u64,
    pub is_featured: bool,
    pub primary_category_id: u64,
    pub categories: Seq<CategoryV>,
    pub class_id: Option<u64>,
    pub authors: Seq<ModAuthorV>,
    pub logo: Option<ModAssetV>,
    pub screenshots: Seq<ModAssetV>,
    pub main_file_id: u64,
    pub latest_files: Seq<FileV>,
    pub latest_files_indexes: Seq<FileIndexV>,
    pub date_created: Timestamp,
    pub date_modified: Timestamp,
    pub date_released: Timestamp,
    pub allow_mod_distribution: Option<bool>,
    pub game_popularity_rank: u64,
    pub is_available: bool,
    pub thumbs_up_count: Option<u64>,
}

/// The view of an optional owned asset.
pub open spec fn opt_asset_v(o: Option<ModAsset>) -> Option<ModAssetV> {
    match o {
        Some(a) => Some(a@),
        None => None,
    }
}

impl View for Mod {
    type V = ModV;

    open spec fn view(&self) -> ModV {
        ModV {
            id: self.id,
            game_id: self.game_id,
            name: self.name@,
            slug: self.slug@,
            links: self.links@,
            summary: self.summary@,
            status: self.status,
            download_count: self.download_count,
            is_featured: self.is_featured,
            primary_category_id: self.primary_category_id,
            categories: self.categories.deep_view(),
            class_id: self.class_id,
            authors: self.authors.deep_view(),
            logo: opt_asset_v(self.logo),
            screenshots: self.screenshots.deep_view(),
            main_file_id: self.main_file_id,
            latest_files: self.latest_files.deep_view(),
            latest_files_indexes: self.latest_files_indexes.deep_view(),
            date_created: self.date_created,
            date_modified: self.date_modified,
            date_released: self.date_released,
            allow_mod_distribution: self.allow_mod_distribution,
            game_popularity_rank: self.game_popularity_rank,
            is_available: self.is_available,
            thumbs_up_count: self.thumbs_up_count,
        }
    }
}

impl DeepView for Mod {
    type V = ModV;

    open spec fn deep_view(&self) -> ModV {
        self.view()
    }
}

pub open spec fn mod_keys() -> Seq<Seq<char>> {
    seq![
        "id"@,
        "gameId"@,
        "name"@,
        "slug"@,
        "links"@,
        "summary"@,
        "status"@,
        "downloadCount"@,
        "isFeatured"@,
        "primaryCategoryId"@,
        "categories"@,
        "classId"@,
        "authors"@,
        "logo"@,
        "screenshots"@,
        "mainFileId"@,
        "latestFiles"@,
        "latestFilesIndexes"@,
        "dateCreated"@,
        "dateModified"@,
        "dateReleased"@,
        "allowModDistribution"@,
        "gamePopularityRank"@,
        "isAvailable"@,
        "thumbsUpCount"@,
    ]
}

/// The mod this document describes, under the closed-schema discipline, if
/// any.
pub open spec fn mod_of(j: JsonV) -> Option<ModV> {
    match j {
        JsonV::Obj(o) => {
            if strict_obj(o, mod_keys()) && field_u64(o, "id"@) is Some && field_u64(
                o,
                "gameId"@,
            ) is Some && field_str(o, "name"@) is Some && field_str(o, "slug"@) is Some && lookup(
                o,
                "links"@,
            ) is Some && mod_links_of(lookup(o, "links"@)->0) is Some && field_str(
                o,
                "summary"@,
            ) is Some && field_u64(o, "status"@) is Some && mod_status_of(
                field_u64(o, "status"@)->0,
            ) is Some && field_u64(o, "downloadCount"@) is Some && field_bool(
                o,
                "isFeatured"@,
            ) is Some && field_u64(o, "primaryCategoryId"@) is Some && field_arr(
                o,
                "categories"@,
            ) is Some && category_list_of(field_arr(o, "categories"@)->0) is Some && field_opt_u64(
                o,
                "classId"@,
            ) is Some && field_arr(o, "authors"@) is Some && mod_author_list_of(
                field_arr(o, "authors"@)->0,
            ) is Some && field_opt_asset(o, "logo"@) is Some && field_arr(
                o,
                "screenshots"@,
            ) is Some && mod_asset_list_of(field_arr(o, "screenshots"@)->0) is Some && field_u64(
                o,
                "mainFileId"@,
            ) is Some && field_arr(o, "latestFiles"@) is Some && file_list_of(
                field_arr(o, "latestFiles"@)->0,
            ) is Some && field_arr(o, "latestFilesIndexes"@) is Some && file_index_list_of(
                field_arr(o, "latestFilesIndexes"@)->0,
            ) is Some && field_date_strict(o, "dateCreated"@) is Some && field_date_strict(
                o,
                "dateModified"@,
            ) is Some && field_date_strict(o, "dateReleased"@) is Some && field_opt_bool(
                o,
                "allowModDistribution"@,
            ) is Some && field_u64(o, "gamePopularityRank"@) is Some && field_bool(
                o,
                "isAvailable"@,
            ) is Some && field_opt_u64(o, "thumbsUpCount"@) is Some {
                Some(
                    ModV {
                        id: field_u64(o, "id"@)->0,
                        game_id: field_u64(o, "gameId"@)->0,
                        name: field_str(o, "name"@)->0,
                        slug: field_str(o, "slug"@)->0,
                        links: mod_links_of(lookup(o, "links"@)->0)->0,
                        summary: field_str(o, "summary"@)->0,
                        status: mod_status_of(field_u64(o, "status"@)->0)->0,
                        download_count: field_u64(o, "downloadCount"@)->0,
                        is_featured: field_bool(o, "isFeatured"@)->0,
                        primary_category_id: field_u64(o, "primaryCategoryId"@)->0,
                        categories: category_list_of(field_arr(o, "categories"@)->0)->0,
                        class_id: field_opt_u64(o, "classId"@)->0,
                        authors: mod_author_list_of(field_arr(o, "authors"@)->0)->0,
                        logo: field_opt_asset(o, "logo"@)->0,
                        screenshots: mod_asset_list_of(field_arr(o, "screenshots"@)->0)->0,
                        main_file_id: field_u64(o, "mainFileId"@)->0,
                        latest_files: file_list_of(field_arr(o, "latestFiles"@)->0)->0,
                        latest_files_indexes: file_index_list_of(
                            field_arr(o, "latestFilesIndexes"@)->0,
                        )->0,
                        date_created: field_date_strict(o, "dateCreated"@)->0,
                        date_modified: field_date_strict(o, "dateModified"@)->0,
                        date_released: field_date_strict(o, "dateReleased"@)->0,
                        allow_mod_distribution: field_opt_bool(o, "allowModDistribution"@)->0,
                        game_popularity_rank: field_u64(o, "gamePopularityRank"@)->0,
                        is_available: field_bool(o, "isAvailable"@)->0,
                        thumbs_up_count: field_opt_u64(o, "thumbsUpCount"@)->0,
                    },
                )
            } else {
                None
            }
        },
        _ => None,
    }
}

/// Decodes a mod, rejecting unknown or mistyped fields.
#[verifier::rlimit(60)]
pub fn decode_mod(j: &Json) -> (r: Result<Mod, Error>)
    ensures
        match r {
            Ok(m) => mod_of(j.jv()) == Some(m@),
            Err(e) => mod_of(j.jv()) is None && e matches Error::DecodeError { .. },
        },
{
    let entries = match j {
        Json::Obj(entries) => entries,
        _ => {
            return Err(Error::decode("mod: expected an object"));
        },
    };
    proof {
        lemma_obj_jv(entries@);
    }
    let allowed: Vec<&str> = vec![
        "id",
        "gameId",
        "name",
        "slug",
        "links",
        "summary",
        "status",
        "downloadCount",
        "isFeatured",
        "primaryCategoryId",
        "categories",
        "classId",
        "authors",
        "logo",
        "screenshots",
        "mainFileId",
        "latestFiles",
        "latestFilesIndexes",
        "dateCreated",
        "dateModified",
        "dateReleased",
        "allowModDistribution",
        "gamePopularityRank",
        "isAvailable",
        "thumbsUpCount",
    ];
    proof {
        assert(keys_v(allowed@) =~= mod_keys());
    }
    if !check_strict(entries, &allowed) {
        return Err(Error::decode("mod: unexpected or duplicate key"));
    }
    let id = match get_u64(entries, "id") {
        Some(v) => v,
        None => {
            return Err(Error::decode("mod.id"));
        },
    };
    let game_id = match get_u64(entries, "gameId") {
        Some(v) => v,
        None => {
            return Err(Error::decode("mod.gameId"));
        },
    };
    let name = match get_str(entries, "name") {
        Some(v) => v,
        None => {
            return Err(Error::decode("mod.name"));
        },
    };
    let slug = match get_str(entries, "slug") {
        Some(v) => v,
        None => {
            return Err(Error::decode("mod.slug"));
        },
    };
    let links = match obj_get(entries, "links") {
        Some(lj) => match decode_mod_links(lj) {
            Ok(v) => v,
            Err(e) => {
                return Err(e);
            },
        },
        None => {
            return Err(Error::decode("mod.links"));
        },
    };
    let summary = match get_str(entries, "summary") {
        Some(v) => v,
        None => {
            return Err(Error::decode("mod.summary"));
        },
    };
    let status = match get_u64(entries, "status") {
        Some(n) => match mod_status_from(n) {
            Some(s) => s,
            None => {
                return Err(Error::decode("mod.status: unknown code"));
            },
        },
        None => {
            return Err(Error::decode("mod.status"));
        },
    };
    let download_count = match get_u64(entries, "downloadCount") {
        Some(v) => v,
        None => {
            return Err(Error::decode("mod.downloadCount"));
        },
    };
    let is_featured = match get_bool(entries, "isFeatured") {
        Some(v) => v,
        None => {
            return Err(Error::decode("mod.isFeatured"));
        },
    };
    let primary_category_id = match get_u64(entries, "primaryCategoryId") {
        Some(v) => v,
        None => {
            return Err(Error::decode("mod.primaryCategoryId"));
        },
    };
    let categories = match get_arr(entries, "categories") {
        Some(arr) => match decode_category_list(arr) {
            Ok(v) => v,
            Err(e) => {
                return Err(e);
            },
        },
        None => {
            return Err(Error::decode("mod.categories"));
        },
    };
    let class_id = match get_opt_u64(entries, "classId") {
        Some(v) => v,
        None => {
            return Err(Error::decode("mod.classId"));
        },
    };
    let authors = match get_arr(entries, "authors") {
        Some(arr) => match decode_mod_author_list(arr) {
            Ok(v) => v,
            Err(e) => {
                return Err(e);
            },
        },
        None => {
            return Err(Error::decode("mod.authors"));
        },
    };
    let logo = match obj_get(entries, "logo") {
        None => None,
        Some(Json::Null) => None,
        Some(aj) => match decode_mod_asset(aj) {
            Ok(a) => Some(a),
            Err(e) => {
                return Err(e);
            },
        },
    };
    let screenshots = match get_arr(entries, "screenshots") {
        Some(arr) => match decode_mod_asset_list(arr) {
            Ok(v) => v,
            Err(e) => {
                return Err(e);
            },
        },
        None => {
            return Err(Error::decode("mod.screenshots"));
        },
    };
    let main_file_id = match get_u64(entries, "mainFileId") {
        Some(v) => v,
        None => {
            return Err(Error::decode("mod.mainFileId"));
        },
    };
    let latest_files = match get_arr(entries, "latestFiles") {
        Some(arr) => match decode_file_list(arr) {
            Ok(v) => v,
            Err(e) => {
                return Err(e);
            },
        },
        None => {
            return Err(Error::decode("mod.latestFiles"));
        },
    };
    let latest_files_indexes = match get_arr(entries, "latestFilesIndexes") {
        Some(arr) => match decode_file_index_list(arr) {
            Ok(v) => v,
            Err(e) => {
                return Err(e);
            },
        },
        None => {
            return Err(Error::decode("mod.latestFilesIndexes"));
        },
    };
    let date_created = match get_date_strict(entries, "dateCreated") {
        Ok(v) => v,
        Err(e) => {
            return Err(e);
        },
    };
    let date_modified = match get_date_strict(entries, "dateModified") {
        Ok(v) => v,
        Err(e) => {
            return Err(e);
        },
    };
    let date_released = match get_date_strict(entries, "dateReleased") {
        Ok(v) => v,
        Err(e) => {
            return Err(e);
        },
    };
    let allow_mod_distribution = match get_opt_bool(entries, "allowModDistribution") {
        Some(v) => v,
        None => {
            return Err(Error::decode("mod.allowModDistribution"));
        },
    };
    let game_popularity_rank = match get_u64(entries, "gamePopularityRank") {
        Some(v) => v,
        None => {
            return Err(Error::decode("mod.gamePopularityRank"));
        },
    };
    let is_available = match get_bool(entries, "isAvailable") {
        Some(v) => v,
        None => {
            return Err(Error::decode("mod.isAvailable"));
        },
    };
    let thumbs_up_count = match get_opt_u64(entries, "thumbsUpCount") {
        Some(v) => v,
        None => {
            return Err(Error::decode("mod.thumbsUpCount"));
        },
    };
    Ok(
        Mod {
            id,
            game_id,
            name,
            slug,
            links,
            summary,
            status,
            download_count,
            is_featured,
            primary_category_id,
            categories,
            class_id,
            authors,
            logo,
            screenshots,
            main_file_id,
            latest_files,
            latest_files_indexes,
            date_created,
            date_modified,
            date_released,
            allow_mod_distribution,
            game_popularity_rank,
            is_available,
            thumbs_up_count,
        },
    )
}

pub open spec fn mod_elem_fn() -> spec_fn(JsonV) -> Option<ModV> {
    |j: JsonV| mod_of(j)
}

pub open spec fn mod_list_of(s: Seq<JsonV>) -> Option<Seq<ModV>> {
    map_opt(s, mod_elem_fn())
}

/// Decodes an array of mods.
pub fn decode_mod_list(v: &Vec<Json>) -> (r: Result<Vec<Mod>, Error>)
    ensures
        match r {
            Ok(ms) => mod_list_of(seq_jv(v@)) == Some(ms.deep_view()),
            Err(e) => mod_list_of(seq_jv(v@)) is None && e matches Error::DecodeError { .. },
        },
{
    let mut out: Vec<Mod> = Vec::new();
    let mut i: usize = 0;
    while i < v.len()
        invariant
            0 <= i <= v.len(),
            map_opt(seq_jv(v@).take(i as int), mod_elem_fn()) == Some(out.deep_view()),
        decreases v.len() - i,
    {
        let ghost prefix = seq_jv(v@).take(i as int);
        let ghost x = seq_jv(v@)[i as int];
        proof {
            assert(x == v@[i as int].jv());
        }
        let elem = match decode_mod(&v[i]) {
            Ok(c) => c,
            Err(e) => {
                proof {
                    lemma_map_opt_all(seq_jv(v@), mod_elem_fn(), i as int);
                }
                return Err(e);
            },
        };
        proof {
            assert(mod_elem_fn()(x) == Some(elem@));
        }
        out.push(elem);
        proof {
            lemma_map_opt_push(prefix, mod_elem_fn(), x);
            assert(prefix.push(x) =~= seq_jv(v@).take(i as int + 1));
            assert(out.deep_view() =~= (map_opt(prefix, mod_elem_fn())->0).push(
                out[out.len() - 1]@,
            ));
        }
        i += 1;
    }
    proof {
        assert(seq_jv(v@).take(v.len() as int) =~= seq_jv(v@));
    }
    Ok(out)
}

} // verus!
