//! Files: the downloadable release artifacts belonging to a mod.

use vstd::prelude::*;
use crate::error::Error;
use crate::json::{
    check_strict, field_arr, field_bool, field_opt_str, field_opt_u64, field_str, field_u64,
    get_arr, get_bool, get_opt_str, get_opt_u64, get_str, get_u64, keys_v, lemma_map_opt_all,
    lemma_map_opt_push, lemma_obj_jv, map_opt, opt_str_v, seq_jv, str_list_of, strict_obj,
    decode_str_list, Json, JsonV,
};
use crate::common_structs::{
    decode_sortable_game_version_list, mod_loader_from, mod_loader_of, sortable_game_version_list_of,
    ModLoaderType, SortableGameVersion, SortableGameVersionV,
};
use crate::timestamp::{field_date_strict, get_date_strict, Timestamp};

verus! {

/// A content hash of a file.
#[derive(Debug, Clone, PartialEq)]
pub struct FileHash {
    pub value: String,
    /// The hash algorithm's wire code.
    pub algo: u64,
}

/// The mathematical view of a `FileHash`.
pub struct FileHashV {
    pub value: Seq<char>,
    pub algo: u64,
}

impl View for FileHash {
    type V = FileHashV;

    open spec fn view(&self) -> FileHashV {
        FileHashV { value: self.value@, algo: self.algo }
    }
}

impl DeepView for FileHash {
    type V = FileHashV;

    open spec fn deep_view(&self) -> FileHashV {
        self.view()
    }
}

pub open spec fn file_hash_keys() -> Seq<Seq<char>> {
    seq!["value"@, "algo"@]
}

/// The hash this document describes, if any.
pub open spec fn file_hash_of(j: JsonV) -> Option<FileHashV> {
    match j {
        JsonV::Obj(o) => {
            if strict_obj(o, file_hash_keys()) && field_str(o, "value"@) is Some && field_u64(
                o,
                "algo"@,
            ) is Some {
                Some(FileHashV { value: field_str(o, "value"@)->0, algo: field_u64(o, "algo"@)->0 })
            } else {
                None
            }
        },
        _ => None,
    }
}

/// Decodes a file hash, rejecting unknown or mistyped fields.
pub fn decode_file_hash(j: &Json) -> (r: Result<FileHash, Error>)
    ensures
        match r {
            Ok(h) => file_hash_of(j.jv()) == Some(h@),
            Err(e) => file_hash_of(j.jv()) is None && e matches Error::DecodeError { .. },
        },
{
    let entries = match j {
        Json::Obj(entries) => entries,
        _ => {
            return Err(Error::decode("fileHash: expected an object"));
        },
    };
    proof {
        lemma_obj_jv(entries@);
    }
    let allowed: Vec<&str> = vec!["value", "algo"];
    proof {
        assert(keys_v(allowed@) =~= file_hash_keys());
    }
    if !check_strict(entries, &allowed) {
        return Err(Error::decode("fileHash: unexpected or duplicate key"));
    }
    let value = match get_str(entries, "value") {
        Some(v) => v,
        None => {
            return Err(Error::decode("fileHash.value"));
        },
    };
    let algo = match get_u64(entries, "algo") {
        Some(v) => v,
        None => {
            return Err(Error::decode("fileHash.algo"));
        },
    };
    Ok(FileHash { value, algo })
}

pub open spec fn file_hash_elem_fn() -> spec_fn(JsonV) -> Option<FileHashV> {
    |j: JsonV| file_hash_of(j)
}

pub open spec fn file_hash_list_of(s: Seq<JsonV>) -> Option<Seq<FileHashV>> {
    map_opt(s, file_hash_elem_fn())
}

/// Decodes an array of file hashes.
pub fn decode_file_hash_list(v: &Vec<Json>) -> (r: Result<Vec<FileHash>, Error>)
    ensures
        match r {
            Ok(hs) => file_hash_list_of(seq_jv(v@)) == Some(hs.deep_view()),
            Err(e) => file_hash_list_of(seq_jv(v@)) is None && e matches Error::DecodeError { .. },
        },
{
    let mut out: Vec<FileHash> = Vec::new();
    let mut i: usize = 0;
    while i < v.len()
        invariant
            0 <= i <= v.len(),
            map_opt(seq_jv(v@).take(i as int), file_hash_elem_fn()) == Some(out.deep_view()),
        decreases v.len() - i,
    {
        let ghost prefix = seq_jv(v@).take(i as int);
        let ghost x = seq_jv(v@)[i as int];
        proof {
            assert(x == v@[i as int].jv());
        }
        let elem = match decode_file_hash(&v[i]) {
            Ok(c) => c,
            Err(e) => {
                proof {
                    lemma_map_opt_all(seq_jv(v@), file_hash_elem_fn(), i as int);
                }
                return Err(e);
            },
        };
        proof {
            assert(file_hash_elem_fn()(x) == Some(elem@));
        }
        out.push(elem);
        proof {
            lemma_map_opt_push(prefix, file_hash_elem_fn(), x);
            assert(prefix.push(x) =~= seq_jv(v@).take(i as int + 1));
            assert(out.deep_view() =~= (map_opt(prefix, file_hash_elem_fn())->0).push(
                out[out.len() - 1]@,
            ));
        }
        i += 1;
    }
    proof {
        assert(seq_jv(v@).take(v.len() as int) =~= seq_jv(v@));
    }
    Ok(out)
}

/// A dependency of a file on another mod.
#[derive(Debug, Clone, Copy, PartialEq, Eq, Structural)]
pub struct FileDependency {
    pub mod_id: u64,
    /// The relation's wire code.
    pub relation_type: u64,
}

impl View for FileDependency {
    type V = FileDependency;

    open spec fn view(&self) -> FileDependency {
        *self
    }
}

impl DeepView for FileDependency {
    type V = FileDependency;

    open spec fn deep_view(&self) -> FileDependency {
        *self
    }
}

pub open spec fn file_dependency_keys() -> Seq<Seq<char>> {
    seq!["modId"@, "relationType"@]
}

/// The dependency this document describes, if any.
pub open spec fn file_dependency_of(j: JsonV) -> Option<FileDependency> {
    match j {
        JsonV::Obj(o) => {
            if strict_obj(o, file_dependency_keys()) && field_u64(o, "modId"@) is Some && field_u64(
                o,
                "relationType"@,
            ) is Some {
                Some(
                    FileDependency {
                        mod_id: field_u64(o, "modId"@)->0,
                        relation_type: field_u64(o, "relationType"@)->0,
                    },
                )
            } else {
                None
            }
        },
        _ => None,
    }
}

/// Decodes a file dependency, rejecting unknown or mistyped fields.
pub fn decode_file_dependency(j: &Json) -> (r: Result<FileDependency, Error>)
    ensures
        match r {
            Ok(d) => file_dependency_of(j.jv()) == Some(d),
            Err(e) => file_dependency_of(j.jv()) is None && e matches Error::DecodeError { .. },
        },
{
    let entries = match j {
        Json::Obj(entries) => entries,
        _ => {
            return Err(Error::decode("fileDependency: expected an object"));
        },
    };
    proof {
        lemma_obj_jv(entries@);
    }
    let allowed: Vec<&str> = vec!["modId", "relationType"];
    proof {
        assert(keys_v(allowed@) =~= file_dependency_keys());
    }
    if !check_strict(entries, &allowed) {
        return Err(Error::decode("fileDependency: unexpected or duplicate key"));
    }
    let mod_id = match get_u64(entries, "modId") {
        Some(v) => v,
        None => {
            return Err(Error::decode("fileDependency.modId"));
        },
    };
    let relation_type = match get_u64(entries, "relationType") {
        Some(v) => v,
        None => {
            return Err(Error::decode("fileDependency.relationType"));
        },
    };
    Ok(FileDependency { mod_id, relation_type })
}

pub open spec fn file_dependency_elem_fn() -> spec_fn(JsonV) -> Option<FileDependency> {
    |j: JsonV| file_dependency_of(j)
}

pub open spec fn file_dependency_list_of(s: Seq<JsonV>) -> Option<Seq<FileDependency>> {
    map_opt(s, file_dependency_elem_fn())
}

/// Decodes an array of file dependencies.
pub fn decode_file_dependency_list(v: &Vec<Json>) -> (r: Result<Vec<FileDependency>, Error>)
    ensures
        match r {
            Ok(ds) => file_dependency_list_of(seq_jv(v@)) == Some(ds.deep_view()),
            Err(e) => file_dependency_list_of(seq_jv(v@)) is None && e matches Error::DecodeError {
                ..
            },
        },
{
    let mut out: Vec<FileDependency> = Vec::new();
    let mut i: usize = 0;
    while i < v.len()
        invariant
            0 <= i <= v.len(),
            map_opt(seq_jv(v@).take(i as int), file_dependency_elem_fn()) == Some(out.deep_view()),
        decreases v.len() - i,
    {
        let ghost prefix = seq_jv(v@).take(i as int);
        let ghost x = seq_jv(v@)[i as int];
        proof {
            assert(x == v@[i as int].jv());
        }
        let elem = match decode_file_dependency(&v[i]) {
            Ok(c) => c,
            Err(e) => {
                proof {
                    lemma_map_opt_all(seq_jv(v@), file_dependency_elem_fn(), i as int);
                }
                return Err(e);
            },
        };
        proof {
            assert(file_dependency_elem_fn()(x) == Some(elem));
            assert(elem.deep_view() == elem);
        }
        out.push(elem);
        proof {
            lemma_map_opt_push(prefix, file_dependency_elem_fn(), x);
            assert(prefix.push(x) =~= seq_jv(v@).take(i as int + 1));
            assert(out.deep_view() =~= (map_opt(prefix, file_dependency_elem_fn())->0).push(elem));
        }
        i += 1;
    }
    proof {
        assert(seq_jv(v@).take(v.len() as int) =~= seq_jv(v@));
    }
    Ok(out)
}

/// File-related details carried in a mod's latest-files index.
#[derive(Debug, Clone, PartialEq)]
pub struct FileIndex {
    pub game_version: String,
    pub file_id: u64,
    pub filename: String,
    /// The release type's wire code.
    pub release_type: u64,
    pub game_version_type_id: Option<u64>,
    pub mod_loader: Option<ModLoaderType>,
}

/// The mathematical view of a `FileIndex`.
pub struct FileIndexV {
    pub game_version: Seq<char>,
    pub file_id: u64,
    pub filename: Seq<char>,
    pub release_type: u64,
    pub game_version_type_id: Option<u64>,
    pub mod_loader: Option<ModLoaderType>,
}

impl View for FileIndex {
    type V = FileIndexV;

    open spec fn view(&self) -> FileIndexV {
        FileIndexV {
            game_version: self.game_version@,
            file_id: self.file_id,
            filename: self.filename@,
            release_type: self.release_type,
            game_version_type_id: self.game_version_type_id,
            mod_loader: self.mod_loader,
        }
    }
}

impl DeepView for FileIndex {
    type V = FileIndexV;

    open spec fn deep_view(&self) -> FileIndexV {
        self.view()
    }
}

pub open spec fn file_index_keys() -> Seq<Seq<char>> {
    seq![
        "gameVersion"@,
        "fileId"@,
        "filename"@,
        "releaseType"@,
        "gameVersionTypeId"@,
        "modLoader"@,
    ]
}

/// An optional mod-loader field: absent or null reads as `None`, a known wire
/// code as `Some`, and anything else is a schema violation.
pub open spec fn field_opt_loader(o: Seq<(Seq<char>, JsonV)>, k: Seq<char>) -> Option<
    Option<ModLoaderType>,
> {
    match field_opt_u64(o, k) {
        Some(None) => Some(None),
        Some(Some(n)) => match mod_loader_of(n) {
            Some(t) => Some(Some(t)),
            None => None,
        },
        None => None,
    }
}

/// Reads an optional mod-loader field.
pub fn get_opt_loader(entries: &Vec<(String, Json)>, key: &str) -> (r: Option<
    Option<ModLoaderType>,
>)
    ensures
        r == field_opt_loader(crate::json::obj_jv(entries@), key@),
{
    match get_opt_u64(entries, key) {
        Some(None) => Some(None),
        Some(Some(n)) => match mod_loader_from(n) {
            Some(t) => Some(Some(t)),
            None => None,
        },
        None => None,
    }
}

/// The file index entry this document describes, if any.
pub open spec fn file_index_of(j: JsonV) -> Option<FileIndexV> {
    match j {
        JsonV::Obj(o) => {
            if strict_obj(o, file_index_keys()) && field_str(o, "gameVersion"@) is Some
                && field_u64(o, "fileId"@) is Some && field_str(o, "filename"@) is Some
                && field_u64(o, "releaseType"@) is Some && field_opt_u64(
                o,
                "gameVersionTypeId"@,
            ) is Some && field_opt_loader(o, "modLoader"@) is Some {
                Some(
                    FileIndexV {
                        game_version: field_str(o, "gameVersion"@)->0,
                        file_id: field_u64(o, "fileId"@)->0,
                        filename: field_str(o, "filename"@)->0,
                        release_type: field_u64(o, "releaseType"@)->0,
                        game_version_type_id: field_opt_u64(o, "gameVersionTypeId"@)->0,
                        mod_loader: field_opt_loader(o, "modLoader"@)->0,
                    },
                )
            } else {
                None
            }
        },
        _ => None,
    }
}

/// Decodes a file index entry, rejecting unknown or mistyped fields.
pub fn decode_file_index(j: &Json) -> (r: Result<FileIndex, Error>)
    ensures
        match r {
            Ok(fi) => file_index_of(j.jv()) == Some(fi@),
            Err(e) => file_index_of(j.jv()) is None && e matches Error::DecodeError { .. },
        },
{
    let entries = match j {
        Json::Obj(entries) => entries,
        _ => {
            return Err(Error::decode("fileIndex: expected an object"));
        },
    };
    proof {
        lemma_obj_jv(entries@);
    }
    let allowed: Vec<&str> = vec![
        "gameVersion",
        "fileId",
        "filename",
        "releaseType",
        "gameVersionTypeId",
        "modLoader",
    ];
    proof {
        assert(keys_v(allowed@) =~= file_index_keys());
    }
    if !check_strict(entries, &allowed) {
        return Err(Error::decode("fileIndex: unexpected or duplicate key"));
    }
    let game_version = match get_str(entries, "gameVersion") {
        Some(v) => v,
        None => {
            return Err(Error::decode("fileIndex.gameVersion"));
        },
    };
    let file_id = match get_u64(entries, "fileId") {
        Some(v) => v,
        None => {
            return Err(Error::decode("fileIndex.fileId"));
        },
    };
    let filename = match get_str(entries, "filename") {
        Some(v) => v,
        None => {
            return Err(Error::decode("fileIndex.filename"));
        },
    };
    let release_type = match get_u64(entries, "releaseType") {
        Some(v) => v,
        None => {
            return Err(Error::decode("fileIndex.releaseType"));
        },
    };
    let game_version_type_id = match get_opt_u64(entries, "gameVersionTypeId") {
        Some(v) => v,
        None => {
            return Err(Error::decode("fileIndex.gameVersionTypeId"));
        },
    };
    let mod_loader = match get_opt_loader(entries, "modLoader") {
        Some(v) => v,
        None => {
            return Err(Error::decode("fileIndex.modLoader"));
        },
    };
    Ok(
        FileIndex {
            game_version,
            file_id,
            filename,
            release_type,
            game_version_type_id,
            mod_loader,
        },
    )
}

pub open spec fn file_index_elem_fn() -> spec_fn(JsonV) -> Option<FileIndexV> {
    |j: JsonV| file_index_of(j)
}

pub open spec fn file_index_list_of(s: Seq<JsonV>) -> Option<Seq<FileIndexV>> {
    map_opt(s, file_index_elem_fn())
}

/// Decodes an array of file index entries.
pub fn decode_file_index_list(v: &Vec<Json>) -> (r: Result<Vec<FileIndex>, Error>)
    ensures
        match r {
            Ok(fis) => file_index_list_of(seq_jv(v@)) == Some(fis.deep_view()),
            Err(e) => file_index_list_of(seq_jv(v@)) is None && e matches Error::DecodeError { .. },
        },
{
    let mut out: Vec<FileIndex> = Vec::new();
    let mut i: usize = 0;
    while i < v.len()
        invariant
            0 <= i <= v.len(),
            map_opt(seq_jv(v@).take(i as int), file_index_elem_fn()) == Some(out.deep_view()),
        decreases v.len() - i,
    {
        let ghost prefix = seq_jv(v@).take(i as int);
        let ghost x = seq_jv(v@)[i as int];
        proof {
            assert(x == v@[i as int].jv());
        }
        let elem = match decode_file_index(&v[i]) {
            Ok(c) => c,
            Err(e) => {
                proof {
                    lemma_map_opt_all(seq_jv(v@), file_index_elem_fn(), i as int);
                }
                return Err(e);
            },
        };
        proof {
            assert(file_index_elem_fn()(x) == Some(elem@));
        }
        out.push(elem);
        proof {
            lemma_map_opt_push(prefix, file_index_elem_fn(), x);
            assert(prefix.push(x) =~= seq_jv(v@).take(i as int + 1));
            assert(out.deep_view() =~= (map_opt(prefix, file_index_elem_fn())->0).push(
                out[out.len() - 1]@,
            ));
        }
        i += 1;
    }
    proof {
        assert(seq_jv(v@).take(v.len() as int) =~= seq_jv(v@));
    }
    Ok(out)
}

/// A downloadable release artifact belonging to a mod.
#[derive(Debug, Clone, PartialEq)]
pub struct File {
    pub id: u64,
    /// The mod this file belongs to.
    pub mod_id: u64,
    pub display_name: String,
    pub file_name: String,
    /// The release type's wire code.
    pub release_type: u64,
    /// Content hashes of the artifact.
    pub hashes: Vec<FileHash>,
    pub file_date: Timestamp,
    /// Size in bytes.
    pub file_length: u64,
    /// Download location; absent where the file is not publicly downloadable.
    pub download_url: Option<String>,
    pub is_available: bool,
    pub game_versions: Vec<String>,
    pub sortable_game_versions: Vec<SortableGameVersion>,
    pub dependencies: Vec<FileDependency>,
    /// The service's content fingerprint for the artifact.
    pub file_fingerprint: u64,
}

/// The mathematical view of a `File`.
pub struct FileV {
    pub id: u64,
    pub mod_id: u64,
    pub display_name: Seq<char>,
    pub file_name: Seq<char>,
    pub release_type: u64,
    pub hashes: Seq<FileHashV>,
    pub file_date: Timestamp,
    pub file_length: u64,
    pub download_url: Option<Seq<char>>,
    pub is_available: bool,
    pub game_versions: Seq<Seq<char>>,
    pub sortable_game_versions: Seq<SortableGameVersionV>,
    pub dependencies: Seq<FileDependency>,
    pub file_fingerprint: u64,
}

impl View for File {
    type V = FileV;

    open spec fn view(&self) -> FileV {
        FileV {
            id: self.id,
            mod_id: self.mod_id,
            display_name: self.display_name@,
            file_name: self.file_name@,
            release_type: self.release_type,
            hashes: self.hashes.deep_view(),
            file_date: self.file_date,
            file_length: self.file_length,
            download_url: opt_str_v(self.download_url),
            is_available: self.is_available,
            game_versions: self.game_versions.deep_view(),
            sortable_game_versions: self.sortable_game_versions.deep_view(),
            dependencies: self.dependencies.deep_view(),
            file_fingerprint: self.file_fingerprint,
        }
    }
}

impl DeepView for File {
    type V = FileV;

    open spec fn deep_view(&self) -> FileV {
        self.view()
    }
}

pub open spec fn file_keys() -> Seq<Seq<char>> {
    seq![
        "id"@,
        "modId"@,
        "displayName"@,
        "fileName"@,
        "releaseType"@,
        "hashes"@,
        "fileDate"@,
        "fileLength"@,
        "downloadUrl"@,
        "isAvailable"@,
        "gameVersions"@,
        "sortableGameVersions"@,
        "dependencies"@,
        "fileFingerprint"@,
    ]
}

/// The file this document describes, under the closed-schema discipline, if
/// any.
pub open spec fn file_of(j: JsonV) -> Option<FileV> {
    match j {
        JsonV::Obj(o) => {
            if strict_obj(o, file_keys()) && field_u64(o, "id"@) is Some && field_u64(
                o,
                "modId"@,
            ) is Some && field_str(o, "displayName"@) is Some && field_str(o, "fileName"@) is Some
                && field_u64(o, "releaseType"@) is Some && field_arr(o, "hashes"@) is Some
                && file_hash_list_of(field_arr(o, "hashes"@)->0) is Some && field_date_strict(
                o,
                "fileDate"@,
            ) is Some && field_u64(o, "fileLength"@) is Some && field_opt_str(
                o,
                "downloadUrl"@,
            ) is Some && field_bool(o, "isAvailable"@) is Some && field_arr(
                o,
                "gameVersions"@,
            ) is Some && str_list_of(field_arr(o, "gameVersions"@)->0) is Some && field_arr(
                o,
                "sortableGameVersions"@,
            ) is Some && sortable_game_version_list_of(
                field_arr(o, "sortableGameVersions"@)->0,
            ) is Some && field_arr(o, "dependencies"@) is Some && file_dependency_list_of(
                field_arr(o, "dependencies"@)->0,
            ) is Some && field_u64(o, "fileFingerprint"@) is Some {
                Some(
                    FileV {
                        id: field_u64(o, "id"@)->0,
                        mod_id: field_u64(o, "modId"@)->0,
                        display_name: field_str(o, "displayName"@)->0,
                        file_name: field_str(o, "fileName"@)->0,
                        release_type: field_u64(o, "releaseType"@)->0,
                        hashes: file_hash_list_of(field_arr(o, "hashes"@)->0)->0,
                        file_date: field_date_strict(o, "fileDate"@)->0,
                        file_length: field_u64(o, "fileLength"@)->0,
                        download_url: field_opt_str(o, "downloadUrl"@)->0,
                        is_available: field_bool(o, "isAvailable"@)->0,
                        game_versions: str_list_of(field_arr(o, "gameVersions"@)->0)->0,
                        sortable_game_versions: sortable_game_version_list_of(
                            field_arr(o, "sortableGameVersions"@)->0,
                        )->0,
                        dependencies: file_dependency_list_of(field_arr(o, "dependencies"@)->0)->0,
                        file_fingerprint: field_u64(o, "fileFingerprint"@)->0,
                    },
                )
            } else {
                None
            }
        },
        _ => None,
    }
}

/// Decodes a file, rejecting unknown or mistyped fields.
pub fn decode_file(j: &Json) -> (r: Result<File, Error>)
    ensures
        match r {
            Ok(f) => file_of(j.jv()) == Some(f@),
            Err(e) => file_of(j.jv()) is None && e matches Error::DecodeError { .. },
        },
{
    let entries = match j {
        Json::Obj(entries) => entries,
        _ => {
            return Err(Error::decode("file: expected an object"));
        },
    };
    proof {
        lemma_obj_jv(entries@);
    }
    let allowed: Vec<&str> = vec![
        "id",
        "modId",
        "displayName",
        "fileName",
        "releaseType",
        "hashes",
        "fileDate",
        "fileLength",
        "downloadUrl",
        "isAvailable",
        "gameVersions",
        "sortableGameVersions",
        "dependencies",
        "fileFingerprint",
    ];
    proof {
        assert(keys_v(allowed@) =~= file_keys());
    }
    if !check_strict(entries, &allowed) {
        return Err(Error::decode("file: unexpected or duplicate key"));
    }
    let id = match get_u64(entries, "id") {
        Some(v) => v,
        None => {
            return Err(Error::decode("file.id"));
        },
    };
    let mod_id = match get_u64(entries, "modId") {
        Some(v) => v,
        None => {
            return Err(Error::decode("file.modId"));
        },
    };
    let display_name = match get_str(entries, "displayName") {
        Some(v) => v,
        None => {
            return Err(Error::decode("file.displayName"));
        },
    };
    let file_name = match get_str(entries, "fileName") {
        Some(v) => v,
        None => {
            return Err(Error::decode("file.fileName"));
        },
    };
    let release_type = match get_u64(entries, "releaseType") {
        Some(v) => v,
        None => {
            return Err(Error::decode("file.releaseType"));
        },
    };
    let hashes = match get_arr(entries, "hashes") {
        Some(arr) => match decode_file_hash_list(arr) {
            Ok(v) => v,
            Err(e) => {
                return Err(e);
            },
        },
        None => {
            return Err(Error::decode("file.hashes"));
        },
    };
    let file_date = match get_date_strict(entries, "fileDate") {
        Ok(v) => v,
        Err(e) => {
            return Err(e);
        },
    };
    let file_length = match get_u64(entries, "fileLength") {
        Some(v) => v,
        None => {
            return Err(Error::decode("file.fileLength"));
        },
    };
    let download_url = match get_opt_str(entries, "downloadUrl") {
        Some(v) => v,
        None => {
            return Err(Error::decode("file.downloadUrl"));
        },
    };
    let is_available = match get_bool(entries, "isAvailable") {
        Some(v) => v,
        None => {
            return Err(Error::decode("file.isAvailable"));
        },
    };
    let game_versions = match get_arr(entries, "gameVersions") {
        Some(arr) => match decode_str_list(arr) {
            Some(v) => v,
            None => {
                return Err(Error::decode("file.gameVersions"));
            },
        },
        None => {
            return Err(Error::decode("file.gameVersions"));
        },
    };
    let sortable_game_versions = match get_arr(entries, "sortableGameVersions") {
        Some(arr) => match decode_sortable_game_version_list(arr) {
            Ok(v) => v,
            Err(e) => {
                return Err(e);
            },
        },
        None => {
            return Err(Error::decode("file.sortableGameVersions"));
        },
    };
    let dependencies = match get_arr(entries, "dependencies") {
        Some(arr) => match decode_file_dependency_list(arr) {
            Ok(v) => v,
            Err(e) => {
                return Err(e);
            },
        },
        None => {
            return Err(Error::decode("file.dependencies"));
        },
    };
    let file_fingerprint = match get_u64(entries, "fileFingerprint") {
        Some(v) => v,
        None => {
            return Err(Error::decode("file.fileFingerprint"));
        },
    };
    Ok(
        File {
            id,
            mod_id,
            display_name,
            file_name,
            release_type,
            hashes,
            file_date,
            file_length,
            download_url,
            is_available,
            game_versions,
            sortable_game_versions,
            dependencies,
            file_fingerprint,
        },
    )
}

pub open spec fn file_elem_fn() -> spec_fn(JsonV) -> Option<FileV> {
    |j: JsonV| file_of(j)
}

pub open spec fn file_list_of(s: Seq<JsonV>) -> Option<Seq<FileV>> {
    map_opt(s, file_elem_fn())
}

/// Decodes an array of files.
pub fn decode_file_list(v: &Vec<Json>) -> (r: Result<Vec<File>, Error>)
    ensures
        match r {
            Ok(fs) => file_list_of(seq_jv(v@)) == Some(fs.deep_view()),
            Err(e) => file_list_of(seq_jv(v@)) is None && e matches Error::DecodeError { .. },
        },
{
    let mut out: Vec<File> = Vec::new();
    let mut i: usize = 0;
    while i < v.len()
        invariant
            0 <= i <= v.len(),
            map_opt(seq_jv(v@).take(i as int), file_elem_fn()) == Some(out.deep_view()),
        decreases v.len() - i,
    {
        let ghost prefix = seq_jv(v@).take(i as int);
        let ghost x = seq_jv(v@)[i as int];
        proof {
            assert(x == v@[i as int].jv());
        }
        let elem = match decode_file(&v[i]) {
            Ok(c) => c,
            Err(e) => {
                proof {
                    lemma_map_opt_all(seq_jv(v@), file_elem_fn(), i as int);
                }
                return Err(e);
            },
        };
        proof {
            assert(file_elem_fn()(x) == Some(elem@));
        }
        out.push(elem);
        proof {
            lemma_map_opt_push(prefix, file_elem_fn(), x);
            assert(prefix.push(x) =~= seq_jv(v@).take(i as int + 1));
            assert(out.deep_view() =~= (map_opt(prefix, file_elem_fn())->0).push(
                out[out.len() - 1]@,
            ));
        }
        i += 1;
    }
    proof {
        assert(seq_jv(v@).take(v.len() as int) =~= seq_jv(v@));
    }
    Ok(out)
}

} // verus!
