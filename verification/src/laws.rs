//! The closed-schema discipline, stated as laws: for every typed entity, a
//! payload object carrying even one key outside the entity's declared key
//! set fails to decode, whatever its other entries hold.

use vstd::prelude::*;
use crate::common_structs::{
    category_keys, category_of, pagination_keys, pagination_of, sortable_game_version_keys,
    sortable_game_version_of,
};
use crate::envelope::{envelope_keys, envelope_of};
use crate::file_structs::{
    file_dependency_keys, file_dependency_of, file_hash_keys, file_hash_of, file_index_keys,
    file_index_of, file_keys, file_of,
};
use crate::json::{lemma_strict_rejects_unknown, JsonV};
use crate::mod_structs::{
    mod_asset_keys, mod_asset_of, mod_author_keys, mod_author_of, mod_keys, mod_links_keys,
    mod_links_of, mod_of,
};

verus! {

/// An envelope with an unexpected key fails to decode.
pub proof fn lemma_envelope_rejects_unknown_key(o: Seq<(Seq<char>, JsonV)>, i: int)
    requires
        0 <= i < o.len(),
        !envelope_keys().contains(o[i].0),
    ensures
        envelope_of(JsonV::Obj(o)) is None,
{
    lemma_strict_rejects_unknown(o, envelope_keys(), i);
}

/// A pagination object with an unexpected key fails to decode.
pub proof fn lemma_pagination_rejects_unknown_key(o: Seq<(Seq<char>, JsonV)>, i: int)
    requires
        0 <= i < o.len(),
        !pagination_keys().contains(o[i].0),
    ensures
        pagination_of(JsonV::Obj(o)) is None,
{
    lemma_strict_rejects_unknown(o, pagination_keys(), i);
}

/// A category with an unexpected key fails to decode.
pub proof fn lemma_category_rejects_unknown_key(o: Seq<(Seq<char>, JsonV)>, i: int)
    requires
        0 <= i < o.len(),
        !category_keys().contains(o[i].0),
    ensures
        category_of(JsonV::Obj(o)) is None,
{
    lemma_strict_rejects_unknown(o, category_keys(), i);
}

/// A sortable game version with an unexpected key fails to decode.
pub proof fn lemma_sortable_game_version_rejects_unknown_key(o: Seq<(Seq<char>, JsonV)>, i: int)
    requires
        0 <= i < o.len(),
        !sortable_game_version_keys().contains(o[i].0),
    ensures
        sortable_game_version_of(JsonV::Obj(o)) is None,
{
    lemma_strict_rejects_unknown(o, sortable_game_version_keys(), i);
}

/// A file hash with an unexpected key fails to decode.
pub proof fn lemma_file_hash_rejects_unknown_key(o: Seq<(Seq<char>, JsonV)>, i: int)
    requires
        0 <= i < o.len(),
        !file_hash_keys().contains(o[i].0),
    ensures
        file_hash_of(JsonV::Obj(o)) is None,
{
    lemma_strict_rejects_unknown(o, file_hash_keys(), i);
}

/// A file dependency with an unexpected key fails to decode.
pub proof fn lemma_file_dependency_rejects_unknown_key(o: Seq<(Seq<char>, JsonV)>, i: int)
    requires
        0 <= i < o.len(),
        !file_dependency_keys().contains(o[i].0),
    ensures
        file_dependency_of(JsonV::Obj(o)) is None,
{
    lemma_strict_rejects_unknown(o, file_dependency_keys(), i);
}

/// A file index entry with an unexpected key fails to decode.
pub proof fn lemma_file_index_rejects_unknown_key(o: Seq<(Seq<char>, JsonV)>, i: int)
    requires
        0 <= i < o.len(),
        !file_index_keys().contains(o[i].0),
    ensures
        file_index_of(JsonV::Obj(o)) is None,
{
    lemma_strict_rejects_unknown(o, file_index_keys(), i);
}

/// A file with an unexpected key fails to decode.
pub proof fn lemma_file_rejects_unknown_key(o: Seq<(Seq<char>, JsonV)>, i: int)
    requires
        0 <= i < o.len(),
        !file_keys().contains(o[i].0),
    ensures
        file_of(JsonV::Obj(o)) is None,
{
    lemma_strict_rejects_unknown(o, file_keys(), i);
}

/// A link set with an unexpected key fails to decode.
pub proof fn lemma_mod_links_rejects_unknown_key(o: Seq<(Seq<char>, JsonV)>, i: int)
    requires
        0 <= i < o.len(),
        !mod_links_keys().contains(o[i].0),
    ensures
        mod_links_of(JsonV::Obj(o)) is None,
{
    lemma_strict_rejects_unknown(o, mod_links_keys(), i);
}

/// An author with an unexpected key fails to decode.
pub proof fn lemma_mod_author_rejects_unknown_key(o: Seq<(Seq<char>, JsonV)>, i: int)
    requires
        0 <= i < o.len(),
        !mod_author_keys().contains(o[i].0),
    ensures
        mod_author_of(JsonV::Obj(o)) is None,
{
    lemma_strict_rejects_unknown(o, mod_author_keys(), i);
}

/// An asset with an unexpected key fails to decode.
pub proof fn lemma_mod_asset_rejects_unknown_key(o: Seq<(Seq<char>, JsonV)>, i: int)
    requires
        0 <= i < o.len(),
        !mod_asset_keys().contains(o[i].0),
    ensures
        mod_asset_of(JsonV::Obj(o)) is None,
{
    lemma_strict_rejects_unknown(o, mod_asset_keys(), i);
}

/// A mod with an unexpected key fails to decode.
pub proof fn lemma_mod_rejects_unknown_key(o: Seq<(Seq<char>, JsonV)>, i: int)
    requires
        0 <= i < o.len(),
        !mod_keys().contains(o[i].0),
    ensures
        mod_of(JsonV::Obj(o)) is None,
{
    lemma_strict_rejects_unknown(o, mod_keys(), i);
}

} // verus!
