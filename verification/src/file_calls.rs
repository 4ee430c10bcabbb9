//! The file endpoints: request builders, response interpreters, and the
//! order-preserving batch fetch.

use vstd::prelude::*;
use vstd::multiset::Multiset;
use vstd::string::StringExecFns;
use crate::envelope::{body_payload, decode_body};
use crate::error::Error;
use crate::file_structs::{decode_file, decode_file_list, file_list_of, file_of, File, FileV};
use crate::json::{seq_jv, str_of, Json, JsonV};
use crate::request::{is_ok_status, ok_status, ApiRequest, Furse, API_URL_BASE};
use crate::strings::{dec_spec, push_u64_dec};

verus! {

/// The URL of the listing of a mod's files, requesting a maximal page.
pub open spec fn mod_files_url(mod_id: u64) -> Seq<char> {
    API_URL_BASE@ + "mods/"@ + dec_spec(mod_id as int) + "/files?pageSize=10000"@
}

/// The URL of one file of a mod.
pub open spec fn mod_file_url(mod_id: u64, file_id: u64) -> Seq<char> {
    API_URL_BASE@ + "mods/"@ + dec_spec(mod_id as int) + "/files/"@ + dec_spec(file_id as int)
}

/// The URL of a file's changelog.
pub open spec fn mod_file_changelog_url(mod_id: u64, file_id: u64) -> Seq<char> {
    mod_file_url(mod_id, file_id) + "/changelog"@
}

/// The URL of a file's download URL lookup.
pub open spec fn file_download_url_url(mod_id: u64, file_id: u64) -> Seq<char> {
    mod_file_url(mod_id, file_id) + "/download-url"@
}

/// The URL of the batch file endpoint.
pub open spec fn files_url() -> Seq<char> {
    API_URL_BASE@ + "mods/files"@
}

/// The document views of a list of IDs.
pub open spec fn ids_jv(ids: Seq<u64>) -> Seq<JsonV> {
    Seq::new(ids.len(), |i: int| JsonV::Int(ids[i]))
}

/// The POST body of the batch file endpoint.
pub open spec fn file_ids_body_jv(ids: Seq<u64>) -> JsonV {
    JsonV::Obj(seq![("fileIds"@, JsonV::Arr(ids_jv(ids)))])
}

/// Builds a JSON array of integer IDs.
pub fn encode_ids(ids: &Vec<u64>) -> (r: Vec<Json>)
    ensures
        seq_jv(r@) == ids_jv(ids@),
{
    let mut out: Vec<Json> = Vec::new();
    let mut i: usize = 0;
    while i < ids.len()
        invariant
            0 <= i <= ids.len(),
            out@.len() == i,
            forall|k: int| 0 <= k < i ==> out@[k] == Json::Int(ids@[k]),
        decreases ids.len() - i,
    {
        out.push(Json::Int(ids[i]));
        i += 1;
    }
    proof {
        assert(seq_jv(out@) =~= ids_jv(ids@));
    }
    out
}

/// The payload of a single-file response body.
pub open spec fn mod_file_payload(body: Seq<char>) -> Option<FileV> {
    match body_payload(body) {
        Some(dp) => file_of(dp.0),
        None => None,
    }
}

/// The payload of a file-list response body.
pub open spec fn file_list_payload(body: Seq<char>) -> Option<Seq<FileV>> {
    match body_payload(body) {
        Some(dp) => match dp.0 {
            JsonV::Arr(a) => file_list_of(a),
            _ => None,
        },
        None => None,
    }
}

/// The payload of a string-valued response body (changelog, download URL).
pub open spec fn string_payload(body: Seq<char>) -> Option<Seq<char>> {
    match body_payload(body) {
        Some(dp) => str_of(dp.0),
        None => None,
    }
}

/// Extracts a string payload document.
pub fn decode_string_data(data: Json) -> (r: Result<String, Error>)
    ensures
        match r {
            Ok(s) => str_of(data.jv()) == Some(s@),
            Err(e) => str_of(data.jv()) is None && e matches Error::DecodeError { .. },
        },
{
    match data {
        Json::Str(s) => Ok(s),
        _ => Err(Error::decode("expected a string payload")),
    }
}

/// Extracts a file-list payload document.
pub fn decode_file_list_data(data: &Json) -> (r: Result<Vec<File>, Error>)
    ensures
        match r {
            Ok(fs) => (match data.jv() {
                JsonV::Arr(a) => file_list_of(a),
                _ => None,
            }) == Some(fs.deep_view()),
            Err(e) => (match data.jv() {
                JsonV::Arr(a) => file_list_of(a),
                _ => None,
            }) is None && e matches Error::DecodeError { .. },
        },
{
    match data {
        Json::Arr(v) => {
            proof {
                crate::json::lemma_arr_jv(v@);
            }
            decode_file_list(v)
        },
        _ => Err(Error::decode("expected an array payload")),
    }
}

/// The first index in the pool holding the requested ID, if any.
pub open spec fn first_match(pool: Seq<FileV>, id: u64) -> Option<int>
    decreases pool.len(),
{
    if pool.len() == 0 {
        None
    } else if pool[0].id == id {
        Some(0)
    } else {
        match first_match(pool.drop_first(), id) {
            Some(k) => Some(k + 1),
            None => None,
        }
    }
}

/// The pool after removing index `i` by swapping in the last element.
pub open spec fn swap_removed(pool: Seq<FileV>, i: int) -> Seq<FileV> {
    pool.update(i, pool.last()).drop_last()
}

/// The order-preserving batch projection: for each requested ID in order,
/// the first not-yet-consumed entity with that ID, if one remains; requested
/// IDs with no remaining match contribute nothing.
pub open spec fn reorder_spec(ids: Seq<u64>, pool: Seq<FileV>) -> Seq<FileV>
    decreases ids.len(),
{
    if ids.len() == 0 {
        Seq::empty()
    } else {
        match first_match(pool, ids[0]) {
            Some(i) => seq![pool[i]] + reorder_spec(ids.drop_first(), swap_removed(pool, i)),
            None => reorder_spec(ids.drop_first(), pool),
        }
    }
}

/// A found index is in bounds and holds the requested ID.
pub proof fn lemma_first_match_bounds(pool: Seq<FileV>, id: u64)
    ensures
        match first_match(pool, id) {
            Some(k) => 0 <= k < pool.len() && pool[k].id == id,
            None => forall|j: int| 0 <= j < pool.len() ==> pool[j].id != id,
        },
    decreases pool.len(),
{
    if pool.len() > 0 && pool[0].id != id {
        lemma_first_match_bounds(pool.drop_first(), id);
        if first_match(pool.drop_first(), id) is None {
            assert forall|j: int| 0 <= j < pool.len() implies pool[j].id != id by {
                if j > 0 {
                    assert(pool.drop_first()[j - 1] == pool[j]);
                }
            }
        } else {
            let k = first_match(pool.drop_first(), id)->0;
            assert(pool.drop_first()[k] == pool[k + 1]);
        }
    }
}

/// Whether some pool entry bears the given ID.
pub open spec fn has_match(pool: Seq<FileV>, id: u64) -> bool {
    exists|k: int| 0 <= k < pool.len() && #[trigger] pool[k].id == id
}

/// Where the requested IDs are pairwise distinct and each has a matching
/// entity in the pool, the batch projection yields exactly one entity per
/// requested ID, in the requested order.
pub proof fn lemma_reorder_matches_request_order(ids: Seq<u64>, pool: Seq<FileV>)
    requires
        forall|i: int, j: int| 0 <= i < j < ids.len() ==> ids[i] != ids[j],
        forall|i: int| 0 <= i < ids.len() ==> has_match(pool, #[trigger] ids[i]),
    ensures
        reorder_spec(ids, pool).len() == ids.len(),
        forall|i: int| 0 <= i < ids.len() ==> #[trigger] reorder_spec(ids, pool)[i].id == ids[i],
    decreases ids.len(),
{
    if ids.len() > 0 {
        lemma_first_match_bounds(pool, ids[0]);
        assert(has_match(pool, ids[0]));
        if first_match(pool, ids[0]) is None {
            let k = choose|k: int| 0 <= k < pool.len() && #[trigger] pool[k].id == ids[0];
            assert(pool[k].id != ids[0]);
        }
        let k = first_match(pool, ids[0])->0;
        let pool2 = swap_removed(pool, k);
        let ids2 = ids.drop_first();
        assert forall|i: int, j: int| 0 <= i < j < ids2.len() implies ids2[i] != ids2[j] by {
            assert(ids2[i] == ids[i + 1] && ids2[j] == ids[j + 1]);
        }
        assert forall|i: int| 0 <= i < ids2.len() implies has_match(pool2, #[trigger] ids2[i]) by {
            assert(ids2[i] == ids[i + 1]);
            assert(has_match(pool, ids[i + 1]));
            let m = choose|m: int| 0 <= m < pool.len() && #[trigger] pool[m].id == ids[i + 1];
            assert(pool[k].id == ids[0]);
            assert(ids[0] != ids[i + 1]);
            assert(m != k);
            if m == pool.len() - 1 {
                assert(pool2[k] == pool.last());
                assert(pool2[k].id == ids2[i]);
            } else {
                assert(pool2[m] == pool[m]);
                assert(pool2[m].id == ids2[i]);
            }
        }
        lemma_reorder_matches_request_order(ids2, pool2);
        assert(reorder_spec(ids, pool) == seq![pool[k]] + reorder_spec(ids2, pool2));
        assert forall|i: int|
            0 <= i < ids.len() implies #[trigger] reorder_spec(ids, pool)[i].id == ids[i] by {
            if i == 0 {
                assert(reorder_spec(ids, pool)[0] == pool[k]);
            } else {
                assert(reorder_spec(ids, pool)[i] == reorder_spec(ids2, pool2)[i - 1]);
                assert(ids2[i - 1] == ids[i]);
            }
        }
    }
}

proof fn lemma_swap_removed_multiset(pool: Seq<FileV>, k: int)
    requires
        0 <= k < pool.len(),
    ensures
        swap_removed(pool, k).to_multiset() == pool.to_multiset().remove(pool[k]),
{
    broadcast use vstd::seq_lib::group_to_multiset_ensures;

    vstd::seq_lib::to_multiset_remove(pool, k);
    if k == pool.len() - 1 {
        assert(pool.update(k, pool.last()) =~= pool);
        assert(swap_removed(pool, k) =~= pool.remove(k));
        assert(swap_removed(pool, k).to_multiset() =~= pool.to_multiset().remove(pool[k]));
    } else {
        let a = pool.subrange(0, k);
        let b = pool.subrange(k + 1, pool.len() - 1);
        let mid = seq![pool.last()];
        assert(swap_removed(pool, k) =~= a + mid + b);
        assert(pool.remove(k) =~= a + (b + mid));
        vstd::seq_lib::lemma_multiset_commutative(a + mid, b);
        vstd::seq_lib::lemma_multiset_commutative(a, mid);
        vstd::seq_lib::lemma_multiset_commutative(a, b + mid);
        vstd::seq_lib::lemma_multiset_commutative(b, mid);
        assert((a + mid + b).to_multiset() =~= (a + (b + mid)).to_multiset());
        assert(swap_removed(pool, k).to_multiset() =~= pool.to_multiset().remove(pool[k]));
    }
}

/// The batch projection never invents entities: no entity appears in the
/// result more often than the response pool holds it, so duplicate requested
/// IDs can only consume distinct pool entries.
pub proof fn lemma_reorder_draws_from_pool(ids: Seq<u64>, pool: Seq<FileV>)
    ensures
        forall|x: FileV| #[trigger] reorder_spec(ids, pool).to_multiset().count(x)
            <= pool.to_multiset().count(x),
    decreases ids.len(),
{
    broadcast use vstd::seq_lib::group_to_multiset_ensures;

    if ids.len() == 0 {
        assert forall|x: FileV| #[trigger] reorder_spec(ids, pool).to_multiset().count(x)
            <= pool.to_multiset().count(x) by {
            assert(reorder_spec(ids, pool) == Seq::<FileV>::empty());
            assert(!reorder_spec(ids, pool).contains(x));
        }
    } else {
        match first_match(pool, ids[0]) {
            Some(k) => {
                lemma_first_match_bounds(pool, ids[0]);
                let rest = reorder_spec(ids.drop_first(), swap_removed(pool, k));
                lemma_reorder_draws_from_pool(ids.drop_first(), swap_removed(pool, k));
                lemma_swap_removed_multiset(pool, k);
                vstd::seq_lib::lemma_multiset_commutative(seq![pool[k]], rest);
                assert(pool.contains(pool[k]));
                assert(pool.to_multiset().count(pool[k]) > 0);
                assert forall|x: FileV| #[trigger] reorder_spec(ids, pool).to_multiset().count(x)
                    <= pool.to_multiset().count(x) by {
                    assert(reorder_spec(ids, pool) == seq![pool[k]] + rest);
                    assert(reorder_spec(ids, pool).to_multiset().count(x) == seq![
                        pool[k],
                    ].to_multiset().count(x) + rest.to_multiset().count(x));
                    assert(rest.to_multiset().count(x) <= pool.to_multiset().remove(
                        pool[k],
                    ).count(x));
                    assert(seq![pool[k]].to_multiset() =~= Multiset::<FileV>::empty().insert(
                        pool[k],
                    ));
                }
            },
            None => {
                lemma_reorder_draws_from_pool(ids.drop_first(), pool);
                assert(reorder_spec(ids, pool) == reorder_spec(ids.drop_first(), pool));
            },
        }
    }
}

/// Every entity in the batch projection answers one of the requested IDs;
/// nothing else (and no placeholder) ever appears.
pub proof fn lemma_reorder_ids_are_requested(ids: Seq<u64>, pool: Seq<FileV>)
    ensures
        forall|i: int|
            0 <= i < reorder_spec(ids, pool).len() ==> ids.contains(
                #[trigger] reorder_spec(ids, pool)[i].id,
            ),
    decreases ids.len(),
{
    if ids.len() > 0 {
        let r = reorder_spec(ids, pool);
        match first_match(pool, ids[0]) {
            Some(k) => {
                lemma_first_match_bounds(pool, ids[0]);
                let rest = reorder_spec(ids.drop_first(), swap_removed(pool, k));
                lemma_reorder_ids_are_requested(ids.drop_first(), swap_removed(pool, k));
                assert forall|i: int| 0 <= i < r.len() implies ids.contains(
                    #[trigger] r[i].id,
                ) by {
                    if i == 0 {
                        assert(r[0] == pool[k]);
                        assert(ids[0] == r[0].id);
                    } else {
                        assert(r[i] == rest[i - 1]);
                        let w = choose|w: int|
                            0 <= w < ids.drop_first().len() && ids.drop_first()[w] == rest[i
                                - 1].id;
                        assert(ids[w + 1] == r[i].id);
                    }
                }
            },
            None => {
                lemma_reorder_ids_are_requested(ids.drop_first(), pool);
                assert forall|i: int| 0 <= i < r.len() implies ids.contains(
                    #[trigger] r[i].id,
                ) by {
                    let w = choose|w: int|
                        0 <= w < ids.drop_first().len() && ids.drop_first()[w] == r[i].id;
                    assert(ids[w + 1] == r[i].id);
                }
            },
        }
    }
}

proof fn lemma_first_match_skip(pool: Seq<FileV>, id: u64, i: int)
    requires
        0 <= i <= pool.len(),
        forall|j: int| 0 <= j < i ==> pool[j].id != id,
    ensures
        first_match(pool, id) == (match first_match(pool.skip(i), id) {
            Some(k) => Some(k + i),
            None => None::<int>,
        }),
    decreases i,
{
    if i > 0 {
        assert(pool.skip(1) =~= pool.drop_first());
        lemma_first_match_skip(pool.drop_first(), id, i - 1);
        assert(pool.drop_first().skip(i - 1) =~= pool.skip(i));
    } else {
        assert(pool.skip(0) =~= pool);
    }
}

/// Finds the first pool entry with the requested ID.
fn find_file(pool: &Vec<File>, id: u64) -> (r: Option<usize>)
    ensures
        match r {
            Some(k) => first_match(pool.deep_view(), id) == Some(k as int),
            None => first_match(pool.deep_view(), id) is None,
        },
{
    let ghost pv = pool.deep_view();
    let mut i: usize = 0;
    while i < pool.len()
        invariant
            0 <= i <= pool.len(),
            pv == pool.deep_view(),
            pv.len() == pool.len(),
            forall|j: int| 0 <= j < i ==> pv[j].id != id,
        decreases pool.len() - i,
    {
        if pool[i].id == id {
            proof {
                assert(pv[i as int].id == id);
                lemma_first_match_skip(pv, id, i as int);
                assert(pv.skip(i as int)[0] == pv[i as int]);
            }
            return Some(i);
        }
        i += 1;
    }
    proof {
        lemma_first_match_skip(pv, id, pool.len() as int);
        assert(pv.skip(pool.len() as int) =~= Seq::<FileV>::empty());
    }
    None
}

/// Projects an unordered response pool onto the caller's requested ID order.
/// Each requested ID consumes at most one matching entity; IDs the server
/// did not answer contribute nothing.
#[verifier::loop_isolation(false)]
pub fn reorder_files(file_ids: &Vec<u64>, files: Vec<File>) -> (r: Vec<File>)
    ensures
        r.deep_view() == reorder_spec(file_ids@, files.deep_view()),
{
    let ghost whole = files.deep_view();
    let mut pool = files;
    let mut out: Vec<File> = Vec::new();
    let mut i: usize = 0;
    proof {
        assert(file_ids@.skip(0) =~= file_ids@);
        assert(Seq::<FileV>::empty() + reorder_spec(file_ids@, whole) =~= reorder_spec(
            file_ids@,
            whole,
        ));
    }
    while i < file_ids.len()
        invariant
            0 <= i <= file_ids.len(),
            reorder_spec(file_ids@, whole) == out.deep_view() + reorder_spec(
                file_ids@.skip(i as int),
                pool.deep_view(),
            ),
        decreases file_ids.len() - i,
    {
        let ghost rest = file_ids@.skip(i as int);
        let ghost pv = pool.deep_view();
        proof {
            assert(rest[0] == file_ids@[i as int]);
            assert(rest.drop_first() =~= file_ids@.skip(i as int + 1));
        }
        match find_file(&pool, file_ids[i]) {
            Some(k) => {
                proof {
                    lemma_first_match_bounds(pv, file_ids@[i as int]);
                }
                let ghost outv0 = out.deep_view();
                let f = pool.swap_remove(k);
                out.push(f);
                proof {
                    assert(f.deep_view() == pv[k as int]);
                    assert(pool.deep_view() =~= swap_removed(pv, k as int));
                    assert(out.deep_view() =~= outv0.push(pv[k as int]));
                    assert(reorder_spec(rest, pv) == seq![pv[k as int]] + reorder_spec(
                        rest.drop_first(),
                        swap_removed(pv, k as int),
                    ));
                    assert(outv0 + (seq![pv[k as int]] + reorder_spec(
                        rest.drop_first(),
                        swap_removed(pv, k as int),
                    )) =~= out.deep_view() + reorder_spec(
                        file_ids@.skip(i as int + 1),
                        pool.deep_view(),
                    ));
                }
            },
            None => {
                proof {
                    assert(reorder_spec(rest, pv) == reorder_spec(rest.drop_first(), pv));
                }
            },
        }
        i += 1;
    }
    proof {
        assert(file_ids@.skip(file_ids@.len() as int) =~= Seq::<u64>::empty());
        assert(out.deep_view() + Seq::<FileV>::empty() =~= out.deep_view());
    }
    out
}

impl Furse {
    /// Describes the request for the files of the mod `mod_id`.
    pub fn get_mod_files_request(&self, mod_id: u64) -> (r: ApiRequest)
        ensures
            r.url@ == mod_files_url(mod_id),
            r.api_key@ == self.api_key@,
            r.body is None,
    {
        let mut url = String::from_str(API_URL_BASE);
        url.append("mods/");
        push_u64_dec(&mut url, mod_id);
        url.append("/files?pageSize=10000");
        ApiRequest { url, api_key: self.api_key.clone(), body: None }
    }

    /// Interprets the response to a mod-files request: the files as listed.
    pub fn get_mod_files(&self, status: u16, body: &str) -> (r: Result<Vec<File>, Error>)
        ensures
            !ok_status(status) ==> (r matches Err(Error::RequestError { status: s, body: b })
                && s == status && b@ == body@),
            ok_status(status) ==> match file_list_payload(body@) {
                Some(fs) => (r matches Ok(v) && v.deep_view() == fs),
                None => r matches Err(Error::DecodeError { .. }),
            },
    {
        if !is_ok_status(status) {
            return Err(Error::RequestError { status, body: body.to_owned() });
        }
        let dp = match decode_body(body) {
            Ok(dp) => dp,
            Err(e) => {
                return Err(e);
            },
        };
        decode_file_list_data(&dp.0)
    }

    /// Describes the request for the file `file_id` of the mod `mod_id`.
    pub fn get_mod_file_request(&self, mod_id: u64, file_id: u64) -> (r: ApiRequest)
        ensures
            r.url@ == mod_file_url(mod_id, file_id),
            r.api_key@ == self.api_key@,
            r.body is None,
    {
        let mut url = String::from_str(API_URL_BASE);
        url.append("mods/");
        push_u64_dec(&mut url, mod_id);
        url.append("/files/");
        push_u64_dec(&mut url, file_id);
        ApiRequest { url, api_key: self.api_key.clone(), body: None }
    }

    /// Interprets the response to a single-file request.
    pub fn get_mod_file(&self, status: u16, body: &str) -> (r: Result<File, Error>)
        ensures
            !ok_status(status) ==> (r matches Err(Error::RequestError { status: s, body: b })
                && s == status && b@ == body@),
            ok_status(status) ==> match mod_file_payload(body@) {
                Some(fv) => (r matches Ok(f) && f@ == fv),
                None => r matches Err(Error::DecodeError { .. }),
            },
    {
        if !is_ok_status(status) {
            return Err(Error::RequestError { status, body: body.to_owned() });
        }
        let dp = match decode_body(body) {
            Ok(dp) => dp,
            Err(e) => {
                return Err(e);
            },
        };
        decode_file(&dp.0)
    }

    /// Describes the request for a file's changelog.
    pub fn get_mod_file_changelog_request(&self, mod_id: u64, file_id: u64) -> (r: ApiRequest)
        ensures
            r.url@ == mod_file_changelog_url(mod_id, file_id),
            r.api_key@ == self.api_key@,
            r.body is None,
    {
        let mut url = String::from_str(API_URL_BASE);
        url.append("mods/");
        push_u64_dec(&mut url, mod_id);
        url.append("/files/");
        push_u64_dec(&mut url, file_id);
        url.append("/changelog");
        ApiRequest { url, api_key: self.api_key.clone(), body: None }
    }

    /// Interprets the response to a changelog request: the changelog text.
    pub fn get_mod_file_changelog(&self, status: u16, body: &str) -> (r: Result<String, Error>)
        ensures
            !ok_status(status) ==> (r matches Err(Error::RequestError { status: s, body: b })
                && s == status && b@ == body@),
            ok_status(status) ==> match string_payload(body@) {
                Some(cs) => (r matches Ok(s) && s@ == cs),
                None => r matches Err(Error::DecodeError { .. }),
            },
    {
        if !is_ok_status(status) {
            return Err(Error::RequestError { status, body: body.to_owned() });
        }
        let dp = match decode_body(body) {
            Ok(dp) => dp,
            Err(e) => {
                return Err(e);
            },
        };
        decode_string_data(dp.0)
    }

    /// Describes the request for a file's download URL.
    pub fn file_download_url_request(&self, mod_id: u64, file_id: u64) -> (r: ApiRequest)
        ensures
            r.url@ == file_download_url_url(mod_id, file_id),
            r.api_key@ == self.api_key@,
            r.body is None,
    {
        let mut url = String::from_str(API_URL_BASE);
        url.append("mods/");
        push_u64_dec(&mut url, mod_id);
        url.append("/files/");
        push_u64_dec(&mut url, file_id);
        url.append("/download-url");
        ApiRequest { url, api_key: self.api_key.clone(), body: None }
    }

    /// Interprets the response to a download-URL request: the URL as text.
    pub fn file_download_url(&self, status: u16, body: &str) -> (r: Result<String, Error>)
        ensures
            !ok_status(status) ==> (r matches Err(Error::RequestError { status: s, body: b })
                && s == status && b@ == body@),
            ok_status(status) ==> match string_payload(body@) {
                Some(cs) => (r matches Ok(s) && s@ == cs),
                None => r matches Err(Error::DecodeError { .. }),
            },
    {
        if !is_ok_status(status) {
            return Err(Error::RequestError { status, body: body.to_owned() });
        }
        let dp = match decode_body(body) {
            Ok(dp) => dp,
            Err(e) => {
                return Err(e);
            },
        };
        decode_string_data(dp.0)
    }

    /// Describes the batch request for the files with IDs `file_ids`.
    pub fn get_files_request(&self, file_ids: &Vec<u64>) -> (r: ApiRequest)
        ensures
            r.url@ == files_url(),
            r.api_key@ == self.api_key@,
            (r.body matches Some(b) && b.jv() == file_ids_body_jv(file_ids@)),
    {
        let mut url = String::from_str(API_URL_BASE);
        url.append("mods/files");
        let ids = encode_ids(file_ids);
        let ghost idsv = ids@;
        let mut entries: Vec<(String, Json)> = Vec::new();
        entries.push((String::from_str("fileIds"), Json::Arr(ids)));
        proof {
            crate::json::lemma_obj_jv(entries@);
            crate::json::lemma_arr_jv(idsv);
            assert(crate::json::obj_jv(entries@) =~= file_ids_body_jv(file_ids@)->Obj_0);
        }
        ApiRequest { url, api_key: self.api_key.clone(), body: Some(Json::Obj(entries)) }
    }

    /// Interprets the response to a batch file request: the returned files,
    /// re-projected onto the requested ID order, with unanswered IDs omitted.
    pub fn get_files(&self, file_ids: &Vec<u64>, status: u16, body: &str) -> (r: Result<
        Vec<File>,
        Error,
    >)
        ensures
            !ok_status(status) ==> (r matches Err(Error::RequestError { status: s, body: b })
                && s == status && b@ == body@),
            ok_status(status) ==> match file_list_payload(body@) {
                Some(fs) => (r matches Ok(v) && v.deep_view() == reorder_spec(file_ids@, fs)),
                None => r matches Err(Error::DecodeError { .. }),
            },
    {
        if !is_ok_status(status) {
            return Err(Error::RequestError { status, body: body.to_owned() });
        }
        let dp = match decode_body(body) {
            Ok(dp) => dp,
            Err(e) => {
                return Err(e);
            },
        };
        let files = match decode_file_list_data(&dp.0) {
            Ok(fs) => fs,
            Err(e) => {
                return Err(e);
            },
        };
        Ok(reorder_files(file_ids, files))
    }
}

} // verus!
