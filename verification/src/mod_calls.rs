//! The mod endpoints: request builders and response interpreters.

use vstd::prelude::*;
use vstd::string::StringExecFns;
use crate::envelope::{body_payload, decode_body};
use crate::error::Error;
use crate::file_calls::{decode_string_data, encode_ids, ids_jv, string_payload};
use crate::json::{Json, JsonV};
use crate::mod_structs::{decode_mod, decode_mod_list, mod_list_of, mod_of, Mod, ModV};
use crate::request::{is_ok_status, ok_status, ApiRequest, Furse, API_URL_BASE};
use crate::search_query::{query_spec, SearchQuery};
use crate::strings::{dec_spec, push_u64_dec};

verus! {

/// The URL of one mod.
pub open spec fn mod_url(mod_id: u64) -> Seq<char> {
    API_URL_BASE@ + "mods/"@ + dec_spec(mod_id as int)
}

/// The URL of the batch mod endpoint.
pub open spec fn mods_url() -> Seq<char> {
    API_URL_BASE@ + "mods"@
}

/// The URL of a mod's description.
pub open spec fn mod_description_url(mod_id: u64) -> Seq<char> {
    API_URL_BASE@ + "mods/"@ + dec_spec(mod_id as int) + "/description"@
}

/// The URL of a search, with the query's parameters.
pub open spec fn search_url(q: crate::search_query::SearchQueryV) -> Seq<char> {
    API_URL_BASE@ + "mods/search?"@ + query_spec(q)
}

/// The POST body of the batch mod endpoint.
pub open spec fn mod_ids_body_jv(ids: Seq<u64>) -> JsonV {
    JsonV::Obj(seq![("modIds"@, JsonV::Arr(ids_jv(ids)))])
}

/// The payload of a single-mod response body.
pub open spec fn mod_payload(body: Seq<char>) -> Option<ModV> {
    match body_payload(body) {
        Some(dp) => mod_of(dp.0),
        None => None,
    }
}

/// The payload of a mod-list response body.
pub open spec fn mod_list_payload(body: Seq<char>) -> Option<Seq<ModV>> {
    match body_payload(body) {
        Some(dp) => match dp.0 {
            JsonV::Arr(a) => mod_list_of(a),
            _ => None,
        },
        None => None,
    }
}

/// Extracts a mod-list payload document.
pub fn decode_mod_list_data(data: &Json) -> (r: Result<Vec<Mod>, Error>)
    ensures
        match r {
            Ok(ms) => (match data.jv() {
                JsonV::Arr(a) => mod_list_of(a),
                _ => None,
            }) == Some(ms.deep_view()),
            Err(e) => (match data.jv() {
                JsonV::Arr(a) => mod_list_of(a),
                _ => None,
            }) is None && e matches Error::DecodeError { .. },
        },
{
    match data {
        Json::Arr(v) => {
            proof {
                crate::json::lemma_arr_jv(v@);
            }
            decode_mod_list(v)
        },
        _ => Err(Error::decode("expected an array payload")),
    }
}

impl Furse {
    /// Describes the request for the mod `mod_id`.
    pub fn get_mod_request(&self, mod_id: u64) -> (r: ApiRequest)
        ensures
            r.url@ == mod_url(mod_id),
            r.api_key@ == self.api_key@,
            r.body is None,
    {
        let mut url = String::from_str(API_URL_BASE);
        url.append("mods/");
        push_u64_dec(&mut url, mod_id);
        ApiRequest { url, api_key: self.api_key.clone(), body: None }
    }

    /// Interprets the response to a single-mod request.
    pub fn get_mod(&self, status: u16, body: &str) -> (r: Result<Mod, Error>)
        ensures
            !ok_status(status) ==> (r matches Err(Error::RequestError { status: s, body: b })
                && s == status && b@ == body@),
            ok_status(status) ==> match mod_payload(body@) {
                Some(mv) => (r matches Ok(m) && m@ == mv),
                None => r matches Err(Error::DecodeError { .. }),
            },
    {
        if !is_ok_status(status) {
            return Err(Error::RequestError { status, body: body.to_owned() });
        }
        let dp = match decode_body(body) {
            Ok(dp) => dp,
            Err(e) => {
                return Err(e);
            },
        };
        decode_mod(&dp.0)
    }

    /// Describes the batch request for the mods with IDs `mod_ids`.
    pub fn get_mods_request(&self, mod_ids: &Vec<u64>) -> (r: ApiRequest)
        ensures
            r.url@ == mods_url(),
            r.api_key@ == self.api_key@,
            (r.body matches Some(b) && b.jv() == mod_ids_body_jv(mod_ids@)),
    {
        let mut url = String::from_str(API_URL_BASE);
        url.append("mods");
        let ids = encode_ids(mod_ids);
        let ghost idsv = ids@;
        let mut entries: Vec<(String, Json)> = Vec::new();
        entries.push((String::from_str("modIds"), Json::Arr(ids)));
        proof {
            crate::json::lemma_obj_jv(entries@);
            crate::json::lemma_arr_jv(idsv);
            assert(crate::json::obj_jv(entries@) =~= mod_ids_body_jv(mod_ids@)->Obj_0);
        }
        ApiRequest { url, api_key: self.api_key.clone(), body: Some(Json::Obj(entries)) }
    }

    /// Interprets the response to a batch mod request: the mods as returned,
    /// in the server's order.
    pub fn get_mods(&self, status: u16, body: &str) -> (r: Result<Vec<Mod>, Error>)
        ensures
            !ok_status(status) ==> (r matches Err(Error::RequestError { status: s, body: b })
                && s == status && b@ == body@),
            ok_status(status) ==> match mod_list_payload(body@) {
                Some(ms) => (r matches Ok(v) && v.deep_view() == ms),
                None => r matches Err(Error::DecodeError { .. }),
            },
    {
        if !is_ok_status(status) {
            return Err(Error::RequestError { status, body: body.to_owned() });
        }
        let dp = match decode_body(body) {
            Ok(dp) => dp,
            Err(e) => {
                return Err(e);
            },
        };
        decode_mod_list_data(&dp.0)
    }

    /// Describes the request for a mod's description.
    pub fn get_mod_description_request(&self, mod_id: u64) -> (r: ApiRequest)
        ensures
            r.url@ == mod_description_url(mod_id),
            r.api_key@ == self.api_key@,
            r.body is None,
    {
        let mut url = String::from_str(API_URL_BASE);
        url.append("mods/");
        push_u64_dec(&mut url, mod_id);
        url.append("/description");
        ApiRequest { url, api_key: self.api_key.clone(), body: None }
    }

    /// Interprets the response to a description request: the description
    /// text.
    pub fn get_mod_description(&self, status: u16, body: &str) -> (r: Result<String, Error>)
        ensures
            !ok_status(status) ==> (r matches Err(Error::RequestError { status: s, body: b })
                && s == status && b@ == body@),
            ok_status(status) ==> match string_payload(body@) {
                Some(cs) => (r matches Ok(s) && s@ == cs),
                None => r matches Err(Error::DecodeError { .. }),
            },
    {
        if !is_ok_status(status) {
            return Err(Error::RequestError { status, body: body.to_owned() });
        }
        let dp = match decode_body(body) {
            Ok(dp) => dp,
            Err(e) => {
                return Err(e);
            },
        };
        decode_string_data(dp.0)
    }

    /// Describes a search request: the search path with the query's
    /// parameters, present fields only.
    pub fn search_mods_request(&self, query: &SearchQuery) -> (r: ApiRequest)
        ensures
            r.url@ == search_url(query@),
            r.api_key@ == self.api_key@,
            r.body is None,
    {
        let mut url = String::from_str(API_URL_BASE);
        url.append("mods/search?");
        let qs = query.to_query_string();
        url.append(qs.as_str());
        ApiRequest { url, api_key: self.api_key.clone(), body: None }
    }

    /// Interprets the response to a search request: the matching mods in the
    /// server's order.
    pub fn search_mods(&self, status: u16, body: &str) -> (r: Result<Vec<Mod>, Error>)
        ensures
            !ok_status(status) ==> (r matches Err(Error::RequestError { status: s, body: b })
                && s == status && b@ == body@),
            ok_status(status) ==> match mod_list_payload(body@) {
                Some(ms) => (r matches Ok(v) && v.deep_view() == ms),
                None => r matches Err(Error::DecodeError { .. }),
            },
    {
        if !is_ok_status(status) {
            return Err(Error::RequestError { status, body: body.to_owned() });
        }
        let dp = match decode_body(body) {
            Ok(dp) => dp,
            Err(e) => {
                return Err(e);
            },
        };
        decode_mod_list_data(&dp.0)
    }
}

} // verus!
