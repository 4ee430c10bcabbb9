//! The response envelope: every response body is `{data, pagination?}`, and
//! this module peels that wrapper off (and, for tests and request bodies,
//! puts it back on).

use vstd::prelude::*;
use vstd::string::StringExecFns;
use crate::common_structs::{decode_pagination, pagination_of, Pagination};
use crate::error::Error;
use crate::json::{
    check_strict, keys_v, lemma_lookup_skip, lemma_obj_jv, lookup, obj_get, obj_jv, obj_jv_rec,
    strict_obj, Json, JsonV,
};

verus! {

pub open spec fn envelope_keys() -> Seq<Seq<char>> {
    seq!["data"@, "pagination"@]
}

/// The payload and pagination of an envelope document, if it has the
/// envelope shape: an object whose keys are drawn from `data` and
/// `pagination` only, with `data` present; a missing or null `pagination`
/// reads as `None`.
pub open spec fn envelope_of(j: JsonV) -> Option<(JsonV, Option<Pagination>)> {
    match j {
        JsonV::Obj(o) => {
            if strict_obj(o, envelope_keys()) {
                match lookup(o, "data"@) {
                    Some(d) => match lookup(o, "pagination"@) {
                        None => Some((d, None)),
                        Some(JsonV::Null) => Some((d, None)),
                        Some(p) => match pagination_of(p) {
                            Some(pg) => Some((d, Some(pg))),
                            None => None,
                        },
                    },
                    None => None,
                }
            } else {
                None
            }
        },
        _ => None,
    }
}

/// Unwraps an envelope, yielding the payload document and the pagination.
#[verifier::loop_isolation(false)]
pub fn decode_envelope(j: Json) -> (r: Result<(Json, Option<Pagination>), Error>)
    ensures
        match r {
            Ok(dp) => envelope_of(j.jv()) == Some((dp.0.jv(), dp.1)),
            Err(e) => envelope_of(j.jv()) is None && e matches Error::DecodeError { .. },
        },
{
    let ghost jv0 = j.jv();
    let mut entries = match j {
        Json::Obj(entries) => entries,
        _ => {
            return Err(Error::decode("envelope: expected an object"));
        },
    };
    proof {
        lemma_obj_jv(entries@);
        assert(jv0 == JsonV::Obj(obj_jv(entries@)));
    }
    let ghost o = obj_jv(entries@);
    let allowed: Vec<&str> = vec!["data", "pagination"];
    proof {
        assert(keys_v(allowed@) =~= envelope_keys());
    }
    if !check_strict(&entries, &allowed) {
        return Err(Error::decode("envelope: unexpected or duplicate key"));
    }
    let pagination = match obj_get(&entries, "pagination") {
        None => None,
        Some(Json::Null) => None,
        Some(pj) => match decode_pagination(pj) {
            Ok(p) => Some(p),
            Err(e) => {
                return Err(e);
            },
        },
    };
    let mut i: usize = 0;
    while i < entries.len()
        invariant
            0 <= i <= entries.len(),
            o == obj_jv(entries@),
            jv0 == JsonV::Obj(o),
            strict_obj(o, envelope_keys()),
            forall|k: int| 0 <= k < i ==> o[k].0 != "data"@,
            match lookup(o, "pagination"@) {
                None => pagination is None,
                Some(pv) => if pv is Null {
                    pagination is None
                } else {
                    pagination is Some && pagination_of(pv) == Some(pagination->0)
                },
            },
        decreases entries.len() - i,
    {
        if crate::json::str_eq(entries[i].0.as_str(), "data") {
            proof {
                lemma_lookup_skip(o, "data"@, i as int);
                assert(o.skip(i as int).len() > 0);
                assert(o.skip(i as int)[0] == o[i as int]);
                assert(o[i as int].0 == "data"@);
                assert(lookup(o, "data"@) == Some(o[i as int].1));
            }
            let entry = entries.swap_remove(i);
            proof {
                assert(entry.1.jv() == o[i as int].1);
                assert(envelope_of(jv0) == Some((entry.1.jv(), pagination)));
            }
            return Ok((entry.1, pagination));
        }
        i += 1;
    }
    proof {
        lemma_lookup_skip(o, "data"@, entries.len() as int);
        assert(o.skip(entries.len() as int) =~= Seq::<(Seq<char>, JsonV)>::empty());
    }
    Err(Error::decode("envelope: missing data"))
}

/// The document of a pagination value.
pub open spec fn pagination_jv(p: Pagination) -> JsonV {
    JsonV::Obj(
        seq![
            ("index"@, JsonV::Int(p.index)),
            ("pageSize"@, JsonV::Int(p.page_size)),
            ("resultCount"@, JsonV::Int(p.result_count)),
            ("totalCount"@, JsonV::Int(p.total_count)),
        ],
    )
}

/// The canonical envelope document of a payload and a pagination: the `data`
/// key followed by the `pagination` key, null where absent.
pub open spec fn envelope_jv(d: JsonV, p: Option<Pagination>) -> JsonV {
    JsonV::Obj(
        seq![
            ("data"@, d),
            (
                "pagination"@,
                match p {
                    None => JsonV::Null,
                    Some(pg) => pagination_jv(pg),
                },
            ),
        ],
    )
}

/// Wraps a payload document in the envelope.
pub fn encode_envelope(data: Json, pagination: Option<Pagination>) -> (r: Json)
    ensures
        r.jv() == envelope_jv(data.jv(), pagination),
{
    let ghost dv = data.jv();
    let pj = match pagination {
        None => Json::Null,
        Some(p) => {
            let mut pe: Vec<(String, Json)> = Vec::new();
            pe.push((String::from_str("index"), Json::Int(p.index)));
            pe.push((String::from_str("pageSize"), Json::Int(p.page_size)));
            pe.push((String::from_str("resultCount"), Json::Int(p.result_count)));
            pe.push((String::from_str("totalCount"), Json::Int(p.total_count)));
            proof {
                lemma_obj_jv(pe@);
                assert(obj_jv(pe@) =~= pagination_jv(p)->Obj_0);
            }
            Json::Obj(pe)
        },
    };
    let ghost pjv = pj.jv();
    proof {
        assert(pjv == (match pagination {
            None => JsonV::Null,
            Some(pg) => pagination_jv(pg),
        }));
    }
    let mut entries: Vec<(String, Json)> = Vec::new();
    entries.push((String::from_str("data"), data));
    entries.push((String::from_str("pagination"), pj));
    proof {
        lemma_obj_jv(entries@);
        assert(entries@.len() == 2);
        assert(obj_jv(entries@) =~= seq![("data"@, dv), ("pagination"@, pjv)]);
        assert(obj_jv_rec(entries@) == obj_jv(entries@));
        assert(envelope_jv(dv, pagination)->Obj_0 == seq![
            ("data"@, dv),
            (
                "pagination"@,
                match pagination {
                    None => JsonV::Null,
                    Some(pg) => pagination_jv(pg),
                },
            ),
        ]);
        assert(("pagination"@, pjv) == (
            "pagination"@,
            match pagination {
                None => JsonV::Null,
                Some(pg) => pagination_jv(pg),
            },
        ));
        assert(seq![("data"@, dv), ("pagination"@, pjv)] == envelope_jv(dv, pagination)->Obj_0);
        assert(JsonV::Obj(obj_jv_rec(entries@)) == envelope_jv(dv, pagination));
    }
    Json::Obj(entries)
}

/// Wrapping any payload in the envelope and unwrapping it yields the payload
/// and the pagination back unchanged.
pub proof fn lemma_envelope_round_trip(d: JsonV, p: Option<Pagination>)
    ensures
        envelope_of(envelope_jv(d, p)) == Some((d, p)),
{
    reveal_with_fuel(lookup, 5);
    reveal_strlit("data");
    reveal_strlit("pagination");
    reveal_strlit("index");
    reveal_strlit("pageSize");
    reveal_strlit("resultCount");
    reveal_strlit("totalCount");
    let o = envelope_jv(d, p)->Obj_0;
    assert("data"@.len() == 4 && "pagination"@.len() == 10);
    assert(strict_obj(o, envelope_keys())) by {
        assert(envelope_keys().contains(o[0].0));
        assert(envelope_keys().contains(o[1].0));
    }
    assert(lookup(o, "data"@) == Some(d));
    assert(o.drop_first()[0] == o[1]);
    assert(lookup(o, "pagination"@) == Some(o[1].1)) by {
        assert(o[0].0 != "pagination"@);
        assert(lookup(o.drop_first(), "pagination"@) == Some(o[1].1));
    }
    match p {
        None => {
        },
        Some(pg) => {
            lemma_pagination_round_trip(pg);
        },
    }
}

/// Encoding a pagination value and decoding it yields the value back.
pub proof fn lemma_pagination_round_trip(p: Pagination)
    ensures
        pagination_of(pagination_jv(p)) == Some(p),
{
    reveal_with_fuel(lookup, 5);
    reveal_strlit("index");
    reveal_strlit("pageSize");
    reveal_strlit("resultCount");
    reveal_strlit("totalCount");
    let o = pagination_jv(p)->Obj_0;
    assert("index"@.len() == 5 && "pageSize"@.len() == 8 && "resultCount"@.len() == 11
        && "totalCount"@.len() == 10);
    assert(strict_obj(o, crate::common_structs::pagination_keys())) by {
        assert(crate::common_structs::pagination_keys().contains(o[0].0));
        assert(crate::common_structs::pagination_keys().contains(o[1].0));
        assert(crate::common_structs::pagination_keys().contains(o[2].0));
        assert(crate::common_structs::pagination_keys().contains(o[3].0));
    }
    assert(lookup(o, "index"@) == Some(JsonV::Int(p.index)));
    assert(o.drop_first()[0] == o[1] && o.drop_first().drop_first()[0] == o[2]
        && o.drop_first().drop_first().drop_first()[0] == o[3]);
    assert(lookup(o, "pageSize"@) == Some(JsonV::Int(p.page_size)));
    assert(lookup(o, "resultCount"@) == Some(JsonV::Int(p.result_count)));
    assert(lookup(o, "totalCount"@) == Some(JsonV::Int(p.total_count)));
}

/// The payload and pagination that a success body denotes: the body parsed
/// as JSON, with the envelope peeled off.
pub open spec fn body_payload(body: Seq<char>) -> Option<(JsonV, Option<Pagination>)> {
    match crate::json::json_of_text(body) {
        Some(jv) => envelope_of(jv),
        None => None,
    }
}

/// Parses a success body and unwraps its envelope.
pub fn decode_body(body: &str) -> (r: Result<(Json, Option<Pagination>), Error>)
    ensures
        match r {
            Ok(dp) => body_payload(body@) == Some((dp.0.jv(), dp.1)),
            Err(e) => body_payload(body@) is None && e matches Error::DecodeError { .. },
        },
{
    match crate::json::parse_json_text(body) {
        Some(j) => decode_envelope(j),
        None => Err(Error::decode("body is not a JSON document")),
    }
}

} // verus!
