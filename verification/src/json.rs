//! A JSON document model, with a mathematical view and the helpers that the
//! strict (closed-schema) decoders are built from.
//!
//! Numbers are restricted to unsigned integers: every numeric field of the
//! remote schema is a non-negative integer, and a fractional or negative
//! number in a payload is a schema violation that must surface as a decode
//! failure rather than be coerced.

use vstd::prelude::*;

verus! {

/// The mathematical shape of a JSON document.
pub enum JsonV {
    Null,
    Bool(bool),
    Int(u64),
    Str(Seq<char>),
    Arr(Seq<JsonV>),
    Obj(Seq<(Seq<char>, JsonV)>),
}

/// A JSON document as exchanged with the transport layer.
#[derive(Debug, PartialEq)]
pub enum Json {
    Null,
    Bool(bool),
    Int(u64),
    Str(String),
    Arr(Vec<Json>),
    Obj(Vec<(String, Json)>),
}

impl Json {
    /// The mathematical document this value represents.
    pub open spec fn jv(self) -> JsonV
        decreases self,
        via Self::jv_decreases
    {
        match self {
            Json::Null => JsonV::Null,
            Json::Bool(b) => JsonV::Bool(b),
            Json::Int(n) => JsonV::Int(n),
            Json::Str(s) => JsonV::Str(s@),
            Json::Arr(v) => JsonV::Arr(arr_jv_rec(v@)),
            Json::Obj(v) => JsonV::Obj(obj_jv_rec(v@)),
        }
    }

    #[via_fn]
    proof fn jv_decreases(self) {
        match self {
            Json::Arr(v) => {
                assert(decreases_to!(self => v));
                assert(decreases_to!(v => v@));
            }
            Json::Obj(v) => {
                assert(decreases_to!(self => v));
                assert(decreases_to!(v => v@));
            }
            _ => {}
        }
    }
}

pub open spec fn arr_jv_rec(s: Seq<Json>) -> Seq<JsonV>
    decreases s,
{
    if s.len() == 0 {
        Seq::empty()
    } else {
        seq![s[0].jv()] + arr_jv_rec(s.drop_first())
    }
}

pub open spec fn obj_jv_rec(s: Seq<(String, Json)>) -> Seq<(Seq<char>, JsonV)>
    decreases s,
    via obj_jv_rec_decreases
{
    if s.len() == 0 {
        Seq::empty()
    } else {
        seq![(s[0].0@, s[0].1.jv())] + obj_jv_rec(s.drop_first())
    }
}

#[via_fn]
proof fn obj_jv_rec_decreases(s: Seq<(String, Json)>) {
    if s.len() > 0 {
        assert(decreases_to!(s => s[0]));
        assert(decreases_to!(s[0] => s[0].1));
    }
}

/// The views of a sequence of documents.
pub open spec fn seq_jv(s: Seq<Json>) -> Seq<JsonV> {
    Seq::new(s.len(), |i: int| s[i].jv())
}

/// The view of an object's entry list.
pub open spec fn obj_jv(s: Seq<(String, Json)>) -> Seq<(Seq<char>, JsonV)> {
    Seq::new(s.len(), |i: int| (s[i].0@, s[i].1.jv()))
}

/// An array's view is the elementwise view of its entries.
pub broadcast proof fn lemma_arr_jv(s: Seq<Json>)
    ensures
        #[trigger] arr_jv_rec(s) == seq_jv(s),
    decreases s.len(),
{
    if s.len() > 0 {
        lemma_arr_jv(s.drop_first());
        assert(seq_jv(s.drop_first()) =~= seq_jv(s).drop_first());
        assert(arr_jv_rec(s) =~= seq_jv(s));
    } else {
        assert(arr_jv_rec(s) =~= seq_jv(s));
    }
}

/// An object's view is the elementwise view of its entry list.
pub broadcast proof fn lemma_obj_jv(s: Seq<(String, Json)>)
    ensures
        #[trigger] obj_jv_rec(s) == obj_jv(s),
    decreases s.len(),
{
    if s.len() > 0 {
        lemma_obj_jv(s.drop_first());
        assert(obj_jv(s.drop_first()) =~= obj_jv(s).drop_first());
        assert(obj_jv_rec(s) =~= obj_jv(s));
    } else {
        assert(obj_jv_rec(s) =~= obj_jv(s));
    }
}

/// The views of a list of key literals.
pub open spec fn keys_v(s: Seq<&str>) -> Seq<Seq<char>> {
    Seq::new(s.len(), |i: int| s[i]@)
}

/// The value bound to the first occurrence of `k` in the entry list `o`.
pub open spec fn lookup(o: Seq<(Seq<char>, JsonV)>, k: Seq<char>) -> Option<JsonV>
    decreases o.len(),
{
    if o.len() == 0 {
        None
    } else if o[0].0 == k {
        Some(o[0].1)
    } else {
        lookup(o.drop_first(), k)
    }
}

/// No key occurs twice in the entry list.
pub open spec fn keys_distinct(o: Seq<(Seq<char>, JsonV)>) -> bool {
    forall|i: int, j: int| 0 <= i < j < o.len() ==> o[i].0 != o[j].0
}

/// Every key of the entry list is one of the allowed keys.
pub open spec fn keys_within(o: Seq<(Seq<char>, JsonV)>, allowed: Seq<Seq<char>>) -> bool {
    forall|i: int| 0 <= i < o.len() ==> allowed.contains(#[trigger] o[i].0)
}

/// The closed-schema discipline: an object is admitted only when its keys are
/// pairwise distinct and drawn from the declared key set.
pub open spec fn strict_obj(o: Seq<(Seq<char>, JsonV)>, allowed: Seq<Seq<char>>) -> bool {
    keys_distinct(o) && keys_within(o, allowed)
}

/// An object carrying any key outside the declared set is rejected by the
/// closed-schema discipline, whatever its other entries hold.
pub proof fn lemma_strict_rejects_unknown(
    o: Seq<(Seq<char>, JsonV)>,
    allowed: Seq<Seq<char>>,
    i: int,
)
    requires
        0 <= i < o.len(),
        !allowed.contains(o[i].0),
    ensures
        !strict_obj(o, allowed),
{
}

/// A required integer field: present with an integer value.
pub open spec fn field_u64(o: Seq<(Seq<char>, JsonV)>, k: Seq<char>) -> Option<u64> {
    match lookup(o, k) {
        Some(JsonV::Int(n)) => Some(n),
        _ => None,
    }
}

/// A required string field: present with a string value.
pub open spec fn field_str(o: Seq<(Seq<char>, JsonV)>, k: Seq<char>) -> Option<Seq<char>> {
    match lookup(o, k) {
        Some(JsonV::Str(s)) => Some(s),
        _ => None,
    }
}

/// A required boolean field: present with a boolean value.
pub open spec fn field_bool(o: Seq<(Seq<char>, JsonV)>, k: Seq<char>) -> Option<bool> {
    match lookup(o, k) {
        Some(JsonV::Bool(b)) => Some(b),
        _ => None,
    }
}

/// A required array field: present with an array value.
pub open spec fn field_arr(o: Seq<(Seq<char>, JsonV)>, k: Seq<char>) -> Option<Seq<JsonV>> {
    match lookup(o, k) {
        Some(JsonV::Arr(a)) => Some(a),
        _ => None,
    }
}

/// An optional integer field: absent or null reads as `None`, an integer as
/// `Some`, and anything else is a schema violation.
pub open spec fn field_opt_u64(o: Seq<(Seq<char>, JsonV)>, k: Seq<char>) -> Option<Option<u64>> {
    match lookup(o, k) {
        None => Some(None),
        Some(JsonV::Null) => Some(None),
        Some(JsonV::Int(n)) => Some(Some(n)),
        _ => None,
    }
}

/// An optional string field, read as `field_opt_u64` is.
pub open spec fn field_opt_str(o: Seq<(Seq<char>, JsonV)>, k: Seq<char>) -> Option<
    Option<Seq<char>>,
> {
    match lookup(o, k) {
        None => Some(None),
        Some(JsonV::Null) => Some(None),
        Some(JsonV::Str(s)) => Some(Some(s)),
        _ => None,
    }
}

/// An optional boolean field, read as `field_opt_u64` is.
pub open spec fn field_opt_bool(o: Seq<(Seq<char>, JsonV)>, k: Seq<char>) -> Option<Option<bool>> {
    match lookup(o, k) {
        None => Some(None),
        Some(JsonV::Null) => Some(None),
        Some(JsonV::Bool(b)) => Some(Some(b)),
        _ => None,
    }
}

/// Relies on `str`'s `PartialEq`: two string slices are equal exactly when
/// their character sequences are equal.
#[verifier::external_body]
pub fn str_eq(a: &str, b: &str) -> (r: bool)
    ensures
        r == (a@ == b@),
{
    a == b
}

pub proof fn lemma_lookup_skip(o: Seq<(Seq<char>, JsonV)>, k: Seq<char>, i: int)
    requires
        0 <= i <= o.len(),
        forall|j: int| 0 <= j < i ==> o[j].0 != k,
    ensures
        lookup(o, k) == lookup(o.skip(i), k),
    decreases i,
{
    if i > 0 {
        assert(o.skip(1) =~= o.drop_first());
        lemma_lookup_skip(o.drop_first(), k, i - 1);
        assert(o.drop_first().skip(i - 1) =~= o.skip(i));
    } else {
        assert(o.skip(0) =~= o);
    }
}

/// A borrowed view of the first entry bound to `key`, if one exists.
pub fn obj_get<'a>(entries: &'a Vec<(String, Json)>, key: &str) -> (r: Option<&'a Json>)
    ensures
        match r {
            Some(j) => lookup(obj_jv(entries@), key@) == Some(j.jv()),
            None => lookup(obj_jv(entries@), key@) is None,
        },
{
    let ghost o = obj_jv(entries@);
    let mut i: usize = 0;
    while i < entries.len()
        invariant
            0 <= i <= entries.len(),
            o == obj_jv(entries@),
            forall|j: int| 0 <= j < i ==> o[j].0 != key@,
        decreases entries.len() - i,
    {
        if str_eq(entries[i].0.as_str(), key) {
            proof {
                lemma_lookup_skip(o, key@, i as int);
                assert(o.skip(i as int)[0] == o[i as int]);
            }
            return Some(&entries[i].1);
        }
        i += 1;
    }
    proof {
        lemma_lookup_skip(o, key@, entries.len() as int);
        assert(o.skip(entries.len() as int) =~= Seq::<(Seq<char>, JsonV)>::empty());
    }
    None
}

/// Whether `k` is among the allowed key literals.
fn key_allowed(allowed: &Vec<&str>, k: &str) -> (r: bool)
    ensures
        r == keys_v(allowed@).contains(k@),
{
    let mut i: usize = 0;
    while i < allowed.len()
        invariant
            0 <= i <= allowed.len(),
            forall|j: int| 0 <= j < i ==> keys_v(allowed@)[j] != k@,
        decreases allowed.len() - i,
    {
        if str_eq(allowed[i], k) {
            assert(keys_v(allowed@)[i as int] == k@);
            return true;
        }
        i += 1;
    }
    assert forall|j: int| 0 <= j < allowed@.len() implies keys_v(allowed@)[j] != k@ by {}
    false
}

/// Reads a required integer field.
pub fn get_u64(entries: &Vec<(String, Json)>, key: &str) -> (r: Option<u64>)
    ensures
        r == field_u64(obj_jv(entries@), key@),
{
    match obj_get(entries, key) {
        Some(Json::Int(n)) => Some(*n),
        _ => None,
    }
}

/// Reads a required string field, copying it out.
pub fn get_str(entries: &Vec<(String, Json)>, key: &str) -> (r: Option<String>)
    ensures
        match r {
            Some(s) => field_str(obj_jv(entries@), key@) == Some(s@),
            None => field_str(obj_jv(entries@), key@) is None,
        },
{
    match obj_get(entries, key) {
        Some(Json::Str(s)) => Some(s.clone()),
        _ => None,
    }
}

/// Reads a required boolean field.
pub fn get_bool(entries: &Vec<(String, Json)>, key: &str) -> (r: Option<bool>)
    ensures
        r == field_bool(obj_jv(entries@), key@),
{
    match obj_get(entries, key) {
        Some(Json::Bool(b)) => Some(*b),
        _ => None,
    }
}

/// Reads a required array field, borrowing its elements.
pub fn get_arr<'a>(entries: &'a Vec<(String, Json)>, key: &str) -> (r: Option<&'a Vec<Json>>)
    ensures
        match r {
            Some(v) => field_arr(obj_jv(entries@), key@) == Some(seq_jv(v@)),
            None => field_arr(obj_jv(entries@), key@) is None,
        },
{
    match obj_get(entries, key) {
        Some(j) => match j {
            Json::Arr(v) => {
                proof {
                    lemma_arr_jv(v@);
                }
                Some(v)
            },
            _ => None,
        },
        None => None,
    }
}

/// Reads an optional integer field.
pub fn get_opt_u64(entries: &Vec<(String, Json)>, key: &str) -> (r: Option<Option<u64>>)
    ensures
        r == field_opt_u64(obj_jv(entries@), key@),
{
    match obj_get(entries, key) {
        None => Some(None),
        Some(Json::Null) => Some(None),
        Some(Json::Int(n)) => Some(Some(*n)),
        _ => None,
    }
}

/// Reads an optional string field, copying it out.
pub fn get_opt_str(entries: &Vec<(String, Json)>, key: &str) -> (r: Option<Option<String>>)
    ensures
        match r {
            Some(Some(s)) => field_opt_str(obj_jv(entries@), key@) == Some(Some(s@)),
            Some(None) => field_opt_str(obj_jv(entries@), key@) == Some(None::<Seq<char>>),
            None => field_opt_str(obj_jv(entries@), key@) is None,
        },
{
    match obj_get(entries, key) {
        None => Some(None),
        Some(Json::Null) => Some(None),
        Some(Json::Str(s)) => Some(Some(s.clone())),
        _ => None,
    }
}

/// Reads an optional boolean field.
pub fn get_opt_bool(entries: &Vec<(String, Json)>, key: &str) -> (r: Option<Option<bool>>)
    ensures
        r == field_opt_bool(obj_jv(entries@), key@),
{
    match obj_get(entries, key) {
        None => Some(None),
        Some(Json::Null) => Some(None),
        Some(Json::Bool(b)) => Some(Some(*b)),
        _ => None,
    }
}

/// Whether the entry list obeys the closed-schema discipline for `allowed`.
pub fn check_strict(entries: &Vec<(String, Json)>, allowed: &Vec<&str>) -> (r: bool)
    ensures
        r == strict_obj(obj_jv(entries@), keys_v(allowed@)),
{
    let ghost o = obj_jv(entries@);
    let mut i: usize = 0;
    while i < entries.len()
        invariant
            0 <= i <= entries.len(),
            o == obj_jv(entries@),
            forall|p: int, q: int| 0 <= p < q < i ==> o[p].0 != o[q].0,
            forall|p: int| 0 <= p < i ==> keys_v(allowed@).contains(#[trigger] o[p].0),
        decreases entries.len() - i,
    {
        if !key_allowed(allowed, entries[i].0.as_str()) {
            proof {
                assert(o[i as int].0 == entries@[i as int].0@);
                assert(!keys_within(o, keys_v(allowed@)));
            }
            return false;
        }
        let mut j: usize = 0;
        while j < i
            invariant
                0 <= j <= i < entries.len(),
                o == obj_jv(entries@),
                forall|p: int| 0 <= p < j ==> o[p].0 != o[i as int].0,
            decreases i - j,
        {
            if str_eq(entries[j].0.as_str(), entries[i].0.as_str()) {
                proof {
                    assert(o[j as int].0 == o[i as int].0);
                    assert(!keys_distinct(o));
                }
                return false;
            }
            j += 1;
        }
        i += 1;
    }
    true
}
/// The view of an optional owned string.
pub open spec fn opt_str_v(o: Option<String>) -> Option<Seq<char>> {
    match o {
        Some(s) => Some(s@),
        None => None,
    }
}

/// Decodes every element of a sequence, failing if any element fails.
pub open spec fn map_opt<B>(s: Seq<JsonV>, f: spec_fn(JsonV) -> Option<B>) -> Option<Seq<B>>
    decreases s.len(),
{
    if s.len() == 0 {
        Some(Seq::empty())
    } else {
        match (f(s[0]), map_opt(s.drop_first(), f)) {
            (Some(b), Some(rest)) => Some(seq![b] + rest),
            _ => None,
        }
    }
}

/// Elementwise decoding commutes with appending one element.
pub proof fn lemma_map_opt_push<B>(s: Seq<JsonV>, f: spec_fn(JsonV) -> Option<B>, x: JsonV)
    ensures
        map_opt(s.push(x), f) == (match (map_opt(s, f), f(x)) {
            (Some(bs), Some(b)) => Some(bs.push(b)),
            _ => None::<Seq<B>>,
        }),
    decreases s.len(),
{
    let sx = s.push(x);
    assert(sx.len() == s.len() + 1);
    if s.len() == 0 {
        assert(sx[0] == x);
        assert(sx.drop_first() =~= Seq::<JsonV>::empty());
        assert(map_opt(sx.drop_first(), f) == Some(Seq::<B>::empty()));
        assert(map_opt(s, f) == Some(Seq::<B>::empty()));
        if f(x) is Some {
            assert(map_opt(sx, f) == Some(seq![f(x)->0] + Seq::<B>::empty()));
            assert(seq![f(x)->0] + Seq::<B>::empty() =~= Seq::<B>::empty().push(f(x)->0));
        } else {
            assert(map_opt(sx, f) is None);
        }
    } else {
        assert(sx[0] == s[0]);
        assert(sx.drop_first() =~= s.drop_first().push(x));
        lemma_map_opt_push(s.drop_first(), f, x);
        if f(s[0]) is Some && map_opt(s.drop_first(), f) is Some && f(x) is Some {
            assert(map_opt(s, f) == Some(seq![f(s[0])->0] + map_opt(s.drop_first(), f)->0));
            assert(map_opt(sx, f) == Some(
                seq![f(s[0])->0] + (map_opt(s.drop_first(), f)->0).push(f(x)->0),
            ));
            assert(seq![f(s[0])->0] + (map_opt(s.drop_first(), f)->0).push(f(x)->0) =~= (seq![
                f(s[0])->0,
            ] + map_opt(s.drop_first(), f)->0).push(f(x)->0));
        } else {
            assert(map_opt(sx, f) is None);
            assert(map_opt(s, f) is None || f(x) is None);
        }
    }
}

/// A sequence decodes elementwise only if each of its elements decodes.
pub proof fn lemma_map_opt_all<B>(s: Seq<JsonV>, f: spec_fn(JsonV) -> Option<B>, i: int)
    requires
        0 <= i < s.len(),
        f(s[i]) is None,
    ensures
        map_opt(s, f) is None,
    decreases s.len(),
{
    if s.len() > 0 && i > 0 {
        lemma_map_opt_all(s.drop_first(), f, i - 1);
    }
}

/// A string document's character sequence, as an element decoder.
pub open spec fn str_elem_fn() -> spec_fn(JsonV) -> Option<Seq<char>> {
    |j: JsonV| str_of(j)
}

/// The elementwise reading of an array of strings.
pub open spec fn str_list_of(s: Seq<JsonV>) -> Option<Seq<Seq<char>>> {
    map_opt(s, str_elem_fn())
}

/// Decodes an array of strings.
pub fn decode_str_list(v: &Vec<Json>) -> (r: Option<Vec<String>>)
    ensures
        match r {
            Some(ss) => str_list_of(seq_jv(v@)) == Some(ss.deep_view()),
            None => str_list_of(seq_jv(v@)) is None,
        },
{
    let mut out: Vec<String> = Vec::new();
    let mut i: usize = 0;
    while i < v.len()
        invariant
            0 <= i <= v.len(),
            map_opt(seq_jv(v@).take(i as int), str_elem_fn()) == Some(out.deep_view()),
        decreases v.len() - i,
    {
        let ghost prefix = seq_jv(v@).take(i as int);
        let ghost x = seq_jv(v@)[i as int];
        proof {
            assert(x == v@[i as int].jv());
        }
        let s = match &v[i] {
            Json::Str(s) => s.clone(),
            _ => {
                proof {
                    assert(str_elem_fn()(x) == str_of(x));
                    assert(str_of(x) is None);
                    lemma_map_opt_all(seq_jv(v@), str_elem_fn(), i as int);
                }
                return None;
            },
        };
        proof {
            assert(str_elem_fn()(x) == Some(s@));
        }
        out.push(s);
        proof {
            lemma_map_opt_push(prefix, str_elem_fn(), x);
            assert(prefix.push(x) =~= seq_jv(v@).take(i as int + 1));
            assert(out.deep_view() =~= (map_opt(prefix, str_elem_fn())->0).push(s@));
        }
        i += 1;
    }
    proof {
        assert(seq_jv(v@).take(v.len() as int) =~= seq_jv(v@));
    }
    Some(out)
}

/// A string document's character sequence.
pub open spec fn str_of(j: JsonV) -> Option<Seq<char>> {
    match j {
        JsonV::Str(s) => Some(s),
        _ => None,
    }
}

#[verifier::external_type_specification]
#[verifier::external_body]
pub struct ExJsonValue(serde_json::Value);

/// The document that the JSON text parser yields for this text, or `None`
/// where the text is not a JSON document whose numbers are all unsigned
/// integers. The result depends on the text alone.
pub uninterp spec fn json_of_text(s: Seq<char>) -> Option<JsonV>;

/// Relies on `serde_json::Value`'s variants: each arm moves the matched
/// payload into the corresponding constructor of this crate's document type;
/// numbers are admitted only where they are unsigned integers.
#[verifier::external_body]
fn json_from_value(v: serde_json::Value) -> Option<Json> {
    match v {
        serde_json::Value::Null => Some(Json::Null),
        serde_json::Value::Bool(b) => Some(Json::Bool(b)),
        serde_json::Value::Number(n) => n.as_u64().map(Json::Int),
        serde_json::Value::String(s) => Some(Json::Str(s)),
        serde_json::Value::Array(a) => a.into_iter().map(json_from_value).collect::<Option<
            Vec<Json>,
        >>().map(Json::Arr),
        serde_json::Value::Object(m) => m.into_iter().map(
            |e: (String, serde_json::Value)| json_from_value(e.1).map(|j: Json| (e.0, j)),
        ).collect::<Option<Vec<(String, Json)>>>().map(Json::Obj),
    }
}

/// Relies on `serde_json::from_str`: parses the text as one JSON document,
/// deterministically in the text alone.
#[verifier::external_body]
pub fn parse_json_text(s: &str) -> (r: Option<Json>)
    ensures
        match r {
            Some(j) => json_of_text(s@) == Some(j.jv()),
            None => json_of_text(s@) is None,
        },
{
    match serde_json::from_str::<serde_json::Value>(s) {
        Ok(v) => json_from_value(v),
        Err(_) => None,
    }
}

} // verus!

