//! The search filter/sort specification and its query-string encoder.
//!
//! Only present fields serialize; an absent optional field produces no key at
//! all. String values are form-encoded (space as `+`, reserved bytes as
//! percent escapes) over their UTF-8 bytes.

use vstd::prelude::*;
use vstd::string::StringSliceAdditionalSpecFns;
use vstd::string::StringExecFns;
use crate::common_structs::{mod_loader_code, ModLoaderType};
use crate::strings::{dec_digit, dec_spec, push_char, push_u64_dec};

verus! {

/// The field a search can sort by, with fixed integer wire codes.
#[derive(Debug, Clone, Copy, PartialEq, Eq, Structural)]
pub enum ModsSearchSortField {
    Featured,
    Popularity,
    LastUpdated,
    Name,
    Author,
    TotalDownloads,
    Category,
    GameVersion,
}

/// The fixed integer wire code of each sort field.
pub open spec fn sort_field_code(f: ModsSearchSortField) -> u64 {
    match f {
        ModsSearchSortField::Featured => 1,
        ModsSearchSortField::Popularity => 2,
        ModsSearchSortField::LastUpdated => 3,
        ModsSearchSortField::Name => 4,
        ModsSearchSortField::Author => 5,
        ModsSearchSortField::TotalDownloads => 6,
        ModsSearchSortField::Category => 7,
        ModsSearchSortField::GameVersion => 8,
    }
}

/// The wire code of a sort field.
pub fn sort_field_wire(f: &ModsSearchSortField) -> (r: u64)
    ensures
        r == sort_field_code(*f),
{
    match f {
        ModsSearchSortField::Featured => 1,
        ModsSearchSortField::Popularity => 2,
        ModsSearchSortField::LastUpdated => 3,
        ModsSearchSortField::Name => 4,
        ModsSearchSortField::Author => 5,
        ModsSearchSortField::TotalDownloads => 6,
        ModsSearchSortField::Category => 7,
        ModsSearchSortField::GameVersion => 8,
    }
}

/// The direction of a sort, serialized as a literal word.
#[derive(Debug, Clone, Copy, PartialEq, Eq, Structural)]
pub enum SortOrder {
    Asc,
    Desc,
}

impl Default for SortOrder {
    fn default() -> (r: Self)
        ensures
            r == SortOrder::Asc,
    {
        SortOrder::Asc
    }
}

/// The literal wire word of a sort order.
pub open spec fn sort_order_code(o: SortOrder) -> Seq<char> {
    match o {
        SortOrder::Asc => "asc"@,
        SortOrder::Desc => "desc"@,
    }
}

/// The wire word of a sort order.
pub fn sort_order_wire(o: &SortOrder) -> (r: &'static str)
    ensures
        r@ == sort_order_code(*o),
{
    match o {
        SortOrder::Asc => "asc",
        SortOrder::Desc => "desc",
    }
}

/// A search specification. `game_id` and `index` always serialize; every
/// other field serializes only when present.
#[derive(Debug, Clone, PartialEq)]
pub struct SearchQuery {
    /// Filter by game; required.
    pub game_id: u64,
    /// Filter by section (class).
    pub class_id: Option<u64>,
    /// Filter by category.
    pub category_id: Option<u64>,
    /// Filter by game version string.
    pub game_version: Option<String>,
    /// Free-text filter on the mod name and author.
    pub search_filter: Option<String>,
    /// Sort by a `ModsSearchSortField`.
    pub sort_field: Option<ModsSearchSortField>,
    /// Sort direction.
    pub sort_order: Option<SortOrder>,
    /// Filter by mod loader; meaningful together with `game_version`.
    pub mod_loader_type: Option<ModLoaderType>,
    /// Filter by a game version type.
    pub game_version_type_id: Option<u64>,
    /// Filter by slug; together with `class_id` this is unique.
    pub slug: Option<String>,
    /// Zero-based index of the first item to return; required.
    pub index: u64,
    /// Number of items to return.
    pub page_size: Option<u64>,
}

/// The mathematical view of a `SearchQuery`.
pub struct SearchQueryV {
    pub game_id: u64,
    pub class_id: Option<u64>,
    pub category_id: Option<u64>,
    pub game_version: Option<Seq<char>>,
    pub search_filter: Option<Seq<char>>,
    pub sort_field: Option<ModsSearchSortField>,
    pub sort_order: Option<SortOrder>,
    pub mod_loader_type: Option<ModLoaderType>,
    pub game_version_type_id: Option<u64>,
    pub slug: Option<Seq<char>>,
    pub index: u64,
    pub page_size: Option<u64>,
}

impl View for SearchQuery {
    type V = SearchQueryV;

    open spec fn view(&self) -> SearchQueryV {
        SearchQueryV {
            game_id: self.game_id,
            class_id: self.class_id,
            category_id: self.category_id,
            game_version: crate::json::opt_str_v(self.game_version),
            search_filter: crate::json::opt_str_v(self.search_filter),
            sort_field: self.sort_field,
            sort_order: self.sort_order,
            mod_loader_type: self.mod_loader_type,
            game_version_type_id: self.game_version_type_id,
            slug: crate::json::opt_str_v(self.slug),
            index: self.index,
            page_size: self.page_size,
        }
    }
}

/// The default game filter.
pub const DEFAULT_GAME_ID: u64 = 432;

impl Default for SearchQuery {
    /// The default query: the fixed default game, offset zero, nothing else.
    fn default() -> (r: Self)
        ensures
            r@ == default_query(),
    {
        SearchQuery {
            game_id: DEFAULT_GAME_ID,
            class_id: None,
            category_id: None,
            game_version: None,
            search_filter: None,
            sort_field: None,
            sort_order: None,
            mod_loader_type: None,
            game_version_type_id: None,
            slug: None,
            index: 0,
            page_size: None,
        }
    }
}

/// The view of the default query.
pub open spec fn default_query() -> SearchQueryV {
    SearchQueryV {
        game_id: 432,
        class_id: None,
        category_id: None,
        game_version: None,
        search_filter: None,
        sort_field: None,
        sort_order: None,
        mod_loader_type: None,
        game_version_type_id: None,
        slug: None,
        index: 0,
        page_size: None,
    }
}

/// Whether a byte passes through form encoding unchanged: ASCII letters and
/// digits, and `*`, `-`, `.`, `_`.
pub open spec fn form_unreserved(b: u8) -> bool {
    (48 <= b <= 57) || (65 <= b <= 90) || (97 <= b <= 122) || b == 42 || b == 45 || b == 46 || b
        == 95
}

/// The character for the hexadecimal digit `d`, upper case.
pub open spec fn hex_digit(d: int) -> char {
    if d < 10 {
        ((48 + d) as u8) as char
    } else {
        ((55 + d) as u8) as char
    }
}

/// The form encoding of one byte: space as `+`, unreserved bytes as
/// themselves, every other byte as a percent escape.
pub open spec fn form_byte(b: u8) -> Seq<char> {
    if b == 32 {
        seq!['+']
    } else if form_unreserved(b) {
        seq![b as char]
    } else {
        seq!['%', hex_digit(b as int / 16), hex_digit(b as int % 16)]
    }
}

/// The form encoding of a byte sequence.
pub open spec fn form_encoded(bs: Seq<u8>) -> Seq<char>
    decreases bs.len(),
{
    if bs.len() == 0 {
        Seq::empty()
    } else {
        form_encoded(bs.drop_last()) + form_byte(bs.last())
    }
}

/// The form encoding of a string's UTF-8 bytes.
pub open spec fn form_str(s: Seq<char>) -> Seq<char> {
    form_encoded(vstd::utf8::encode_utf8(s))
}

/// Appends the form encoding of `s`.
fn push_form_encoded(out: &mut String, s: &str)
    ensures
        final(out)@ == old(out)@ + form_str(s@),
{
    let bs = s.as_bytes();
    let ghost whole = bs@;
    let mut i: usize = 0;
    proof {
        assert(whole.take(0) =~= Seq::<u8>::empty());
        assert(out@ + Seq::<char>::empty() =~= out@);
    }
    while i < bs.len()
        invariant
            0 <= i <= bs.len(),
            whole == bs@,
            out@ == old(out)@ + form_encoded(whole.take(i as int)),
        decreases bs.len() - i,
    {
        let b = bs[i];
        if b == 32 {
            push_char(out, '+');
        } else if (48 <= b && b <= 57) || (65 <= b && b <= 90) || (97 <= b && b <= 122) || b == 42
            || b == 45 || b == 46 || b == 95 {
            push_char(out, b as char);
        } else {
            push_char(out, '%');
            let hi = b / 16;
            let lo = b % 16;
            push_char(
                out,
                if hi < 10 {
                    (48 + hi) as char
                } else {
                    (55 + hi) as char
                },
            );
            push_char(
                out,
                if lo < 10 {
                    (48 + lo) as char
                } else {
                    (55 + lo) as char
                },
            );
        }
        proof {
            assert(whole.take(i as int + 1).drop_last() =~= whole.take(i as int));
            assert(whole.take(i as int + 1).last() == b);
            assert(out@ =~= old(out)@ + form_encoded(whole.take(i as int + 1)));
        }
        i += 1;
    }
    proof {
        assert(whole.take(bs@.len() as int) =~= whole);
    }
}

/// An optional integer parameter: its key and value, or nothing.
pub open spec fn q_opt_u64(key: Seq<char>, v: Option<u64>) -> Seq<char> {
    match v {
        Some(n) => key + dec_spec(n as int),
        None => Seq::empty(),
    }
}

/// An optional string parameter: its key and form-encoded value, or nothing.
pub open spec fn q_opt_str(key: Seq<char>, v: Option<Seq<char>>) -> Seq<char> {
    match v {
        Some(s) => key + form_str(s),
        None => Seq::empty(),
    }
}

/// The full query string of a search specification: the keys in fixed order,
/// with only the present fields emitted.
pub open spec fn query_spec(q: SearchQueryV) -> Seq<char> {
    "gameId="@ + dec_spec(q.game_id as int) + q_opt_u64("&classId="@, q.class_id) + q_opt_u64(
        "&categoryId="@,
        q.category_id,
    ) + q_opt_str("&gameVersion="@, q.game_version) + q_opt_str("&searchFilter="@, q.search_filter)
        + q_opt_u64(
        "&sortField="@,
        match q.sort_field {
            Some(f) => Some(sort_field_code(f)),
            None => None,
        },
    ) + (match q.sort_order {
        Some(o) => "&sortOrder="@ + sort_order_code(o),
        None => Seq::empty(),
    }) + q_opt_u64(
        "&modLoaderType="@,
        match q.mod_loader_type {
            Some(t) => Some(mod_loader_code(t)),
            None => None,
        },
    ) + q_opt_u64("&gameVersionTypeId="@, q.game_version_type_id) + q_opt_str("&slug="@, q.slug)
        + "&index="@ + dec_spec(q.index as int) + q_opt_u64("&pageSize="@, q.page_size)
}

/// Appends an optional integer parameter.
fn push_opt_u64(out: &mut String, key: &str, v: &Option<u64>)
    ensures
        final(out)@ == old(out)@ + q_opt_u64(key@, *v),
{
    if let Some(n) = v {
        out.append(key);
        push_u64_dec(out, *n);
        proof {
            assert(out@ =~= old(out)@ + q_opt_u64(key@, Some(*n)));
        }
    } else {
        proof {
            assert(out@ =~= old(out)@ + q_opt_u64(key@, None));
        }
    }
}

/// Appends an optional string parameter, form-encoding the value.
fn push_opt_str(out: &mut String, key: &str, v: &Option<String>)
    ensures
        final(out)@ == old(out)@ + q_opt_str(key@, crate::json::opt_str_v(*v)),
{
    match v {
        Some(s) => {
            out.append(key);
            push_form_encoded(out, s.as_str());
            proof {
                assert(out@ =~= old(out)@ + q_opt_str(key@, Some(s@)));
            }
        },
        None => {
            proof {
                assert(out@ =~= old(out)@ + q_opt_str(key@, None));
            }
        },
    }
}

impl SearchQuery {
    /// Serializes the query to its URL query string: exact key names, fixed
    /// order, present fields only.
    pub fn to_query_string(&self) -> (r: String)
        ensures
            r@ == query_spec(self@),
    {
        let ghost q = self@;
        let mut out = String::new();
        out.append("gameId=");
        push_u64_dec(&mut out, self.game_id);
        proof {
            assert(out@ =~= "gameId="@ + dec_spec(q.game_id as int));
        }
        push_opt_u64(&mut out, "&classId=", &self.class_id);
        push_opt_u64(&mut out, "&categoryId=", &self.category_id);
        push_opt_str(&mut out, "&gameVersion=", &self.game_version);
        push_opt_str(&mut out, "&searchFilter=", &self.search_filter);
        let sort_field_code_opt = match &self.sort_field {
            Some(f) => Some(sort_field_wire(f)),
            None => None,
        };
        proof {
            assert(sort_field_code_opt == (match q.sort_field {
                Some(f) => Some(sort_field_code(f)),
                None => None,
            }));
        }
        push_opt_u64(&mut out, "&sortField=", &sort_field_code_opt);
        let ghost before_order = out@;
        if let Some(o) = &self.sort_order {
            out.append("&sortOrder=");
            out.append(sort_order_wire(o));
            proof {
                assert(out@ =~= before_order + ("&sortOrder="@ + sort_order_code(*o)));
            }
        }
        let loader_code_opt = match &self.mod_loader_type {
            Some(t) => Some(crate::common_structs::mod_loader_wire(t)),
            None => None,
        };
        proof {
            assert(loader_code_opt == (match q.mod_loader_type {
                Some(t) => Some(mod_loader_code(t)),
                None => None,
            }));
        }
        push_opt_u64(&mut out, "&modLoaderType=", &loader_code_opt);
        push_opt_u64(&mut out, "&gameVersionTypeId=", &self.game_version_type_id);
        push_opt_str(&mut out, "&slug=", &self.slug);
        out.append("&index=");
        push_u64_dec(&mut out, self.index);
        push_opt_u64(&mut out, "&pageSize=", &self.page_size);
        out
    }
}

/// The default query serializes to exactly `gameId=432&index=0`.
pub proof fn lemma_default_query_string()
    ensures
        query_spec(default_query()) == "gameId=432&index=0"@,
{
    reveal_strlit("gameId=");
    reveal_strlit("&index=");
    reveal_strlit("gameId=432&index=0");
    reveal_with_fuel(dec_spec, 4);
    assert(dec_spec(432) =~= seq![dec_digit(4), dec_digit(3), dec_digit(2)]) by {
        assert(dec_spec(432) == dec_spec(43).push(dec_digit(2)));
        assert(dec_spec(43) == dec_spec(4).push(dec_digit(3)));
        assert(dec_spec(4) == seq![dec_digit(4)]);
    }
    assert(dec_spec(0) == seq![dec_digit(0)]);
    assert(query_spec(default_query()) =~= "gameId=432&index=0"@);
}

/// Setting `sort_order` on the default query adds exactly `sortOrder=desc`.
pub proof fn lemma_sort_order_query_string()
    ensures
        query_spec(
            SearchQueryV { sort_order: Some(SortOrder::Desc), ..default_query() },
        ) == "gameId=432&sortOrder=desc&index=0"@,
{
    reveal_strlit("gameId=");
    reveal_strlit("&sortOrder=");
    reveal_strlit("desc");
    reveal_strlit("&index=");
    reveal_strlit("gameId=432&sortOrder=desc&index=0");
    reveal_with_fuel(dec_spec, 4);
    assert(dec_spec(432) =~= seq![dec_digit(4), dec_digit(3), dec_digit(2)]) by {
        assert(dec_spec(432) == dec_spec(43).push(dec_digit(2)));
        assert(dec_spec(43) == dec_spec(4).push(dec_digit(3)));
        assert(dec_spec(4) == seq![dec_digit(4)]);
    }
    assert(dec_spec(0) == seq![dec_digit(0)]);
    assert(query_spec(SearchQueryV { sort_order: Some(SortOrder::Desc), ..default_query() })
        =~= "gameId=432&sortOrder=desc&index=0"@);
}

} // verus!
