//! The parameter resolver: typed sort and order enumerations with their
//! case-insensitive parsers, lookup of query-string pairs, and the
//! resolution of a full search request with the documented defaults.

use crate::pages::parse_page_or_one;
use crate::pages::spec_parse_usize;
use crate::text::eq_ignore_ascii_case;
use crate::text::str_eq;
use crate::text::str_eq_ci;
use vstd::prelude::*;

verus! {

/// The field search results are sorted by.
#[derive(Clone, Copy, Debug, PartialEq, Eq, Structural)]
pub enum Sorting {
    Relevance,
    ReleasedAt,
    CreatedAt,
    Title,
    Pages,
}

/// The direction search results are returned in.
#[derive(Clone, Copy, Debug, PartialEq, Eq, Structural)]
pub enum Ordering {
    Asc,
    Desc,
}

/// Why a sort or order token was rejected.
#[derive(Clone, Copy, Debug, PartialEq, Eq, Structural)]
pub enum ParseError {
    /// The token names no known sort field.
    UnknownSorting,
    /// The token names no known sort direction.
    UnknownOrdering,
}

impl Default for Sorting {
    /// The sort field used when none is given: release date.
    fn default() -> (r: Self)
        ensures
            r == Sorting::ReleasedAt,
    {
        Sorting::ReleasedAt
    }
}

impl Default for Ordering {
    /// The direction used when none is given: descending.
    fn default() -> (r: Self)
        ensures
            r == Ordering::Desc,
    {
        Ordering::Desc
    }
}

/// The sort field a token denotes: a case-insensitive match against the
/// five known tokens; anything else denotes none.
pub open spec fn spec_parse_sorting(s: Seq<char>) -> Option<Sorting> {
    if eq_ignore_ascii_case(s, "relevance"@) {
        Some(Sorting::Relevance)
    } else if eq_ignore_ascii_case(s, "released_at"@) {
        Some(Sorting::ReleasedAt)
    } else if eq_ignore_ascii_case(s, "created_at"@) {
        Some(Sorting::CreatedAt)
    } else if eq_ignore_ascii_case(s, "title"@) {
        Some(Sorting::Title)
    } else if eq_ignore_ascii_case(s, "pages"@) {
        Some(Sorting::Pages)
    } else {
        None
    }
}

/// The direction a token denotes: a case-insensitive match against the two
/// known tokens; anything else denotes none.
pub open spec fn spec_parse_ordering(s: Seq<char>) -> Option<Ordering> {
    if eq_ignore_ascii_case(s, "asc"@) {
        Some(Ordering::Asc)
    } else if eq_ignore_ascii_case(s, "desc"@) {
        Some(Ordering::Desc)
    } else {
        None
    }
}

impl Sorting {
    /// Parse a sort token, case-insensitively; an unknown token is an error.
    pub fn from_str(s: &str) -> (r: Result<Sorting, ParseError>)
        ensures
            match spec_parse_sorting(s@) {
                Some(v) => r == Ok::<Sorting, ParseError>(v),
                None => r == Err::<Sorting, ParseError>(ParseError::UnknownSorting),
            },
    {
        if str_eq_ci(s, "relevance") {
            Ok(Sorting::Relevance)
        } else if str_eq_ci(s, "released_at") {
            Ok(Sorting::ReleasedAt)
        } else if str_eq_ci(s, "created_at") {
            Ok(Sorting::CreatedAt)
        } else if str_eq_ci(s, "title") {
            Ok(Sorting::Title)
        } else if str_eq_ci(s, "pages") {
            Ok(Sorting::Pages)
        } else {
            Err(ParseError::UnknownSorting)
        }
    }
}

impl Ordering {
    /// Parse an order token, case-insensitively; an unknown token is an error.
    pub fn from_str(s: &str) -> (r: Result<Ordering, ParseError>)
        ensures
            match spec_parse_ordering(s@) {
                Some(v) => r == Ok::<Ordering, ParseError>(v),
                None => r == Err::<Ordering, ParseError>(ParseError::UnknownOrdering),
            },
    {
        if str_eq_ci(s, "asc") {
            Ok(Ordering::Asc)
        } else if str_eq_ci(s, "desc") {
            Ok(Ordering::Desc)
        } else {
            Err(ParseError::UnknownOrdering)
        }
    }

    /// The SQL direction keyword for this ordering.
    pub fn as_str(&self) -> (r: &'static str)
        ensures
            *self == Ordering::Asc ==> r@ == "ASC"@,
            *self == Ordering::Desc ==> r@ == "DESC"@,
    {
        match self {
            Ordering::Asc => "ASC",
            Ordering::Desc => "DESC",
        }
    }
}

/// A resolved search request: free-text query, 1-based page number, sort
/// field and sort direction.
pub struct SearchQuery {
    pub value: String,
    pub page: usize,
    pub sort: Sorting,
    pub order: Ordering,
}

/// The value bound to `key` among the query-string pairs. When a key
/// repeats, the last occurrence wins, as collecting the pairs into a map
/// leaves it.
pub open spec fn spec_lookup(pairs: Seq<(String, String)>, key: Seq<char>) -> Option<Seq<char>>
    decreases pairs.len(),
{
    if pairs.len() == 0 {
        None
    } else if pairs.last().0@ == key {
        Some(pairs.last().1@)
    } else {
        spec_lookup(pairs.drop_last(), key)
    }
}

/// Find the value bound to `key`, scanning from the last pair backwards.
fn lookup<'a>(pairs: &'a Vec<(String, String)>, key: &str) -> (r: Option<&'a String>)
    ensures
        match r {
            Some(v) => spec_lookup(pairs@, key@) == Some(v@),
            None => spec_lookup(pairs@, key@) is None,
        },
{
    let n = pairs.len();
    proof {
        assert(pairs@.take(n as int) =~= pairs@);
    }
    let mut j: usize = n;
    while j > 0
        invariant
            j <= n,
            n == pairs@.len(),
            spec_lookup(pairs@, key@) == spec_lookup(pairs@.take(j as int), key@),
        decreases j,
    {
        j -= 1;
        let p = &pairs[j];
        proof {
            assert(pairs@.take(j + 1).drop_last() =~= pairs@.take(j as int));
            assert(pairs@.take(j + 1).last() == pairs@[j as int]);
        }
        if str_eq(p.0.as_str(), key) {
            return Some(&p.1);
        }
    }
    None
}

/// The resolved free-text query: the `q` parameter, or empty when missing.
pub open spec fn spec_resolved_value(pairs: Seq<(String, String)>) -> Seq<char> {
    match spec_lookup(pairs, "q"@) {
        Some(v) => v,
        None => Seq::empty(),
    }
}

/// The resolved page: the `page` parameter when it parses, 1 otherwise.
pub open spec fn spec_resolved_page(pairs: Seq<(String, String)>) -> int {
    match spec_lookup(pairs, "page"@) {
        Some(s) => match spec_parse_usize(s) {
            Some(v) => v,
            None => 1,
        },
        None => 1,
    }
}

/// The resolved sort field: the `sort` parameter when it names one, the
/// default (release date) otherwise.
pub open spec fn spec_resolved_sort(pairs: Seq<(String, String)>) -> Sorting {
    match spec_lookup(pairs, "sort"@) {
        Some(s) => match spec_parse_sorting(s) {
            Some(v) => v,
            None => Sorting::ReleasedAt,
        },
        None => Sorting::ReleasedAt,
    }
}

/// The resolved direction: the `order` parameter when it names one, the
/// default (descending) otherwise.
pub open spec fn spec_resolved_order(pairs: Seq<(String, String)>) -> Ordering {
    match spec_lookup(pairs, "order"@) {
        Some(s) => match spec_parse_ordering(s) {
            Some(v) => v,
            None => Ordering::Desc,
        },
        None => Ordering::Desc,
    }
}

/// Build the search request from raw query-string pairs, substituting the
/// documented default for every missing or malformed parameter: empty
/// query text, page 1, sort by release date, descending.
pub fn resolve_search_query(params: &Vec<(String, String)>) -> (q: SearchQuery)
    ensures
        q.value@ == spec_resolved_value(params@),
        q.page == spec_resolved_page(params@),
        q.sort == spec_resolved_sort(params@),
        q.order == spec_resolved_order(params@),
{
    let value = match lookup(params, "q") {
        Some(v) => v.clone(),
        None => String::new(),
    };
    let page = match lookup(params, "page") {
        Some(v) => parse_page_or_one(v.as_str()),
        None => 1,
    };
    let sort = match lookup(params, "sort") {
        Some(v) => match Sorting::from_str(v.as_str()) {
            Ok(s) => s,
            Err(_) => Sorting::default(),
        },
        None => Sorting::default(),
    };
    let order = match lookup(params, "order") {
        Some(v) => match Ordering::from_str(v.as_str()) {
            Ok(o) => o,
            Err(_) => Ordering::default(),
        },
        None => Ordering::default(),
    };
    SearchQuery { value, page, sort, order }
}

/// A query string with no `page` parameter resolves to page 1.
pub proof fn lemma_missing_page_defaults_to_one(pairs: Seq<(String, String)>)
    requires
        spec_lookup(pairs, "page"@) is None,
    ensures
        spec_resolved_page(pairs) == 1,
{
}

/// A `sort` value matching none of the five known tokens, case-insensitively,
/// resolves to the default sort field, release date.
pub proof fn lemma_unknown_sort_defaults(pairs: Seq<(String, String)>, s: Seq<char>)
    requires
        spec_lookup(pairs, "sort"@) == Some(s),
        spec_parse_sorting(s) is None,
    ensures
        spec_resolved_sort(pairs) == Sorting::ReleasedAt,
{
}

/// An `order` value matching neither known token, case-insensitively,
/// resolves to the default direction, descending.
pub proof fn lemma_unknown_order_defaults(pairs: Seq<(String, String)>, s: Seq<char>)
    requires
        spec_lookup(pairs, "order"@) == Some(s),
        spec_parse_ordering(s) is None,
    ensures
        spec_resolved_order(pairs) == Ordering::Desc,
{
}

} // verus!
