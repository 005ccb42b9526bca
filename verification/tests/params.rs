use archive_api::params::Ordering;
use archive_api::params::ParseError;
use archive_api::params::SearchQuery;
use archive_api::params::Sorting;
use archive_api::params::resolve_search_query;

fn pairs(kv: &[(&str, &str)]) -> Vec<(String, String)> {
    kv.iter().map(|(k, v)| (k.to_string(), v.to_string())).collect()
}

#[test]
fn sorting_tokens_parse() {
    assert_eq!(Sorting::from_str("relevance"), Ok(Sorting::Relevance));
    assert_eq!(Sorting::from_str("released_at"), Ok(Sorting::ReleasedAt));
    assert_eq!(Sorting::from_str("created_at"), Ok(Sorting::CreatedAt));
    assert_eq!(Sorting::from_str("title"), Ok(Sorting::Title));
    assert_eq!(Sorting::from_str("pages"), Ok(Sorting::Pages));
}

#[test]
fn sorting_tokens_parse_case_insensitively() {
    assert_eq!(Sorting::from_str("RELEVANCE"), Ok(Sorting::Relevance));
    assert_eq!(Sorting::from_str("Released_At"), Ok(Sorting::ReleasedAt));
    assert_eq!(Sorting::from_str("tItLe"), Ok(Sorting::Title));
}

#[test]
fn unknown_sorting_token_is_an_error() {
    assert_eq!(Sorting::from_str("newest"), Err(ParseError::UnknownSorting));
    assert_eq!(Sorting::from_str(""), Err(ParseError::UnknownSorting));
    assert_eq!(Sorting::from_str("released-at"), Err(ParseError::UnknownSorting));
    assert_eq!(Sorting::from_str("titles"), Err(ParseError::UnknownSorting));
}

#[test]
fn ordering_tokens_parse() {
    assert_eq!(Ordering::from_str("asc"), Ok(Ordering::Asc));
    assert_eq!(Ordering::from_str("desc"), Ok(Ordering::Desc));
    assert_eq!(Ordering::from_str("ASC"), Ok(Ordering::Asc));
    assert_eq!(Ordering::from_str("Desc"), Ok(Ordering::Desc));
}

#[test]
fn unknown_ordering_token_is_an_error() {
    assert_eq!(Ordering::from_str("ascending"), Err(ParseError::UnknownOrdering));
    assert_eq!(Ordering::from_str(""), Err(ParseError::UnknownOrdering));
    assert_eq!(Ordering::from_str("down"), Err(ParseError::UnknownOrdering));
}

#[test]
fn ordering_sql_keywords() {
    assert_eq!(Ordering::Asc.as_str(), "ASC");
    assert_eq!(Ordering::Desc.as_str(), "DESC");
}

#[test]
fn defaults_are_release_date_descending() {
    assert_eq!(Sorting::default(), Sorting::ReleasedAt);
    assert_eq!(Ordering::default(), Ordering::Desc);
}

#[test]
fn no_parameters_resolve_to_defaults() {
    let q: SearchQuery = resolve_search_query(&Vec::new());
    assert_eq!(q.value, "");
    assert_eq!(q.page, 1);
    assert_eq!(q.sort, Sorting::ReleasedAt);
    assert_eq!(q.order, Ordering::Desc);
}

#[test]
fn all_parameters_resolve() {
    let q = resolve_search_query(&pairs(&[
        ("q", "sea stories"),
        ("page", "3"),
        ("sort", "title"),
        ("order", "asc"),
    ]));
    assert_eq!(q.value, "sea stories");
    assert_eq!(q.page, 3);
    assert_eq!(q.sort, Sorting::Title);
    assert_eq!(q.order, Ordering::Asc);
}

#[test]
fn missing_page_resolves_to_one() {
    let q = resolve_search_query(&pairs(&[("q", "whales"), ("sort", "pages")]));
    assert_eq!(q.page, 1);
}

#[test]
fn unparsable_page_resolves_to_one() {
    let q = resolve_search_query(&pairs(&[("page", "two")]));
    assert_eq!(q.page, 1);
}

#[test]
fn unknown_sort_resolves_to_default() {
    let q = resolve_search_query(&pairs(&[("sort", "shelf")]));
    assert_eq!(q.sort, Sorting::ReleasedAt);
}

#[test]
fn unknown_order_resolves_to_default() {
    let q = resolve_search_query(&pairs(&[("order", "sideways")]));
    assert_eq!(q.order, Ordering::Desc);
}

#[test]
fn repeated_key_takes_last_occurrence() {
    let q = resolve_search_query(&pairs(&[("page", "2"), ("page", "5")]));
    assert_eq!(q.page, 5);
    let q = resolve_search_query(&pairs(&[("sort", "title"), ("sort", "pages")]));
    assert_eq!(q.sort, Sorting::Pages);
}

#[test]
fn query_value_is_kept_verbatim() {
    let q = resolve_search_query(&pairs(&[("q", "MOBY Dick")]));
    assert_eq!(q.value, "MOBY Dick");
}
