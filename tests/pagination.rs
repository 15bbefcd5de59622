use github_activity_check::pagination::{
    commit_count_from_link, count_from_response, link_count_of, parse_last_page, parse_rel_url,
    CountError,
};

const GITHUB_LINK: &str = "<https://api.github.com/repositories/1/commits?per_page=1&page=2>; rel=\"next\", <https://api.github.com/repositories/1/commits?per_page=1&page=37>; rel=\"last\"";

#[test]
fn last_page_is_read_from_the_last_relation() {
    assert_eq!(parse_last_page(GITHUB_LINK), Some(37));
    assert_eq!(parse_last_page("<https://x/c?page=5&per_page=1>; rel=\"last\""), Some(5));
}

#[test]
fn last_page_decides_the_count_whatever_the_body() {
    for body in ["[]", "[{\"sha\":\"a\"}]", "not json at all", "{\"x\":1}"] {
        assert_eq!(count_from_response(Some(GITHUB_LINK), body), Ok(37));
    }
}

#[test]
fn page_value_that_is_no_number_is_skipped() {
    assert_eq!(parse_last_page("<https://x/c?page=abc&page=9>; rel=\"last\""), Some(9));
    assert_eq!(parse_last_page("<https://x/c?page=+12>; rel=\"last\""), Some(12));
    assert_eq!(parse_last_page("<https://x/c?page=-1>; rel=\"last\""), None);
    assert_eq!(parse_last_page("<https://x/c?page=99999999999999999999999>; rel=\"last\""), None);
    assert_eq!(parse_last_page("<https://x/c?per_page=1>; rel=\"last\""), None);
}

#[test]
fn malformed_last_segment_gives_no_page() {
    assert_eq!(parse_last_page("https://x/c?page=3; rel=\"last\""), None);
    assert_eq!(parse_last_page("<https://x/c>; rel=\"last\""), None);
    assert_eq!(parse_last_page("> <https://x/c?page=3; rel=\"last\""), None);
    assert_eq!(
        parse_last_page("<https://x/c>; rel=\"last\", <https://x/c?page=3>; rel=\"last\""),
        None
    );
    assert_eq!(parse_last_page(""), None);
}

#[test]
fn segments_without_the_last_mark_are_passed_over() {
    assert_eq!(parse_last_page("<https://x/c?page=2>; rel=\"next\""), None);
    assert_eq!(
        parse_last_page("<https://x/c?page=2>; rel=\"next\",   <https://x/c?page=8>; rel=\"last\"  "),
        Some(8)
    );
}

#[test]
fn relation_url_is_the_bracketed_text() {
    assert_eq!(
        parse_rel_url(GITHUB_LINK, "next"),
        Some("https://api.github.com/repositories/1/commits?per_page=1&page=2".to_string())
    );
    assert_eq!(
        parse_rel_url(GITHUB_LINK, "last"),
        Some("https://api.github.com/repositories/1/commits?per_page=1&page=37".to_string())
    );
    assert_eq!(parse_rel_url(GITHUB_LINK, "prev"), None);
    assert_eq!(parse_rel_url("<a>; rel=\"next\" ", "next"), Some("a".to_string()));
    assert_eq!(parse_rel_url("a; rel=\"next\"", "next"), None);
    assert_eq!(parse_rel_url("<a>; rel=\"next\"; x=1", "next"), None);
}

#[test]
fn next_relation_alone_means_at_least_two() {
    let link = "<https://x/c?page=2>; rel=\"next\"";
    assert_eq!(count_from_response(Some(link), "[]"), Ok(2));
    assert_eq!(count_from_response(Some(link), "garbage"), Ok(2));
}

#[test]
fn without_relations_the_body_is_counted() {
    assert_eq!(count_from_response(None, "[]"), Ok(0));
    assert_eq!(count_from_response(None, "[{\"sha\":\"abc\"}]"), Ok(1));
    assert_eq!(count_from_response(None, " [1, 2, 3] "), Ok(3));
    assert_eq!(count_from_response(None, "{\"message\":\"x\"}"), Ok(0));
    assert_eq!(count_from_response(Some(""), "[1]"), Ok(1));
    assert_eq!(count_from_response(Some("<a>; rel=\"prev\""), "[1]"), Ok(1));
}

#[test]
fn body_that_is_not_json_fails_when_it_is_needed() {
    assert_eq!(count_from_response(None, "not json"), Err(CountError::InvalidJson));
    assert_eq!(count_from_response(None, ""), Err(CountError::InvalidJson));
}

#[test]
fn commit_count_falls_back_to_search_when_inconclusive() {
    assert_eq!(commit_count_from_link(37), Some(37));
    assert_eq!(commit_count_from_link(2), Some(2));
    assert_eq!(commit_count_from_link(1), None);
    assert_eq!(commit_count_from_link(0), None);
}

#[test]
fn header_alone_gives_last_page_then_lower_bound() {
    assert_eq!(link_count_of(GITHUB_LINK), Some(37));
    assert_eq!(link_count_of("<https://x/c?page=2>; rel=\"next\""), Some(2));
    assert_eq!(link_count_of("<https://x/c?page=1>; rel=\"prev\""), None);
    assert_eq!(link_count_of("<https://x/c>; rel=\"last\", <https://x/c?page=2>; rel=\"next\""), Some(2));
}
