use code_review_bot::error::UrlParseError;
use code_review_bot::links::ReviewRequest;

#[test]
fn test_parse_url_sucess() {
    let repo: ReviewRequest = "http://github.com/facebook/react/pulls/1234"
        .parse()
        .expect("Can't parse url");
    assert_eq!(repo.id, "1234");
    assert_eq!(repo.owner, "facebook");
    assert_eq!(repo.name, "react");
}

#[test]
fn test_parse_url_failure() {
    let repo = "totally invalid url".parse::<ReviewRequest>();
    assert!(repo.is_err(), "Should not parse")
}

#[test]
fn parse_url_with_too_few_segments_is_missing_segment() {
    let repo = ReviewRequest::parse_url("http://github.com/facebook/react");
    assert!(matches!(repo, Err(UrlParseError::MissingSegment)));
}

#[test]
fn parse_url_without_path_segments_is_missing_segment() {
    let repo = ReviewRequest::parse_url("mailto:someone@example.com");
    assert!(matches!(repo, Err(UrlParseError::MissingSegment)));
}

#[test]
fn parse_url_not_a_url_is_parse_error() {
    let repo = ReviewRequest::parse_url("github.com/facebook/react/pulls/1");
    assert!(matches!(repo, Err(UrlParseError::Parse(_))));
}
