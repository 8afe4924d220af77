use code_review_bot::error::{Error, UrlParseError};
use code_review_bot::links::{paginate, LinkValue, PaginatedResource, RelationType};

const BASE: &str = "https://api.github.com/user/repos";

fn link(url: &str, rels: Vec<RelationType>) -> LinkValue {
    LinkValue { link: url.to_string(), rel: Some(rels) }
}

#[test]
fn cursors_reappended_to_base_reproduce_urls() {
    let links = vec![
        link("https://api.github.com/user/repos?page=3&sort=updated", vec![RelationType::Next]),
        link("https://api.github.com/user/repos?page=1&sort=updated", vec![RelationType::Prev]),
        link("https://api.github.com/user/repos?page=1&sort=updated", vec![RelationType::First]),
        link("https://api.github.com/user/repos?page=9&sort=updated", vec![RelationType::Last]),
    ];
    let page = PaginatedResource::new(vec![1u8, 2, 3], &links).unwrap();
    assert_eq!(page.resources, vec![1u8, 2, 3]);
    assert_eq!(page.next().unwrap(), "?page=3&sort=updated");
    assert_eq!(page.prev().unwrap(), "?page=1&sort=updated");
    assert_eq!(page.first().unwrap(), "?page=1&sort=updated");
    assert_eq!(page.last().unwrap(), "?page=9&sort=updated");
    for (cursor, original) in [
        (page.next(), &links[0].link),
        (page.prev(), &links[1].link),
        (page.first(), &links[2].link),
        (page.last(), &links[3].link),
    ] {
        assert_eq!(format!("{}{}", BASE, cursor.unwrap()), *original);
    }
    assert_eq!(page.next.as_ref().unwrap().base, BASE);
}

#[test]
fn later_link_wins_and_unknown_relations_are_ignored() {
    let links = vec![
        link("https://example.com/a?page=2", vec![RelationType::Next]),
        link("https://example.com/a?page=5", vec![RelationType::Next, RelationType::Last]),
        link("https://example.com/a?page=7", vec![RelationType::Other]),
        LinkValue { link: "not a url".to_string(), rel: None },
    ];
    let page = PaginatedResource::new(Vec::<u8>::new(), &links).unwrap();
    assert_eq!(page.next().unwrap(), "?page=5");
    assert_eq!(page.last().unwrap(), "?page=5");
    assert!(page.prev().is_none());
    assert!(page.first().is_none());
}

#[test]
fn malformed_link_is_an_error() {
    let links = vec![link("not a url", vec![RelationType::Next])];
    let page = PaginatedResource::new(Vec::<u8>::new(), &links);
    assert!(matches!(page, Err(UrlParseError::Parse(_))));
}

#[test]
fn url_without_query_gives_no_cursor() {
    let links = vec![link("https://example.com/a", vec![RelationType::Next])];
    let page = PaginatedResource::new(Vec::<u8>::new(), &links).unwrap();
    assert!(page.next.is_some());
    assert!(page.next().is_none());
}

#[test]
fn link_header_is_parsed() {
    let header = "<https://api.github.com/user/repos?page=2>; rel=\"next\", <https://api.github.com/user/repos?page=4>; rel=\"last\"";
    let page = paginate(vec![7u8], Some(header)).unwrap();
    assert_eq!(page.next().unwrap(), "?page=2");
    assert_eq!(page.last().unwrap(), "?page=4");
    assert!(page.prev().is_none());
}

#[test]
fn no_link_header_gives_no_cursors() {
    let page = paginate(vec![7u8], None).unwrap();
    assert!(page.next().is_none() && page.prev().is_none() && page.first().is_none() && page.last().is_none());
}

#[test]
fn bad_link_header_is_a_server_error() {
    let page = paginate(vec![7u8], Some("no angle brackets here"));
    assert!(matches!(page, Err(Error::ServerError(_))));
}
