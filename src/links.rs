use vstd::prelude::*;
use vstd::string::*;

use crate::error::UrlParseError;
use crate::text::owned;

verus! {

/// A URL as the URL parser reads it.
pub struct UrlView {
    pub serialization: Seq<char>,
    /// The serialization up to the end of the path.
    pub base: Seq<char>,
    pub query: Option<Seq<char>>,
    pub fragment: Option<Seq<char>>,
    pub segments: Option<Seq<Seq<char>>>,
}

pub open spec fn marked(mark: char, part: Option<Seq<char>>) -> Seq<char> {
    match part {
        Some(p) => seq![mark] + p,
        None => Seq::empty(),
    }
}

impl UrlView {
    /// The serialization is the part up to the path, then `?query`, then `#fragment`.
    pub open spec fn framed(self) -> bool {
        self.serialization == self.base + marked('?', self.query) + marked('#', self.fragment)
    }
}

/// The parts of a parsed URL that this library reads.
#[derive(Debug)]
pub struct UrlParts {
    pub serialization: String,
    pub base: String,
    pub query: Option<String>,
    pub fragment: Option<String>,
    pub segments: Option<Vec<String>>,
}

impl View for UrlParts {
    type V = UrlView;

    open spec fn view(&self) -> UrlView {
        UrlView {
            serialization: self.serialization@,
            base: self.base@,
            query: crate::text::opt_chars(self.query),
            fragment: crate::text::opt_chars(self.fragment),
            segments: match self.segments {
                Some(v) => Some(crate::text::all_chars(v@)),
                None => None,
            },
        }
    }
}

/// What `url::Url::parse` makes of a text: `None` where it refuses it.
pub uninterp spec fn parsed_url_of(s: Seq<char>) -> Option<UrlView>;

/// Relies on `url::Url::parse`, and on `as_str`, `query`, `fragment`,
/// `path_segments` and slicing up to `Position::AfterPath` of the URL it
/// gives; the serialization is the part up to the path, `?` and the query,
/// `#` and the fragment.
#[verifier::external_body]
pub(crate) fn parse_url(s: &str) -> (r: Result<UrlParts, url::ParseError>)
    ensures
        r is Ok ==> parsed_url_of(s@) == Some(r->Ok_0@) && r->Ok_0@.framed(),
        r is Err ==> parsed_url_of(s@) is None,
{
    url::Url::parse(s).map(|u| UrlParts {
        serialization: u.as_str().to_owned(),
        base: u[..url::Position::AfterPath].to_owned(),
        query: u.query().map(|q| q.to_owned()),
        fragment: u.fragment().map(|f| f.to_owned()),
        segments: u.path_segments().map(|p| p.map(|x| x.to_owned()).collect()),
    })
}

/// Which pull request a `/review <url>` command names: a URL of the form
/// `scheme://host/owner/name/pulls/id`.
#[derive(Debug)]
pub struct ReviewRequest {
    pub owner: String,
    pub name: String,
    pub id: String,
}

impl ReviewRequest {
    /// Reads owner, repository name and number from the first, second and
    /// fourth path segments of a URL.
    pub fn parse_url(s: &str) -> (r: Result<ReviewRequest, UrlParseError>)
        ensures
            parsed_url_of(s@) is None <==> (r is Err && r->Err_0 is Parse),
            parsed_url_of(s@) is Some ==> match parsed_url_of(s@)->Some_0.segments {
                None => r is Err && r->Err_0 is MissingSegment,
                Some(seg) => if seg.len() < 4 {
                    r is Err && r->Err_0 is MissingSegment
                } else {
                    r is Ok && r->Ok_0.owner@ == seg[0] && r->Ok_0.name@ == seg[1]
                        && r->Ok_0.id@ == seg[3]
                },
            },
    {
        let u = match parse_url(s) {
            Ok(u) => u,
            Err(e) => {
                return Err(UrlParseError::Parse(e));
            },
        };
        match u.segments {
            None => Err(UrlParseError::MissingSegment),
            Some(seg) => {
                if seg.len() < 4 {
                    Err(UrlParseError::MissingSegment)
                } else {
                    Ok(
                        ReviewRequest {
                            owner: owned(seg[0].as_str()),
                            name: owned(seg[1].as_str()),
                            id: owned(seg[3].as_str()),
                        },
                    )
                }
            },
        }
    }
}

impl std::str::FromStr for ReviewRequest {
    type Err = UrlParseError;

    fn from_str(s: &str) -> Result<ReviewRequest, UrlParseError> {
        ReviewRequest::parse_url(s)
    }
}

/// The relation types of a link that the pagination reads; all others are `Other`.
#[derive(Clone, Copy, Debug, PartialEq, Eq, Structural)]
pub enum RelationType {
    Next,
    Prev,
    First,
    Last,
    Other,
}

/// One value of a web-linking header: a URL and its relation types.
#[derive(Debug)]
pub struct LinkValue {
    pub link: String,
    pub rel: Option<Vec<RelationType>>,
}

pub struct LinkView {
    pub link: Seq<char>,
    pub rel: Option<Seq<RelationType>>,
}

impl View for LinkValue {
    type V = LinkView;

    open spec fn view(&self) -> LinkView {
        LinkView {
            link: self.link@,
            rel: match self.rel {
                Some(v) => Some(v@),
                None => None,
            },
        }
    }
}

/// What `hyperx`'s `Link::from_str` reads from a header value: `None` where it refuses it.
pub uninterp spec fn link_header_of(s: Seq<char>) -> Option<Seq<LinkView>>;

/// Relies on `hyperx::header::Link::from_str`, with `values`, `link` and `rel`
/// of what it parses; relation types past the four of pagination are `Other`,
/// and a header it refuses gives `None`.
#[verifier::external_body]
fn parse_link_header(s: &str) -> (r: Option<Vec<LinkValue>>)
    ensures
        r is Some ==> link_header_of(s@) == Some(r->Some_0@.map_values(|l: LinkValue| l@)),
        r is None ==> link_header_of(s@) is None,
{
    <hyperx::header::Link as std::str::FromStr>::from_str(s).map(|h| h.values().iter().map(|v| LinkValue {
        link: v.link().to_owned(),
        rel: v.rel().map(|rs| rs.iter().map(|r| match r {
            hyperx::header::RelationType::Next => RelationType::Next,
            hyperx::header::RelationType::Prev => RelationType::Prev,
            hyperx::header::RelationType::First => RelationType::First,
            hyperx::header::RelationType::Last => RelationType::Last,
            _ => RelationType::Other,
        }).collect()),
    }).collect()).ok()
}

/// Every link that carries relation types has a URL that parses.
pub open spec fn links_parse(links: Seq<LinkView>) -> bool {
    forall|i: int|
        0 <= i < links.len() && (#[trigger] links[i]).rel is Some ==> parsed_url_of(
            links[i].link,
        ) is Some
}

/// The URL of the last link that carries the relation type, if any does.
pub open spec fn last_link_for(links: Seq<LinkView>, rel: RelationType) -> Option<UrlView>
    decreases links.len(),
{
    if links.len() == 0 {
        None
    } else {
        let l = links.last();
        if l.rel is Some && l.rel->Some_0.contains(rel) {
            parsed_url_of(l.link)
        } else {
            last_link_for(links.drop_last(), rel)
        }
    }
}

/// `?query` of a URL that has a query.
pub open spec fn cursor_of(u: Option<UrlView>) -> Option<Seq<char>> {
    match u {
        Some(v) => match v.query {
            Some(q) => Some(seq!['?'] + q),
            None => None,
        },
        None => None,
    }
}

pub open spec fn slot_view(u: Option<UrlParts>) -> Option<UrlView> {
    match u {
        Some(v) => Some(v@),
        None => None,
    }
}

/// A page of resources with the cursors to its neighbouring pages.
#[derive(Debug)]
pub struct PaginatedResource<T> {
    pub resources: Vec<T>,
    pub next: Option<UrlParts>,
    pub prev: Option<UrlParts>,
    pub first: Option<UrlParts>,
    pub last: Option<UrlParts>,
}

pub open spec fn slot_framed(u: Option<UrlParts>) -> bool {
    u is Some ==> u->Some_0@.framed()
}

/// The URL and the cursor of a page are related as a caller re-appending
/// the cursor to the base URL expects.
pub open spec fn round_trips(u: Option<UrlParts>, cursor: Option<Seq<char>>) -> bool {
    u is Some && u->Some_0@.query is Some && u->Some_0@.fragment is None ==> cursor is Some
        && u->Some_0@.base + cursor->Some_0 == u->Some_0@.serialization
}

impl<T> PaginatedResource<T> {
    /// Every cursor held came from the URL parser.
    pub open spec fn wf(&self) -> bool {
        slot_framed(self.next) && slot_framed(self.prev) && slot_framed(self.first) && slot_framed(
            self.last,
        )
    }

    /// Assigns each link to the slots of its relation types; a later link
    /// replaces an earlier one, links without relation types are passed
    /// over, and a link of a relation type whose URL does not parse fails
    /// the whole page.
    pub fn new(resources: Vec<T>, link_values: &[LinkValue]) -> (r: Result<Self, UrlParseError>)
        ensures
            r is Ok <==> links_parse(link_values@.map_values(|l: LinkValue| l@)),
            r is Err ==> r->Err_0 is Parse,
            r is Ok ==> ({
                let links = link_values@.map_values(|l: LinkValue| l@);
                let p = r->Ok_0;
                &&& p.resources == resources
                &&& p.wf()
                &&& slot_view(p.next) == last_link_for(links, RelationType::Next)
                &&& slot_view(p.prev) == last_link_for(links, RelationType::Prev)
                &&& slot_view(p.first) == last_link_for(links, RelationType::First)
                &&& slot_view(p.last) == last_link_for(links, RelationType::Last)
            }),
    {
        let ghost links = link_values@.map_values(|l: LinkValue| l@);
        let mut next: Option<UrlParts> = None;
        let mut prev: Option<UrlParts> = None;
        let mut first: Option<UrlParts> = None;
        let mut last: Option<UrlParts> = None;
        let mut i: usize = 0;
        while i < link_values.len()
            invariant
                i <= link_values@.len(),
                links == link_values@.map_values(|l: LinkValue| l@),
                links_parse(links.subrange(0, i as int)),
                slot_framed(next) && slot_framed(prev) && slot_framed(first) && slot_framed(last),
                slot_view(next) == last_link_for(links.subrange(0, i as int), RelationType::Next),
                slot_view(prev) == last_link_for(links.subrange(0, i as int), RelationType::Prev),
                slot_view(first) == last_link_for(links.subrange(0, i as int), RelationType::First),
                slot_view(last) == last_link_for(links.subrange(0, i as int), RelationType::Last),
            decreases link_values@.len() - i,
        {
            let value = &link_values[i];
            let ghost pre = links.subrange(0, i as int);
            let ghost post = links.subrange(0, i + 1);
            assert(post.drop_last() =~= pre);
            assert(post.last() == value@);
            match &value.rel {
                None => {
                    assert(links_parse(post)) by {
                        assert forall|k: int|
                            0 <= k < post.len() && (#[trigger] post[k]).rel is Some implies parsed_url_of(
                            post[k].link,
                        ) is Some by {
                            if k < i {
                                assert(post[k] == pre[k]);
                            }
                        }
                    }
                },
                Some(rels) => {
                    let ghost rels_view = rels@;
                    assert(value@.rel == Some(rels_view));
                    let found = parse_url(value.link.as_str());
                    match found {
                        Err(e) => {
                            assert(!links_parse(link_values@.map_values(|l: LinkValue| l@))) by {
                                assert(links[i as int] == value@);
                            }
                            return Err(UrlParseError::Parse(e));
                        },
                        Ok(_) => {},
                    }
                    assert(links_parse(post)) by {
                        assert forall|k: int|
                            0 <= k < post.len() && (#[trigger] post[k]).rel is Some implies parsed_url_of(
                            post[k].link,
                        ) is Some by {
                            if k < i {
                                assert(post[k] == pre[k]);
                            }
                        }
                    }
                    let mut j: usize = 0;
                    let ghost n0 = slot_view(next);
                    let ghost p0 = slot_view(prev);
                    let ghost f0 = slot_view(first);
                    let ghost l0 = slot_view(last);
                    while j < rels.len()
                        invariant
                            j <= rels@.len(),
                            rels@ == rels_view,
                            parsed_url_of(value@.link) is Some,
                            parsed_url_of(value@.link)->Some_0.framed(),
                            slot_framed(next) && slot_framed(prev) && slot_framed(first)
                                && slot_framed(last),
                            slot_view(next) == (if rels_view.subrange(0, j as int).contains(
                                RelationType::Next,
                            ) {
                                parsed_url_of(value@.link)
                            } else {
                                n0
                            }),
                            slot_view(prev) == (if rels_view.subrange(0, j as int).contains(
                                RelationType::Prev,
                            ) {
                                parsed_url_of(value@.link)
                            } else {
                                p0
                            }),
                            slot_view(first) == (if rels_view.subrange(0, j as int).contains(
                                RelationType::First,
                            ) {
                                parsed_url_of(value@.link)
                            } else {
                                f0
                            }),
                            slot_view(last) == (if rels_view.subrange(0, j as int).contains(
                                RelationType::Last,
                            ) {
                                parsed_url_of(value@.link)
                            } else {
                                l0
                            }),
                        decreases rels@.len() - j,
                    {
                        let rel = rels[j];
                        proof {
                            let a = rels_view.subrange(0, j as int);
                            let b = rels_view.subrange(0, j + 1);
                            assert(b =~= a.push(rel));
                            assert forall|t: RelationType| b.contains(t) <==> (a.contains(t) || t == rel) by {
                                if a.contains(t) {
                                    let k = choose|k: int| 0 <= k < a.len() && a[k] == t;
                                    assert(b[k] == t);
                                }
                                if t == rel {
                                    assert(b[j as int] == t);
                                }
                                if b.contains(t) && t != rel {
                                    let k = choose|k: int| 0 <= k < b.len() && b[k] == t;
                                    assert(k < j);
                                    assert(a[k] == t);
                                }
                            }
                        }
                        match rel {
                            RelationType::Next => {
                                next = Some(parse_url_again(value.link.as_str()));
                            },
                            RelationType::Prev => {
                                prev = Some(parse_url_again(value.link.as_str()));
                            },
                            RelationType::First => {
                                first = Some(parse_url_again(value.link.as_str()));
                            },
                            RelationType::Last => {
                                last = Some(parse_url_again(value.link.as_str()));
                            },
                            RelationType::Other => {},
                        }
                        j = j + 1;
                    }
                    assert(rels_view.subrange(0, rels_view.len() as int) =~= rels_view);
                },
            }
            i = i + 1;
        }
        assert(links.subrange(0, link_values@.len() as int) =~= links);
        Ok(PaginatedResource { resources, next, prev, first, last })
    }

    /// `?query` of the next page's URL.
    pub fn next(&self) -> (r: Option<String>)
        ensures
            crate::text::opt_chars(r) == cursor_of(slot_view(self.next)),
    {
        cursor(&self.next)
    }

    /// `?query` of the previous page's URL.
    pub fn prev(&self) -> (r: Option<String>)
        ensures
            crate::text::opt_chars(r) == cursor_of(slot_view(self.prev)),
    {
        cursor(&self.prev)
    }

    /// `?query` of the first page's URL.
    pub fn first(&self) -> (r: Option<String>)
        ensures
            crate::text::opt_chars(r) == cursor_of(slot_view(self.first)),
    {
        cursor(&self.first)
    }

    /// `?query` of the last page's URL.
    pub fn last(&self) -> (r: Option<String>)
        ensures
            crate::text::opt_chars(r) == cursor_of(slot_view(self.last)),
    {
        cursor(&self.last)
    }
}

/// A URL known to parse, parsed once more to fill one more slot.
fn parse_url_again(s: &str) -> (r: UrlParts)
    requires
        parsed_url_of(s@) is Some,
    ensures
        Some(r@) == parsed_url_of(s@),
        r@.framed(),
{
    match parse_url(s) {
        Ok(u) => u,
        Err(_) => {
            proof {
                assert(false);
            }
            UrlParts {
                serialization: String::new(),
                base: String::new(),
                query: None,
                fragment: None,
                segments: None,
            }
        },
    }
}

fn cursor(u: &Option<UrlParts>) -> (r: Option<String>)
    ensures
        crate::text::opt_chars(r) == cursor_of(slot_view(*u)),
{
    match u {
        Some(v) => match &v.query {
            Some(q) => {
                let mut r = owned("?");
                proof {
                    reveal_strlit("?");
                }
                r.append(q.as_str());
                Some(r)
            },
            None => None,
        },
        None => None,
    }
}

/// Reading a page's cursors: for each of next, prev, first and last, the
/// base URL followed by the cursor that the page hands out is the URL that the
/// link header gave, wherever that URL has a query and no fragment.
pub proof fn lemma_cursor_round_trip<T>(p: PaginatedResource<T>)
    requires
        p.wf(),
    ensures
        round_trips(p.next, cursor_of(slot_view(p.next))),
        round_trips(p.prev, cursor_of(slot_view(p.prev))),
        round_trips(p.first, cursor_of(slot_view(p.first))),
        round_trips(p.last, cursor_of(slot_view(p.last))),
{
    lemma_slot_round_trip(p.next);
    lemma_slot_round_trip(p.prev);
    lemma_slot_round_trip(p.first);
    lemma_slot_round_trip(p.last);
}

proof fn lemma_slot_round_trip(u: Option<UrlParts>)
    requires
        slot_framed(u),
    ensures
        round_trips(u, cursor_of(slot_view(u))),
{
    if u is Some && u->Some_0@.query is Some && u->Some_0@.fragment is None {
        let v = u->Some_0@;
        assert(marked('#', v.fragment) =~= Seq::<char>::empty());
        assert(v.base + marked('?', v.query) + marked('#', v.fragment) =~= v.base + marked('?', v.query));
    }
}

/// Builds a page from the resources and the raw link header, if any came.
pub fn paginate<T>(resources: Vec<T>, link_header: Option<&str>) -> (r: Result<PaginatedResource<T>, crate::error::Error>)
    ensures
        link_header is None ==> r is Ok && r->Ok_0.resources == resources && r->Ok_0.next is None
            && r->Ok_0.prev is None && r->Ok_0.first is None && r->Ok_0.last is None,
        link_header is Some && link_header_of(link_header->Some_0@) is None ==> r is Err
            && r->Err_0 is ServerError,
        link_header is Some && link_header_of(link_header->Some_0@) is Some ==> ({
            let links = link_header_of(link_header->Some_0@)->Some_0;
            &&& r is Ok <==> links_parse(links)
            &&& r is Err ==> r->Err_0 is UrlParseError
            &&& r is Ok ==> r->Ok_0.resources == resources && r->Ok_0.wf() && slot_view(
                r->Ok_0.next,
            ) == last_link_for(links, RelationType::Next) && slot_view(r->Ok_0.prev)
                == last_link_for(links, RelationType::Prev) && slot_view(r->Ok_0.first)
                == last_link_for(links, RelationType::First) && slot_view(r->Ok_0.last)
                == last_link_for(links, RelationType::Last)
        }),
{
    match link_header {
        None => {
            let empty: Vec<LinkValue> = Vec::new();
            let r = PaginatedResource::new(resources, empty.as_slice());
            proof {
                assert(empty@.map_values(|l: LinkValue| l@) =~= Seq::<LinkView>::empty());
            }
            match r {
                Ok(p) => Ok(p),
                Err(e) => Err(crate::error::Error::UrlParseError(e)),
            }
        },
        Some(h) => match parse_link_header(h) {
            None => Err(crate::error::Error::ServerError(owned("header error"))),
            Some(values) => match PaginatedResource::new(resources, values.as_slice()) {
                Ok(p) => Ok(p),
                Err(e) => Err(crate::error::Error::UrlParseError(e)),
            },
        },
    }
}

/// The page asked for in a listing request.
#[derive(Debug)]
pub struct PaginationParams {
    pub page: Option<String>,
}

} // verus!
