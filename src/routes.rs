//! The route table and the replies of the pages the server writes itself.
use vstd::prelude::*;

verus! {

/// The URL path of the index page.
pub const INDEX_PATH: &'static str = "/";

/// The URL path of the liveness check.
pub const HEALTH_PATH: &'static str = "/health";

/// The URL prefix under which the asset directory is served.
pub const ASSETS_PATH: &'static str = "/assets";

/// The directory, relative to the working directory, whose files are served.
pub const ASSETS_DIR: &'static str = "assets";

/// The URL path of the site icon.
pub const FAVICON_PATH: &'static str = "/favicon.ico";

/// The file served as the site icon.
pub const FAVICON_FILE: &'static str = "assets/favicon.ico";

/// What answers the requests under a route.
#[derive(Clone, Debug)]
pub enum Mount {
    /// The rendered index page.
    Index,
    /// The liveness check.
    Health,
    /// The files of a directory, by the rest of the path; no listing.
    Directory(String),
    /// One fixed file.
    File(String),
}

/// One entry of the route table: requests with `GET` on `path` (and, for a
/// directory, below it) go to `mount`.
#[derive(Clone, Debug)]
pub struct Route {
    pub path: String,
    pub mount: Mount,
}

/// The media type of a reply's body.
#[derive(Clone, Copy, Debug, PartialEq, Eq, Structural)]
pub enum ContentType {
    Html,
    PlainText,
}

impl ContentType {
    /// The value of the `content-type` header.
    pub fn header_value(&self) -> (r: &'static str)
        ensures
            r@ == match self {
                ContentType::Html => "text/html; charset=utf-8"@,
                ContentType::PlainText => "text/plain; charset=utf-8"@,
            },
    {
        match self {
            ContentType::Html => "text/html; charset=utf-8",
            ContentType::PlainText => "text/plain; charset=utf-8",
        }
    }
}

/// A reply to a request: status code, media type and body.
#[derive(Clone, Debug)]
pub struct Reply {
    pub status: u16,
    pub content_type: ContentType,
    pub body: String,
}

/// A reply as a value: status code, media type and the body's characters.
pub struct ReplyView {
    pub status: u16,
    pub content_type: ContentType,
    pub body: Seq<char>,
}

impl View for Reply {
    type V = ReplyView;

    open spec fn view(&self) -> ReplyView {
        ReplyView { status: self.status, content_type: self.content_type, body: self.body@ }
    }
}

/// The reply of the liveness check.
pub open spec fn health_reply() -> ReplyView {
    ReplyView { status: 200, content_type: ContentType::PlainText, body: "OK"@ }
}

/// The reply of the index page, given the rendered page or `None` when
/// rendering failed.
pub open spec fn index_page_reply(rendered: Option<Seq<char>>) -> ReplyView {
    match rendered {
        Some(page) => ReplyView { status: 200, content_type: ContentType::Html, body: page },
        None => ReplyView { status: 500, content_type: ContentType::PlainText, body: Seq::empty() },
    }
}

/// The route table: the index page, the liveness check, the asset directory
/// and the site icon, in that order.
pub fn route_table() -> (r: Vec<Route>)
    ensures
        r.len() == 4,
        r[0].path@ == INDEX_PATH@ && r[0].mount is Index,
        r[1].path@ == HEALTH_PATH@ && r[1].mount is Health,
        r[2].path@ == ASSETS_PATH@,
        r[2].mount matches Mount::Directory(d) && d@ == ASSETS_DIR@,
        r[3].path@ == FAVICON_PATH@,
        r[3].mount matches Mount::File(f) && f@ == FAVICON_FILE@,
{
    let mut r: Vec<Route> = Vec::new();
    r.push(Route { path: INDEX_PATH.to_owned(), mount: Mount::Index });
    r.push(Route { path: HEALTH_PATH.to_owned(), mount: Mount::Health });
    r.push(Route { path: ASSETS_PATH.to_owned(), mount: Mount::Directory(ASSETS_DIR.to_owned()) });
    r.push(Route { path: FAVICON_PATH.to_owned(), mount: Mount::File(FAVICON_FILE.to_owned()) });
    r
}

/// The reply to `GET /health`: status 200 and the plain text `OK`, whatever
/// else holds.
pub fn health() -> (r: Reply)
    ensures
        r@ == health_reply(),
{
    Reply { status: 200, content_type: ContentType::PlainText, body: "OK".to_owned() }
}

/// The reply to `GET /`, given the rendered index page, or `None` when
/// rendering failed: the page as HTML with status 200, or an empty reply with
/// status 500.
pub fn index_reply(rendered: Option<String>) -> (r: Reply)
    ensures
        r@ == index_page_reply(
            match rendered {
                Some(page) => Some(page@),
                None => None,
            },
        ),
{
    match rendered {
        Some(page) => Reply { status: 200, content_type: ContentType::Html, body: page },
        None => Reply { status: 500, content_type: ContentType::PlainText, body: String::new() },
    }
}

/// The liveness check answers 200 with the body `OK` and nothing else; it
/// depends on no input at all.
pub proof fn lemma_health_is_ok()
    ensures
        health_reply().status == 200,
        health_reply().body == "OK"@,
        health_reply().body.len() == 2,
{
    reveal_strlit("OK");
}

/// The index page is served as HTML with status 200, and its body is exactly
/// the rendered page: the same rendering always gives the same bytes.
pub proof fn lemma_index_serves_rendered_page(first: Seq<char>, second: Seq<char>)
    ensures
        index_page_reply(Some(first)).status == 200,
        index_page_reply(Some(first)).content_type == ContentType::Html,
        index_page_reply(Some(first)).body == first,
        first == second ==> index_page_reply(Some(first)) == index_page_reply(Some(second)),
{
}

} // verus!
