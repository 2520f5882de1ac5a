//! What each route answers, as plain data for the server to send.

pub mod call_request;
pub mod home;
pub mod login;

pub use home::home;

use crate::flash::{FlashMessage, FlashMessageView};
use vstd::prelude::*;

verus! {

/// HTTP status 200.
pub const OK: u16 = 200;

/// HTTP status 303.
pub const SEE_OTHER: u16 = 303;

/// HTTP status 400.
pub const BAD_REQUEST: u16 = 400;

/// HTTP status 500.
pub const INTERNAL_SERVER_ERROR: u16 = 500;

/// What a response carries besides its headers.
#[derive(Debug)]
pub enum Body {
    /// Nothing.
    Empty,
    /// A page, to be sent as `text/html`.
    Html(String),
    /// A line for whoever reads the response by hand, to be sent as
    /// `text/plain`.
    Text(String),
}

/// A body as contracts see it.
pub enum BodyView {
    Empty,
    Html(Seq<char>),
    Text(Seq<char>),
}

impl View for Body {
    type V = BodyView;

    open spec fn view(&self) -> BodyView {
        match self {
            Body::Empty => BodyView::Empty,
            Body::Html(page) => BodyView::Html(page@),
            Body::Text(line) => BodyView::Text(line@),
        }
    }
}

/// The characters a body is made of.
pub open spec fn body_text(body: BodyView) -> Seq<char> {
    match body {
        BodyView::Empty => Seq::empty(),
        BodyView::Html(page) => page,
        BodyView::Text(line) => line,
    }
}

impl Body {
    /// The characters the body is made of; none for an empty body.
    pub fn text(&self) -> (text: &str)
        ensures
            text@ == body_text(self@),
    {
        match self {
            Body::Empty => {
                proof {
                    reveal_strlit("");
                }
                assert(""@ =~= Seq::<char>::empty());
                ""
            },
            Body::Html(page) => page.as_str(),
            Body::Text(line) => line.as_str(),
        }
    }
}

/// What the server sends back: a status, where to go next if the response
/// redirects, the flash message to leave for the next page, and the body.
#[derive(Debug)]
pub struct Response {
    pub status: u16,
    pub location: Option<String>,
    pub flash: Option<FlashMessage>,
    pub body: Body,
}

/// A response as contracts see it.
pub struct ResponseView {
    pub status: u16,
    pub location: Option<Seq<char>>,
    pub flash: Option<FlashMessageView>,
    pub body: BodyView,
}

impl View for Response {
    type V = ResponseView;

    open spec fn view(&self) -> ResponseView {
        ResponseView {
            status: self.status,
            location: match self.location {
                Some(path) => Some(path@),
                None => None,
            },
            flash: match self.flash {
                Some(message) => Some(message@),
                None => None,
            },
            body: self.body@,
        }
    }
}

/// The response that says no more than that all is well: status 200 and
/// nothing else.
pub open spec fn ok() -> ResponseView {
    ResponseView { status: OK, location: None, flash: None, body: BodyView::Empty }
}

/// The response that shows a page: status 200 and the page as body.
pub open spec fn page(html: Seq<char>) -> ResponseView {
    ResponseView { status: OK, location: None, flash: None, body: BodyView::Html(html) }
}

/// The response that sends the visitor to `location` and leaves `flash` for
/// the page found there: status 303 and no body.
pub open spec fn see_other(location: Seq<char>, flash: FlashMessageView) -> ResponseView {
    ResponseView {
        status: SEE_OTHER,
        location: Some(location),
        flash: Some(flash),
        body: BodyView::Empty,
    }
}

/// The response that turns a request away: status 400, the reason as body,
/// no redirect and no flash message.
pub open spec fn bad_request(reason: Seq<char>) -> ResponseView {
    ResponseView { status: BAD_REQUEST, location: None, flash: None, body: BodyView::Text(reason) }
}

/// Liveness probe. Answers 200 with an empty body; it takes no input and
/// consults nothing, so it says so whatever state the database is in.
pub fn healthcheck() -> (response: Response)
    ensures
        response@ == ok(),
{
    Response { status: OK, location: None, flash: None, body: Body::Empty }
}

} // verus!
