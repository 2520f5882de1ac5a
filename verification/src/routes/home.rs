//! The home page: the pending messages, and a link to each thing a visitor
//! can do. Requesting a call is open to everyone; the login page is where
//! the others begin.

use crate::flash::{
    message_html, messages_html, messages_html_shows_each, occurs_in, occurs_in_the_middle,
    render_messages, FlashMessage, FlashMessageView,
};
use crate::routes::{body_text, page, Body, Response, OK};
use vstd::prelude::*;
use vstd::string::StringExecFns;

verus! {

/// The home page down to its heading; the pending messages follow.
pub const HOME_HEAD: &'static str =
    "<!DOCTYPE html>\n<html lang=\"en\">\n<head>\n<meta charset=\"utf-8\">\n<title>Bubble Services</title>\n</head>\n<body>\n<h1>Bubble Services</h1>\n";

/// The opening tag of the link from the home page to the call request form.
pub const CALL_REQUEST_ANCHOR: &'static str = "<a id=\"call-request-link\" href=\"/call_request\">";

/// The links of the home page after that opening tag, and the end of the
/// page.
pub const HOME_FOOT: &'static str =
    "Request a call</a>\n<a id=\"login-link\" href=\"/login\">Login</a>\n</nav>\n</body>\n</html>\n";

/// The home page that shows `messages`: the heading, the messages, then the
/// links to the call request form and to the login page.
pub open spec fn home_page(messages: Seq<FlashMessageView>) -> Seq<char> {
    HOME_HEAD@ + messages_html(messages) + "<nav>\n"@ + CALL_REQUEST_ANCHOR@ + HOME_FOOT@
}

/// Every home page holds an anchor with the identifier `call-request-link`
/// that leads to `/call_request`, whatever messages it shows.
pub proof fn home_page_links_to_call_request(messages: Seq<FlashMessageView>)
    ensures
        occurs_in(
            "<a id=\"call-request-link\" href=\"/call_request\">"@,
            home_page(messages),
        ),
{
    let anchor = CALL_REQUEST_ANCHOR@;
    let before = HOME_HEAD@ + messages_html(messages) + "<nav>\n"@;
    assert(anchor.subrange(0, 0int + anchor.len()) =~= anchor);
    occurs_in_the_middle(anchor, before, anchor, HOME_FOOT@);
}

/// The home page shows every message handed to it.
pub proof fn home_page_shows_each_message(messages: Seq<FlashMessageView>, at: int)
    requires
        0 <= at < messages.len(),
    ensures
        occurs_in(message_html(messages[at]), home_page(messages)),
{
    let after = "<nav>\n"@ + CALL_REQUEST_ANCHOR@ + HOME_FOOT@;
    messages_html_shows_each(messages, at);
    occurs_in_the_middle(message_html(messages[at]), HOME_HEAD@, messages_html(messages), after);
    assert(home_page(messages) =~= HOME_HEAD@ + messages_html(messages) + after);
}

/// The home page, with the messages that are pending for this visitor.
pub fn home(messages: &Vec<FlashMessage>) -> (response: Response)
    ensures
        response@ == page(home_page(messages.deep_view())),
        occurs_in(
            "<a id=\"call-request-link\" href=\"/call_request\">"@,
            body_text(response@.body),
        ),
{
    let mut html = String::from_str(HOME_HEAD);
    let shown = render_messages(messages);
    html.append(shown.as_str());
    html.append("<nav>\n");
    html.append(CALL_REQUEST_ANCHOR);
    html.append(HOME_FOOT);
    proof {
        home_page_links_to_call_request(messages.deep_view());
    }
    Response { status: OK, location: None, flash: None, body: Body::Html(html) }
}

} // verus!
