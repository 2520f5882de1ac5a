//! The login page.

use crate::flash::{
    message_html, messages_html, messages_html_shows_each, occurs_in, occurs_in_the_middle,
    render_messages, FlashMessage, FlashMessageView,
};
use crate::routes::{page, Body, Response, OK};
use vstd::prelude::*;
use vstd::string::StringExecFns;

verus! {

/// The login page down to its heading; the pending messages follow.
pub const LOGIN_HEAD: &'static str =
    "<!DOCTYPE html>\n<html lang=\"en\">\n<head>\n<meta charset=\"utf-8\">\n<title>Login - Bubble Services</title>\n</head>\n<body>\n<h1>Login</h1>\n";

/// The end of the login page: the way back to the home page.
pub const LOGIN_FOOT: &'static str =
    "<nav>\n<a id=\"home-link\" href=\"/\">Home</a>\n</nav>\n</body>\n</html>\n";

/// The login page that shows `messages`.
pub open spec fn login_page(messages: Seq<FlashMessageView>) -> Seq<char> {
    LOGIN_HEAD@ + messages_html(messages) + LOGIN_FOOT@
}

/// The login page shows every message handed to it.
pub proof fn login_page_shows_each_message(messages: Seq<FlashMessageView>, at: int)
    requires
        0 <= at < messages.len(),
    ensures
        occurs_in(message_html(messages[at]), login_page(messages)),
{
    messages_html_shows_each(messages, at);
    occurs_in_the_middle(
        message_html(messages[at]),
        LOGIN_HEAD@,
        messages_html(messages),
        LOGIN_FOOT@,
    );
}

/// The login page, with the messages that are pending for this visitor.
pub fn get(messages: &Vec<FlashMessage>) -> (response: Response)
    ensures
        response@ == page(login_page(messages.deep_view())),
{
    let mut html = String::from_str(LOGIN_HEAD);
    let shown = render_messages(messages);
    html.append(shown.as_str());
    html.append(LOGIN_FOOT);
    Response { status: OK, location: None, flash: None, body: Body::Html(html) }
}

} // verus!
