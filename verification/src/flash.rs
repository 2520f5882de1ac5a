//! Flash messages: one-time notices that a response leaves for the next page
//! the visitor sees, and the markup that shows them.

use vstd::prelude::*;
use vstd::string::StringExecFns;

verus! {

/// How serious a flash message is, from the least to the most.
#[derive(Clone, Copy, Debug, PartialEq, Eq, Structural)]
pub enum Level {
    Debug,
    Info,
    Success,
    Warning,
    Error,
}

/// A short text with its level, shown once and then forgotten.
#[derive(Debug)]
pub struct FlashMessage {
    content: String,
    level: Level,
}

/// A flash message as contracts see it.
pub struct FlashMessageView {
    pub content: Seq<char>,
    pub level: Level,
}

/// The message of level `Info` that says `content`.
pub open spec fn info_message(content: Seq<char>) -> FlashMessageView {
    FlashMessageView { content, level: Level::Info }
}

/// The message of level `Error` that says `content`.
pub open spec fn error_message(content: Seq<char>) -> FlashMessageView {
    FlashMessageView { content, level: Level::Error }
}

impl View for FlashMessage {
    type V = FlashMessageView;

    closed spec fn view(&self) -> FlashMessageView {
        FlashMessageView { content: self.content@, level: self.level }
    }
}

impl DeepView for FlashMessage {
    type V = FlashMessageView;

    open spec fn deep_view(&self) -> FlashMessageView {
        self@
    }
}

/// The word that stands for a level in markup.
pub open spec fn level_name(level: Level) -> Seq<char> {
    match level {
        Level::Debug => "debug"@,
        Level::Info => "info"@,
        Level::Success => "success"@,
        Level::Warning => "warning"@,
        Level::Error => "error"@,
    }
}

/// What one character becomes when text is placed inside HTML: the five
/// characters that markup is made of turn into entities, every other
/// character stays.
pub open spec fn escaped_char(c: char) -> Seq<char> {
    if c == '<' {
        "&lt;"@
    } else if c == '>' {
        "&gt;"@
    } else if c == '&' {
        "&amp;"@
    } else if c == '"' {
        "&quot;"@
    } else if c == '\'' {
        "&#x27;"@
    } else {
        seq![c]
    }
}

/// `text` with each of its characters escaped, in order.
pub open spec fn html_escaped(text: Seq<char>) -> Seq<char>
    decreases text.len(),
{
    if text.len() == 0 {
        Seq::empty()
    } else {
        html_escaped(text.drop_last()) + escaped_char(text.last())
    }
}

/// Whether a character can open or close a tag, or end an attribute value.
pub open spec fn is_markup(c: char) -> bool {
    c == '<' || c == '>' || c == '"' || c == '\''
}

/// Escaped text holds none of the characters that tags and attribute values
/// are delimited by: whatever a message says, a page shows it as text.
pub proof fn escaped_text_holds_no_markup(text: Seq<char>)
    ensures
        forall|at: int|
            0 <= at < html_escaped(text).len() ==> !is_markup(#[trigger] html_escaped(text)[at]),
    decreases text.len(),
{
    if text.len() > 0 {
        escaped_text_holds_no_markup(text.drop_last());
        reveal_strlit("&lt;");
        reveal_strlit("&gt;");
        reveal_strlit("&amp;");
        reveal_strlit("&quot;");
        reveal_strlit("&#x27;");
        let front = html_escaped(text.drop_last());
        let last = escaped_char(text.last());
        assert forall|at: int| 0 <= at < html_escaped(text).len() implies !is_markup(
            #[trigger] html_escaped(text)[at],
        ) by {
            if at < front.len() {
                assert(html_escaped(text)[at] == front[at]);
            } else {
                assert(html_escaped(text)[at] == last[at - front.len()]);
            }
        }
    }
}

/// The markup of one message: a second-level heading whose class is the
/// level's name and whose text is the escaped content.
pub open spec fn message_html(message: FlashMessageView) -> Seq<char> {
    "<h2 class=\""@ + level_name(message.level) + "\">"@ + html_escaped(message.content)
        + "</h2>\n"@
}

/// The markup of a list of messages: one heading after the other, in the
/// order of the list.
pub open spec fn messages_html(messages: Seq<FlashMessageView>) -> Seq<char>
    decreases messages.len(),
{
    if messages.len() == 0 {
        Seq::empty()
    } else {
        messages_html(messages.drop_last()) + message_html(messages.last())
    }
}

/// Whether `part` occurs in `text` as a run of consecutive characters.
pub open spec fn occurs_in(part: Seq<char>, text: Seq<char>) -> bool {
    exists|at: int|
        0 <= at && at + part.len() <= text.len() && #[trigger] text.subrange(
            at,
            at + part.len(),
        ) == part
}

/// What occurs in a text occurs in every text that holds it.
pub proof fn occurs_in_the_middle(
    part: Seq<char>,
    before: Seq<char>,
    text: Seq<char>,
    after: Seq<char>,
)
    requires
        occurs_in(part, text),
    ensures
        occurs_in(part, before + text + after),
{
    let at = choose|at: int|
        0 <= at && at + part.len() <= text.len() && #[trigger] text.subrange(
            at,
            at + part.len(),
        ) == part;
    let whole = before + text + after;
    let shifted = before.len() + at;
    assert(whole.subrange(shifted, shifted + part.len()) =~= text.subrange(at, at + part.len()));
}

/// The markup of a list of messages holds the heading of each of them.
pub proof fn messages_html_shows_each(messages: Seq<FlashMessageView>, at: int)
    requires
        0 <= at < messages.len(),
    ensures
        occurs_in(message_html(messages[at]), messages_html(messages)),
    decreases messages.len(),
{
    let front = messages_html(messages.drop_last());
    let last = message_html(messages.last());
    let none = Seq::<char>::empty();
    if at == messages.len() - 1 {
        assert(last.subrange(0, 0int + last.len()) =~= last);
        occurs_in_the_middle(last, front, last, none);
        assert(front + last + none =~= front + last);
    } else {
        messages_html_shows_each(messages.drop_last(), at);
        occurs_in_the_middle(message_html(messages[at]), none, front, last);
        assert(none + front + last =~= front + last);
    }
}

/// Askama's HTML escaper, as its templates apply it to every value they print:
/// `askama::MarkupDisplay::new_unsafe(text, askama::Html)`, formatted. The
/// escaper replaces `<`, `>`, `&`, `"` and `'` by `&lt;`, `&gt;`, `&amp;`,
/// `&quot;` and `&#x27;`, and copies everything else.
#[verifier::external_body]
fn escape_html(text: &str) -> (escaped: String)
    ensures
        escaped@ == html_escaped(text@),
{
    askama::MarkupDisplay::new_unsafe(text, askama::Html).to_string()
}

impl Level {
    /// The word that stands for this level in markup.
    pub fn name(self) -> (word: &'static str)
        ensures
            word@ == level_name(self),
    {
        match self {
            Level::Debug => "debug",
            Level::Info => "info",
            Level::Success => "success",
            Level::Warning => "warning",
            Level::Error => "error",
        }
    }
}

impl FlashMessage {
    /// A message of the given level.
    pub fn new(content: String, level: Level) -> (message: FlashMessage)
        ensures
            message@ == (FlashMessageView { content: content@, level }),
    {
        FlashMessage { content, level }
    }

    /// A message that reports something done.
    pub fn info(content: String) -> (message: FlashMessage)
        ensures
            message@ == info_message(content@),
    {
        FlashMessage { content, level: Level::Info }
    }

    /// A message that reports a failure.
    pub fn error(content: String) -> (message: FlashMessage)
        ensures
            message@ == error_message(content@),
    {
        FlashMessage { content, level: Level::Error }
    }

    /// The text of the message.
    pub fn content(&self) -> (text: &str)
        ensures
            text@ == self@.content,
    {
        self.content.as_str()
    }

    /// The level of the message.
    pub fn level(&self) -> (level: Level)
        ensures
            level == self@.level,
    {
        self.level
    }

    /// The heading that shows this message on a page.
    pub fn render(&self) -> (html: String)
        ensures
            html@ == message_html(self@),
    {
        let mut html = String::from_str("<h2 class=\"");
        html.append(self.level.name());
        html.append("\">");
        let escaped = escape_html(self.content.as_str());
        html.append(escaped.as_str());
        html.append("</h2>\n");
        html
    }
}

/// The headings that show `messages` on a page, in their order.
pub fn render_messages(messages: &Vec<FlashMessage>) -> (html: String)
    ensures
        html@ == messages_html(messages.deep_view()),
{
    let ghost views = messages.deep_view();
    let mut html = String::new();
    let mut done: usize = 0;
    assert(views.take(0) =~= Seq::<FlashMessageView>::empty());
    while done < messages.len()
        invariant
            done <= messages.len(),
            views == messages.deep_view(),
            html@ == messages_html(views.take(done as int)),
        decreases messages.len() - done,
    {
        let heading = messages[done].render();
        html.append(heading.as_str());
        proof {
            let shown = views.take(done + 1);
            assert(shown.drop_last() =~= views.take(done as int));
            assert(shown.last() == messages[done as int]@);
        }
        done += 1;
    }
    assert(views.take(done as int) =~= views);
    html
}

} // verus!
